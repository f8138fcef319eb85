//! Marshaling of nested evaluation results.
//!
//! The external evaluator reports an expression result as an ordered sequence
//! of pairs: one per term, each holding the term's total and the individual
//! die outcomes in roll order.  The marshaler converts that nested numeric
//! shape into the structured values the caller consumes, preserving the order
//! of terms and of outcomes exactly.  It is pure and total: a well-formed
//! evaluation result always marshals, and the output is determined by the
//! input alone.

use vstd::prelude::*;

verus! {

/// Marshaled form of one term's outcome: the term's total and the individual
/// die outcomes, in roll order.
pub struct TermValue {
    pub total: i64,
    pub rolls: Vec<i64>,
}

/// Marshaled form of a whole expression's outcome: one entry per term, in the
/// order the terms were evaluated.
pub struct ExprValue {
    pub terms: Vec<TermValue>,
}

/// The marshaled term mirrors the evaluator's pair exactly: same total, same
/// outcomes, same order.
pub open spec fn term_marshaled(src: (i64, Vec<i64>), dst: TermValue) -> bool {
    &&& dst.total == src.0
    &&& dst.rolls@ == src.1@
}

/// The marshaled expression has one entry per term, each mirroring the
/// corresponding pair of the evaluator's result, in the same order.
pub open spec fn expr_marshaled(src: Seq<(i64, Vec<i64>)>, dst: ExprValue) -> bool {
    &&& dst.terms@.len() == src.len()
    &&& forall|i: int| 0 <= i < src.len() ==> term_marshaled(src[i], #[trigger] dst.terms@[i])
}

/// Marshal a single term's result.
pub fn term_res_to_value(value: (i64, Vec<i64>)) -> (r: TermValue)
    ensures
        term_marshaled(value, r),
{
    TermValue { total: value.0, rolls: value.1 }
}

/// Marshal an expression's result, term by term, in order.
pub fn expr_res_to_value(value: Vec<(i64, Vec<i64>)>) -> (r: ExprValue)
    ensures
        expr_marshaled(value@, r),
{
    let ghost src = value@;
    let mut rest = value;
    let mut terms: Vec<TermValue> = Vec::new();
    while rest.len() > 0
        invariant
            terms@.len() + rest@.len() == src.len(),
            rest@ == src.subrange(terms@.len() as int, src.len() as int),
            forall|i: int| 0 <= i < terms@.len() ==> term_marshaled(src[i], #[trigger] terms@[i]),
        decreases rest@.len(),
    {
        let pair = rest.remove(0);
        terms.push(term_res_to_value(pair));
    }
    ExprValue { terms }
}

/// Two term values agree when every observable part is equal: the total and
/// each individual outcome, in order.
pub open spec fn same_term_value(a: TermValue, b: TermValue) -> bool {
    &&& a.total == b.total
    &&& a.rolls@ == b.rolls@
}

/// Two expression values agree when they hold agreeing term values in the
/// same order.
pub open spec fn same_expr_value(a: ExprValue, b: ExprValue) -> bool {
    &&& a.terms@.len() == b.terms@.len()
    &&& forall|i: int|
        0 <= i < a.terms@.len() ==> same_term_value(#[trigger] a.terms@[i], b.terms@[i])
}

/// Marshaling is a function of the evaluation result alone: marshaling the
/// same term result twice yields identical output both times.
pub proof fn lemma_term_marshal_deterministic(src: (i64, Vec<i64>), a: TermValue, b: TermValue)
    requires
        term_marshaled(src, a),
        term_marshaled(src, b),
    ensures
        same_term_value(a, b),
{
}

/// Marshaling is a function of the evaluation result alone: marshaling the
/// same expression result twice yields identical output both times.
pub proof fn lemma_expr_marshal_deterministic(src: Seq<(i64, Vec<i64>)>, a: ExprValue, b: ExprValue)
    requires
        expr_marshaled(src, a),
        expr_marshaled(src, b),
    ensures
        same_expr_value(a, b),
{
    assert forall|i: int|
        0 <= i < a.terms@.len() implies same_term_value(#[trigger] a.terms@[i], b.terms@[i]) by {
        lemma_term_marshal_deterministic(src[i], a.terms@[i], b.terms@[i]);
    }
}

} // verus!
