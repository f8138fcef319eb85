//! The evaluation bridge.
//!
//! One roll combines a parsed expression or term, a freshly derived fast
//! generator, and a caller-supplied continuation predicate, and runs the
//! external evaluator.  The bridge does not interpret the predicate: it only
//! forwards it, and propagates the evaluator's failure verbatim in kind.
//! A successful evaluation is marshaled into the caller's structured value.

use dice_roll::dice_roll::{EvaluationErrors, ExpressionEvaluate, TermEvaluate};
use rand_xoshiro::Xoshiro256PlusPlus;
use vstd::prelude::*;

use crate::marshal::{expr_res_to_value, term_res_to_value, ExprValue, TermValue};
use crate::parse::{expr_parse_of, shape_spec, DiceShape, ParsedExpression, ParsedTerm};
use crate::session::Evaluator;

verus! {

/// The caller-supplied continuation capability: consulted by the evaluator
/// while it works, it answers "may evaluation continue?".  A predicate that
/// answers no makes the evaluator give up on the next die group.
#[derive(Clone, Copy, Debug, PartialEq, Eq, Structural)]
pub enum ContinuationPredicate {
    /// Evaluation may always continue.
    Always,
    /// Evaluation is rejected as soon as the predicate is consulted.
    Never,
}

impl ContinuationPredicate {
    /// Whether evaluation must stop now: the negation of the capability's
    /// answer, in the form the external evaluator consumes.
    pub fn should_stop(&self) -> (r: bool)
        ensures
            r == (*self is Never),
    {
        match self {
            ContinuationPredicate::Always => false,
            ContinuationPredicate::Never => true,
        }
    }
}

/// An evaluation failure, reported once, verbatim in kind, to the caller or
/// to the asynchronous submission path.
#[derive(Clone, Copy, Debug, PartialEq, Eq, Structural)]
pub enum EvalError {
    /// The expression divided by zero.
    DivideByZero,
    /// The continuation predicate stopped the evaluation.
    Timeout,
    /// An intermediate value left the signed 64-bit range.
    Overflow,
}

/// The sum of a sequence of outcomes.
pub open spec fn sum_of(s: Seq<i64>) -> int
    decreases s.len(),
{
    if s.len() == 0 {
        0
    } else {
        sum_of(s.drop_last()) + s.last()
    }
}

/// What one term's outcome looks like when the term is a plain group of
/// numbered dice: one outcome per die, each between 1 and the face count,
/// and a total that is exactly their sum.
pub open spec fn plain_dice_outcome(throws: u32, faces: u32, total: i64, rolls: Seq<i64>) -> bool {
    &&& rolls.len() == throws as nat
    &&& (forall|j: int| 0 <= j < rolls.len() ==> 1 <= #[trigger] rolls[j] <= faces as i64)
    &&& total == sum_of(rolls)
}

/// Relies on dice_roll's `ExpressionEvaluate::evaluate`: the result holds one
/// entry per top-level term, in written order.  A `ParsedExpression` is built
/// only by `parse_expr`, so its recorded term count and shape are the tree's
/// own.  The evaluator consults the forwarded predicate at each die group; a
/// predicate that rejects at once stops the first group rolled with a timeout
/// failure.  For an expression whose term is a plain group of numbered dice
/// there is no other failure source: each entry then holds one outcome per
/// die, each between 1 and the face count, and the entry's total is their sum
/// (the evaluator sums with plain addition, whence the bound on
/// `throws * faces`).
#[verifier::external_body]
fn eval_expr_tree(
    expr: &ParsedExpression,
    pred: &ContinuationPredicate,
    gen: &mut Xoshiro256PlusPlus,
) -> (r: Result<Vec<(i64, Vec<i64>)>, EvalError>)
    requires
        expr.spec_shape() matches DiceShape::Plain { throws, faces } ==> (throws as int) * (
        faces as int) <= i64::MAX,
    ensures
        r matches Ok(v) ==> v@.len() == expr.spec_terms() as nat,
        expr.spec_shape() matches DiceShape::Plain { throws, faces } ==> {
            &&& (*pred is Always ==> r is Ok)
            &&& (*pred is Never ==> r == Err::<Vec<(i64, Vec<i64>)>, EvalError>(
                EvalError::Timeout,
            ))
            &&& (r matches Ok(v) ==> forall|i: int|
                0 <= i < v@.len() ==> plain_dice_outcome(
                    throws,
                    faces,
                    (#[trigger] v@[i]).0,
                    v@[i].1@,
                ))
        },
{
    match expr.tree.evaluate(&mut || pred.should_stop(), gen) {
        Ok(v) => Ok(v),
        Err(EvaluationErrors::DivideByZero) => Err(EvalError::DivideByZero),
        Err(EvaluationErrors::Timeout) => Err(EvalError::Timeout),
        Err(EvaluationErrors::Overflow) => Err(EvalError::Overflow),
    }
}

/// Relies on dice_roll's `TermEvaluate::evaluate`: as for expressions, with a
/// single total-and-outcomes pair instead of one entry per term.  A
/// `ParsedTerm` is built only by `parse_term`, so its recorded shape is the
/// tree's own.
#[verifier::external_body]
fn eval_term_tree(
    term: &ParsedTerm,
    pred: &ContinuationPredicate,
    gen: &mut Xoshiro256PlusPlus,
) -> (r: Result<(i64, Vec<i64>), EvalError>)
    requires
        term.spec_shape() matches DiceShape::Plain { throws, faces } ==> (throws as int) * (
        faces as int) <= i64::MAX,
    ensures
        term.spec_shape() matches DiceShape::Plain { throws, faces } ==> {
            &&& (*pred is Always ==> r is Ok)
            &&& (*pred is Never ==> r == Err::<(i64, Vec<i64>), EvalError>(EvalError::Timeout))
            &&& (r matches Ok(p) ==> plain_dice_outcome(throws, faces, p.0, p.1@))
        },
{
    match term.tree.evaluate(&mut || pred.should_stop(), gen) {
        Ok(p) => Ok(p),
        Err(EvaluationErrors::DivideByZero) => Err(EvalError::DivideByZero),
        Err(EvaluationErrors::Timeout) => Err(EvalError::Timeout),
        Err(EvaluationErrors::Overflow) => Err(EvalError::Overflow),
    }
}

/// Run the bridge on a parsed expression with a caller-supplied generator:
/// evaluate under the caller's predicate and marshal the nested result.
/// Success and failure are mutually exclusive outcomes: a failure is the
/// evaluator's, reported verbatim in kind, and a success holds one marshaled
/// entry per top-level term, in written order.
pub fn evaluate_expression(
    expr: &ParsedExpression,
    pred: &ContinuationPredicate,
    gen: &mut Xoshiro256PlusPlus,
) -> (r: Result<ExprValue, EvalError>)
    requires
        expr.spec_shape() matches DiceShape::Plain { throws, faces } ==> (throws as int) * (
        faces as int) <= i64::MAX,
    ensures
        r matches Ok(v) ==> v.terms@.len() == expr.spec_terms() as nat,
        expr.spec_shape() matches DiceShape::Plain { throws, faces } ==> {
            &&& (*pred is Always ==> r is Ok)
            &&& (*pred is Never ==> r == Err::<ExprValue, EvalError>(EvalError::Timeout))
            &&& (r matches Ok(v) ==> forall|i: int|
                0 <= i < v.terms@.len() ==> plain_dice_outcome(
                    throws,
                    faces,
                    (#[trigger] v.terms@[i]).total,
                    v.terms@[i].rolls@,
                ))
        },
{
    match eval_expr_tree(expr, pred, gen) {
        Ok(res) => {
            let v = expr_res_to_value(res);
            proof {
                if v.terms@.len() > 0 && expr.spec_shape() is Plain {
                    let throws = expr.spec_shape()->Plain_throws;
                    let faces = expr.spec_shape()->Plain_faces;
                    assert forall|i: int| 0 <= i < v.terms@.len() implies plain_dice_outcome(
                        throws,
                        faces,
                        (#[trigger] v.terms@[i]).total,
                        v.terms@[i].rolls@,
                    ) by {
                        assert(plain_dice_outcome(throws, faces, (res@[i]).0, res@[i].1@));
                        assert(crate::marshal::term_marshaled(res@[i], v.terms@[i]));
                    };
                }
            }
            Ok(v)
        },
        Err(e) => Err(e),
    }
}

/// Run the bridge on a parsed single term with a caller-supplied generator:
/// evaluate under the caller's predicate and marshal the single
/// total-and-outcomes pair directly, with no outer container.
pub fn evaluate_term(
    term: &ParsedTerm,
    pred: &ContinuationPredicate,
    gen: &mut Xoshiro256PlusPlus,
) -> (r: Result<TermValue, EvalError>)
    requires
        term.spec_shape() matches DiceShape::Plain { throws, faces } ==> (throws as int) * (
        faces as int) <= i64::MAX,
    ensures
        term.spec_shape() matches DiceShape::Plain { throws, faces } ==> {
            &&& (*pred is Always ==> r is Ok)
            &&& (*pred is Never ==> r == Err::<TermValue, EvalError>(EvalError::Timeout))
            &&& (r matches Ok(v) ==> plain_dice_outcome(throws, faces, v.total, v.rolls@))
        },
{
    match eval_term_tree(term, pred, gen) {
        Ok(p) => Ok(term_res_to_value(p)),
        Err(e) => Err(e),
    }
}

/// Evaluate a parsed expression synchronously, blocking the caller: derive a
/// fresh generator from the session, run the bridge, and hand back the
/// marshaled result or the evaluator's failure.
pub fn roll_expr(
    evaluator: &mut Evaluator,
    expr: &ParsedExpression,
    pred: &ContinuationPredicate,
) -> (r: Result<ExprValue, EvalError>)
    requires
        old(evaluator).spec_derivations() < u64::MAX,
        expr.spec_shape() matches DiceShape::Plain { throws, faces } ==> (throws as int) * (
        faces as int) <= i64::MAX,
    ensures
        final(evaluator).spec_derivations() == old(evaluator).spec_derivations() + 1,
        r matches Ok(v) ==> v.terms@.len() == expr.spec_terms() as nat,
        expr.spec_shape() matches DiceShape::Plain { throws, faces } ==> {
            &&& (*pred is Always ==> r is Ok)
            &&& (*pred is Never ==> r == Err::<ExprValue, EvalError>(EvalError::Timeout))
            &&& (r matches Ok(v) ==> forall|i: int|
                0 <= i < v.terms@.len() ==> plain_dice_outcome(
                    throws,
                    faces,
                    (#[trigger] v.terms@[i]).total,
                    v.terms@[i].rolls@,
                ))
        },
{
    let mut gen = evaluator.seed();
    evaluate_expression(expr, pred, &mut gen)
}

/// Evaluate a parsed single term synchronously, blocking the caller: derive
/// a fresh generator from the session, run the bridge, and hand back the
/// marshaled result or the evaluator's failure.
pub fn roll_term(
    evaluator: &mut Evaluator,
    term: &ParsedTerm,
    pred: &ContinuationPredicate,
) -> (r: Result<TermValue, EvalError>)
    requires
        old(evaluator).spec_derivations() < u64::MAX,
        term.spec_shape() matches DiceShape::Plain { throws, faces } ==> (throws as int) * (
        faces as int) <= i64::MAX,
    ensures
        final(evaluator).spec_derivations() == old(evaluator).spec_derivations() + 1,
        term.spec_shape() matches DiceShape::Plain { throws, faces } ==> {
            &&& (*pred is Always ==> r is Ok)
            &&& (*pred is Never ==> r == Err::<TermValue, EvalError>(EvalError::Timeout))
            &&& (r matches Ok(v) ==> plain_dice_outcome(throws, faces, v.total, v.rolls@))
        },
{
    let mut gen = evaluator.seed();
    evaluate_term(term, pred, &mut gen)
}

/// Round trip from source text to marshaled result: for every expression
/// text the parser accepts, a successful roll of the parsed expression
/// yields exactly one marshaled entry per top-level term of the text.  The
/// hypotheses are what `parse_expr` ensures of the parsed expression and
/// what `roll_expr` ensures of a successful result.
pub proof fn lemma_round_trip_term_count(s: Seq<char>, pe: ParsedExpression, v: ExprValue)
    requires
        expr_parse_of(s) == Some((pe.spec_terms() as nat, shape_spec(pe.spec_shape()))),
        v.terms@.len() == pe.spec_terms() as nat,
    ensures
        expr_parse_of(s) is Some,
        v.terms@.len() == expr_parse_of(s).unwrap().0,
{
}

} // verus!
