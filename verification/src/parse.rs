//! Parsed expressions and terms.
//!
//! The grammar and the parser belong to the external dice_roll collaborator.
//! The bridge keeps the parsed syntax tree opaque and carries beside it the
//! plain facts its contracts speak of: how many top-level terms the
//! expression has, and whether the term is a single plain group of numbered
//! dice.  Trees are immutable after parsing and shared read-only across
//! however many rolls reuse them.

use dice_roll::{Dice, DiceType, Expression, FilteredDice, SelectedDice, Term};
use std::sync::Arc;
use vstd::prelude::*;

verus! {

/// The expression syntax tree of dice_roll, opaque to the bridge.
#[verifier::external_type_specification]
#[verifier::external_body]
pub struct ExExpression(Expression);

/// The term syntax tree of dice_roll, opaque to the bridge.
#[verifier::external_type_specification]
#[verifier::external_body]
pub struct ExTerm(Term);

/// The text did not parse as a dice expression or term.
#[derive(Clone, Copy, Debug, PartialEq, Eq, Structural)]
pub struct ParseError;

/// The shape of a parsed term, as far as the bridge's contracts read it.
#[derive(Clone, Copy, Debug, PartialEq, Eq, Structural)]
pub enum DiceShape {
    /// A single unfiltered, unselected group of numbered dice: `throws` dice
    /// with faces `1..=faces`.  The parser only accepts counts above zero.
    Plain { throws: u32, faces: u32 },
    /// Any other term: constants, calculations, sub-terms, fudge or
    /// multiplied dice, filtered or selected groups.
    Other,
}

/// The spec-level image of a shape: the plain-dice parameters, if any.
pub open spec fn shape_spec(d: DiceShape) -> Option<(nat, nat)> {
    match d {
        DiceShape::Plain { throws, faces } => Some((throws as nat, faces as nat)),
        DiceShape::Other => None,
    }
}

/// What dice_roll's parser makes of an expression source text, a function of
/// the text alone: `None` when the text does not parse; otherwise
/// `Some((n, d))`, where `n` is the number of top-level terms the parsed
/// expression evaluates (a plain expression has one; a repetition `k{..}`
/// has `k`) and `d` describes that term's shape as `shape_spec` does.
pub uninterp spec fn expr_parse_of(s: Seq<char>) -> Option<(nat, Option<(nat, nat)>)>;

/// What dice_roll's parser makes of a term source text, a function of the
/// text alone: `None` when the text does not parse; otherwise `Some(d)`,
/// where `d` describes the parsed term's shape as `shape_spec` does.
pub uninterp spec fn term_parse_of(s: Seq<char>) -> Option<Option<(nat, nat)>>;

/// A parsed expression: the shared immutable syntax tree, with the plain
/// facts of it that the bridge's contracts read.
pub struct ParsedExpression {
    pub(crate) tree: Arc<Expression>,
    pub(crate) term_count: u32,
    pub(crate) dice: DiceShape,
}

/// A parsed term: the shared immutable syntax tree, with the plain facts of
/// it that the bridge's contracts read.
pub struct ParsedTerm {
    pub(crate) tree: Arc<Term>,
    pub(crate) dice: DiceShape,
}

impl ParsedExpression {
    /// Number of top-level terms the expression evaluates.
    pub closed spec fn spec_terms(&self) -> u32 {
        self.term_count
    }

    /// Shape of the expression's term.
    pub closed spec fn spec_shape(&self) -> DiceShape {
        self.dice
    }

    /// Number of top-level terms the expression evaluates.
    #[verifier::when_used_as_spec(spec_terms)]
    pub fn terms(&self) -> (r: u32)
        ensures
            r == self.spec_terms(),
    {
        self.term_count
    }

    /// Shape of the expression's term.
    #[verifier::when_used_as_spec(spec_shape)]
    pub fn shape(&self) -> (r: DiceShape)
        ensures
            r == self.spec_shape(),
    {
        self.dice
    }
}

impl ParsedTerm {
    /// Shape of the term.
    pub closed spec fn spec_shape(&self) -> DiceShape {
        self.dice
    }

    /// Shape of the term.
    #[verifier::when_used_as_spec(spec_shape)]
    pub fn shape(&self) -> (r: DiceShape)
        ensures
            r == self.spec_shape(),
    {
        self.dice
    }
}

/// Relies on std's `Arc::clone`: the clone is a handle to the same tree.
#[verifier::external_body]
fn clone_expr_tree(t: &Arc<Expression>) -> (r: Arc<Expression>)
    ensures
        r == *t,
{
    Arc::clone(t)
}

/// Relies on std's `Arc::clone`: the clone is a handle to the same tree.
#[verifier::external_body]
fn clone_term_tree(t: &Arc<Term>) -> (r: Arc<Term>)
    ensures
        r == *t,
{
    Arc::clone(t)
}

impl ParsedExpression {
    /// An independent handle to the same parsed expression, for handing to
    /// another execution context.  The tree is shared, never copied.
    pub fn duplicate(&self) -> (r: ParsedExpression)
        ensures
            r.spec_terms() == self.spec_terms(),
            r.spec_shape() == self.spec_shape(),
    {
        ParsedExpression {
            tree: clone_expr_tree(&self.tree),
            term_count: self.term_count,
            dice: self.dice,
        }
    }
}

impl ParsedTerm {
    /// An independent handle to the same parsed term, for handing to another
    /// execution context.  The tree is shared, never copied.
    pub fn duplicate(&self) -> (r: ParsedTerm)
        ensures
            r.spec_shape() == self.spec_shape(),
    {
        ParsedTerm { tree: clone_term_tree(&self.tree), dice: self.dice }
    }
}

/// Relies on dice_roll's `parser::parse_expression`: parsing is a function of
/// the text alone, and succeeds exactly when a leading expression can be read
/// (trailing text is ignored, as the parser leaves it unread).  A plain
/// expression evaluates one term; a repetition `k{..}` evaluates `k`; the
/// parser only accepts repetition counts, throw counts and face counts above
/// zero.  The recorded shape is `Plain` exactly for a single unfiltered,
/// unselected group of numbered dice.
#[verifier::external_body]
pub fn parse_expr(text: &str) -> (r: Result<ParsedExpression, ParseError>)
    ensures
        r is Ok <==> expr_parse_of(text@) is Some,
        r matches Ok(pe) ==> expr_parse_of(text@) == Some(
            (pe.spec_terms() as nat, shape_spec(pe.spec_shape())),
        ),
        r matches Ok(pe) ==> pe.spec_terms() >= 1,
        r matches Ok(pe) ==> (pe.spec_shape() matches DiceShape::Plain { throws, faces }
            ==> throws >= 1 && faces >= 1),
{
    match dice_roll::parser::parse_expression(text) {
        Ok((_, e)) => {
            let (n, t) = match &e {
                Expression::Simple(t) => (1u32, t),
                Expression::List(n, t) => (*n, t),
            };
            let dice = match t {
                Term::DiceThrow(SelectedDice::Unchanged(FilteredDice::Simple(Dice { throws, dice: DiceType::Number(faces) }))) => DiceShape::Plain { throws: *throws, faces: *faces },
                _ => DiceShape::Other,
            };
            Ok(ParsedExpression { tree: Arc::new(e), term_count: n, dice })
        }
        Err(_) => Err(ParseError),
    }
}

/// Relies on dice_roll's `parser::parse_term`: parsing is a function of the
/// text alone, and succeeds exactly when a leading term can be read (trailing
/// text is ignored, as the parser leaves it unread).  The parser only accepts
/// throw counts and face counts above zero.  The recorded shape is `Plain`
/// exactly for a single unfiltered, unselected group of numbered dice.
#[verifier::external_body]
pub fn parse_term(text: &str) -> (r: Result<ParsedTerm, ParseError>)
    ensures
        r is Ok <==> term_parse_of(text@) is Some,
        r matches Ok(pt) ==> term_parse_of(text@) == Some(shape_spec(pt.spec_shape())),
        r matches Ok(pt) ==> (pt.spec_shape() matches DiceShape::Plain { throws, faces }
            ==> throws >= 1 && faces >= 1),
{
    match dice_roll::parser::parse_term(text) {
        Ok((_, t)) => {
            let dice = match &t {
                Term::DiceThrow(SelectedDice::Unchanged(FilteredDice::Simple(Dice { throws, dice: DiceType::Number(faces) }))) => DiceShape::Plain { throws: *throws, faces: *faces },
                _ => DiceShape::Other,
            };
            Ok(ParsedTerm { tree: Arc::new(t), dice })
        }
        Err(_) => Err(ParseError),
    }
}

} // verus!
