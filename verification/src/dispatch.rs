//! Asynchronous dispatch.
//!
//! An asynchronous roll never blocks the caller.  Dispatch first registers
//! for a ticket — so the caller holds the ticket the moment dispatch
//! returns, before any producing work starts — then packages everything one
//! independent unit of execution needs: its own handle to the parsed tree, a
//! freshly derived generator it owns exclusively, the caller's predicate,
//! and the ticket.  The host runs the job off the caller's execution
//! context; completing a job evaluates, marshals inside the delivery step,
//! and pairs the outcome with the job's ticket for exactly one submission.
//! Completions of distinct jobs race: nothing orders them.

use rand_xoshiro::Xoshiro256PlusPlus;
use vstd::prelude::*;

use crate::evaluate::{
    evaluate_expression, evaluate_term, ContinuationPredicate, EvalError,
};
use crate::marshal::{ExprValue, TermValue};
use crate::notify::TicketRegistry;
use crate::parse::{DiceShape, ParsedExpression, ParsedTerm};
use crate::session::Evaluator;

verus! {

/// The outcome an asynchronous expression roll submits for its ticket.
pub type ExprOutcome = Result<ExprValue, EvalError>;

/// The outcome an asynchronous term roll submits for its ticket.
pub type TermOutcome = Result<TermValue, EvalError>;

/// Everything one asynchronous expression roll owns: nothing in here borrows
/// from the caller's state.
pub struct ExprJob {
    expr: ParsedExpression,
    gen: Xoshiro256PlusPlus,
    pred: ContinuationPredicate,
    ticket: usize,
}

impl ExprJob {
    /// The ticket this job's outcome will be submitted under.
    pub closed spec fn spec_ticket(&self) -> usize {
        self.ticket
    }

    /// Number of top-level terms of the job's expression.
    pub closed spec fn spec_terms(&self) -> u32 {
        self.expr.spec_terms()
    }

    /// Shape of the job's expression.
    pub closed spec fn spec_shape(&self) -> DiceShape {
        self.expr.spec_shape()
    }

    /// The continuation predicate the job evaluates under.
    pub closed spec fn spec_pred(&self) -> ContinuationPredicate {
        self.pred
    }
}

/// Everything one asynchronous term roll owns.
pub struct TermJob {
    term: ParsedTerm,
    gen: Xoshiro256PlusPlus,
    pred: ContinuationPredicate,
    ticket: usize,
}

impl TermJob {
    /// The ticket this job's outcome will be submitted under.
    pub closed spec fn spec_ticket(&self) -> usize {
        self.ticket
    }

    /// Shape of the job's term.
    pub closed spec fn spec_shape(&self) -> DiceShape {
        self.term.spec_shape()
    }

    /// The continuation predicate the job evaluates under.
    pub closed spec fn spec_pred(&self) -> ContinuationPredicate {
        self.pred
    }
}

/// Accept an asynchronous expression roll: register for a fresh ticket,
/// derive the roll's generator, and capture the job's own handles.  The
/// ticket is issued before the job exists, its slot still empty, so the
/// caller observes the ticket before the result can.
pub fn dispatch_expr(
    evaluator: &mut Evaluator,
    expr: &ParsedExpression,
    registry: &mut TicketRegistry<ExprOutcome>,
    pred: ContinuationPredicate,
) -> (r: (usize, ExprJob))
    requires
        old(evaluator).spec_derivations() < u64::MAX,
    ensures
        final(evaluator).spec_derivations() == old(evaluator).spec_derivations() + 1,
        crate::notify::registered(old(registry)@, final(registry)@, r.0),
        r.1.spec_ticket() == r.0,
        r.1.spec_terms() == expr.spec_terms(),
        r.1.spec_shape() == expr.spec_shape(),
        r.1.spec_pred() == pred,
{
    let gen = evaluator.seed();
    let ticket = registry.register();
    let job = ExprJob { expr: expr.duplicate(), gen, pred, ticket };
    (ticket, job)
}

/// Accept an asynchronous term roll, as `dispatch_expr` does for
/// expressions.
pub fn dispatch_term(
    evaluator: &mut Evaluator,
    term: &ParsedTerm,
    registry: &mut TicketRegistry<TermOutcome>,
    pred: ContinuationPredicate,
) -> (r: (usize, TermJob))
    requires
        old(evaluator).spec_derivations() < u64::MAX,
    ensures
        final(evaluator).spec_derivations() == old(evaluator).spec_derivations() + 1,
        crate::notify::registered(old(registry)@, final(registry)@, r.0),
        r.1.spec_ticket() == r.0,
        r.1.spec_shape() == term.spec_shape(),
        r.1.spec_pred() == pred,
{
    let gen = evaluator.seed();
    let ticket = registry.register();
    let job = TermJob { term: term.duplicate(), gen, pred, ticket };
    (ticket, job)
}

/// Run one dispatched expression roll to completion, on whatever execution
/// context owns the job: evaluate with the job's own generator and predicate,
/// marshal inside the delivery step, and pair the outcome — success or
/// failure alike — with the job's ticket for exactly one submission.
pub fn complete_expr_job(job: ExprJob) -> (r: (usize, ExprOutcome))
    requires
        job.spec_shape() matches DiceShape::Plain { throws, faces } ==> (throws as int) * (
        faces as int) <= i64::MAX,
    ensures
        r.0 == job.spec_ticket(),
        r.1 matches Ok(v) ==> v.terms@.len() == job.spec_terms() as nat,
        job.spec_shape() matches DiceShape::Plain { throws, faces } ==> {
            &&& (job.spec_pred() is Always ==> r.1 is Ok)
            &&& (job.spec_pred() is Never ==> r.1 == Err::<ExprValue, EvalError>(
                EvalError::Timeout,
            ))
            &&& (r.1 matches Ok(v) ==> forall|i: int|
                0 <= i < v.terms@.len() ==> crate::evaluate::plain_dice_outcome(
                    throws,
                    faces,
                    (#[trigger] v.terms@[i]).total,
                    v.terms@[i].rolls@,
                ))
        },
{
    let ExprJob { expr, mut gen, pred, ticket } = job;
    let outcome = evaluate_expression(&expr, &pred, &mut gen);
    (ticket, outcome)
}

/// Run one dispatched term roll to completion, as `complete_expr_job` does
/// for expressions.
pub fn complete_term_job(job: TermJob) -> (r: (usize, TermOutcome))
    requires
        job.spec_shape() matches DiceShape::Plain { throws, faces } ==> (throws as int) * (
        faces as int) <= i64::MAX,
    ensures
        r.0 == job.spec_ticket(),
        job.spec_shape() matches DiceShape::Plain { throws, faces } ==> {
            &&& (job.spec_pred() is Always ==> r.1 is Ok)
            &&& (job.spec_pred() is Never ==> r.1 == Err::<TermValue, EvalError>(
                EvalError::Timeout,
            ))
            &&& (r.1 matches Ok(v) ==> crate::evaluate::plain_dice_outcome(
                throws,
                faces,
                v.total,
                v.rolls@,
            ))
        },
{
    let TermJob { term, mut gen, pred, ticket } = job;
    let outcome = evaluate_term(&term, &pred, &mut gen);
    (ticket, outcome)
}

} // verus!
