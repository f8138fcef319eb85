use dice_roll_impl::dispatch::{
    complete_expr_job, complete_term_job, dispatch_expr, dispatch_term,
};
use dice_roll_impl::evaluate::{ContinuationPredicate, EvalError};
use dice_roll_impl::notify::TicketRegistry;
use dice_roll_impl::parse::{parse_expr, parse_term};
use dice_roll_impl::session::Evaluator;

#[test]
fn concurrent_rolls_get_distinct_tickets_each_submitted_once() {
    let mut session = Evaluator::new();
    let mut registry = TicketRegistry::new();
    let e1 = parse_expr("2d6").unwrap();
    let e2 = parse_expr("3{1d4}").unwrap();
    let (t1, j1) = dispatch_expr(&mut session, &e1, &mut registry, ContinuationPredicate::Always);
    let (t2, j2) = dispatch_expr(&mut session, &e2, &mut registry, ContinuationPredicate::Always);
    assert_ne!(t1, t2);
    assert_eq!(registry.issued(), 2);
    // The tickets exist before either result does.
    assert!(registry.retrieve(t1).is_none());
    assert!(registry.retrieve(t2).is_none());
    // Completions race: finish the later-dispatched job first.
    let (ct2, o2) = complete_expr_job(j2);
    let (ct1, o1) = complete_expr_job(j1);
    assert_eq!(ct1, t1);
    assert_eq!(ct2, t2);
    registry.submit(ct2, o2);
    registry.submit(ct1, o1);
    // Each ticket resolves to its own roll's result.
    let r1 = registry.retrieve(t1).unwrap().unwrap();
    assert_eq!(r1.terms.len(), 1);
    assert_eq!(r1.terms[0].rolls.len(), 2);
    let r2 = registry.retrieve(t2).unwrap().unwrap();
    assert_eq!(r2.terms.len(), 3);
    assert_eq!(r2.terms[0].rolls.len(), 1);
    // A consumed ticket yields nothing again.
    assert!(registry.retrieve(t1).is_none());
    assert!(registry.retrieve(t2).is_none());
}

#[test]
fn rejecting_predicate_fails_async_roll() {
    let mut session = Evaluator::new();
    let mut registry = TicketRegistry::new();
    let e = parse_expr("4d6").unwrap();
    let (t, job) = dispatch_expr(&mut session, &e, &mut registry, ContinuationPredicate::Never);
    let (ct, outcome) = complete_expr_job(job);
    assert_eq!(ct, t);
    assert!(matches!(outcome, Err(EvalError::Timeout)));
    registry.submit(ct, outcome);
    let delivered = registry.retrieve(t).unwrap();
    assert!(matches!(delivered, Err(EvalError::Timeout)));
}

#[test]
fn async_term_roll_completes_with_its_ticket() {
    let mut session = Evaluator::new();
    let mut registry = TicketRegistry::new();
    let t = parse_term("4d6").unwrap();
    let (ticket, job) = dispatch_term(&mut session, &t, &mut registry, ContinuationPredicate::Always);
    let (ct, outcome) = complete_term_job(job);
    assert_eq!(ct, ticket);
    let v = outcome.unwrap();
    assert_eq!(v.rolls.len(), 4);
    let mut sum: i64 = 0;
    for r in &v.rolls {
        assert!(1 <= *r && *r <= 6);
        sum += *r;
    }
    assert_eq!(v.total, sum);
    registry.submit(ct, Ok(v));
    assert!(registry.retrieve(ticket).unwrap().is_ok());
}
