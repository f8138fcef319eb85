use dice_roll_impl::evaluate::{roll_expr, roll_term, ContinuationPredicate, EvalError};
use dice_roll_impl::marshal::expr_res_to_value;
use dice_roll_impl::parse::{parse_expr, parse_term, DiceShape};
use dice_roll_impl::session::Evaluator;
use rand::RngCore;

#[test]
fn marshal_preserves_term_order_and_counts() {
    let src = vec![(7i64, vec![3i64, 4]), (2, vec![2]), (13, vec![5, 2, 6])];
    let v = expr_res_to_value(src);
    assert_eq!(v.terms.len(), 3);
    assert_eq!(v.terms[0].total, 7);
    assert_eq!(v.terms[0].rolls, vec![3, 4]);
    assert_eq!(v.terms[1].total, 2);
    assert_eq!(v.terms[1].rolls, vec![2]);
    assert_eq!(v.terms[2].total, 13);
    assert_eq!(v.terms[2].rolls, vec![5, 2, 6]);
}

#[test]
fn marshal_is_idempotent() {
    let a = expr_res_to_value(vec![(5i64, vec![1i64, 4]), (-2, vec![])]);
    let b = expr_res_to_value(vec![(5i64, vec![1i64, 4]), (-2, vec![])]);
    assert_eq!(a.terms.len(), b.terms.len());
    for i in 0..a.terms.len() {
        assert_eq!(a.terms[i].total, b.terms[i].total);
        assert_eq!(a.terms[i].rolls, b.terms[i].rolls);
    }
}

#[test]
fn single_term_total_is_sum_of_outcomes() {
    let t = parse_term("4d6").unwrap();
    assert_eq!(t.shape(), DiceShape::Plain { throws: 4, faces: 6 });
    let mut session = Evaluator::new();
    let v = roll_term(&mut session, &t, &ContinuationPredicate::Always).unwrap();
    assert_eq!(v.rolls.len(), 4);
    for r in &v.rolls {
        assert!(1 <= *r && *r <= 6);
    }
    let mut sum: i64 = 0;
    for r in &v.rolls {
        sum += *r;
    }
    assert_eq!(v.total, sum);
}

#[test]
fn expression_roll_has_one_entry_per_top_level_term() {
    let e = parse_expr("2d6 + 1d4 + 3d8").unwrap();
    // The external grammar reads the whole additive chain as one top-level
    // term; its entry holds the six outcomes in written roll order.
    assert_eq!(e.terms(), 1);
    assert_eq!(e.shape(), DiceShape::Other);
    let mut session = Evaluator::new();
    let v = roll_expr(&mut session, &e, &ContinuationPredicate::Always).unwrap();
    assert_eq!(v.terms.len(), 1);
    assert_eq!(v.terms[0].rolls.len(), 6);
    let mut sum: i64 = 0;
    for r in &v.terms[0].rolls {
        sum += *r;
    }
    assert_eq!(v.terms[0].total, sum);
    assert!(6 <= v.terms[0].total && v.terms[0].total <= 36);
}

#[test]
fn repeated_expression_yields_one_entry_per_repetition() {
    let e = parse_expr("3{2d6}").unwrap();
    assert_eq!(e.terms(), 3);
    assert_eq!(e.shape(), DiceShape::Plain { throws: 2, faces: 6 });
    let mut session = Evaluator::new();
    let v = roll_expr(&mut session, &e, &ContinuationPredicate::Always).unwrap();
    assert_eq!(v.terms.len(), 3);
    for term in &v.terms {
        assert_eq!(term.rolls.len(), 2);
        let mut sum: i64 = 0;
        for r in &term.rolls {
            assert!(1 <= *r && *r <= 6);
            sum += *r;
        }
        assert_eq!(term.total, sum);
    }
}

#[test]
fn rejecting_predicate_fails_sync_term() {
    let t = parse_term("4d6").unwrap();
    let mut session = Evaluator::new();
    let r = roll_term(&mut session, &t, &ContinuationPredicate::Never);
    assert!(matches!(r, Err(EvalError::Timeout)));
}

#[test]
fn rejecting_predicate_fails_sync_expr() {
    let e = parse_expr("4d6").unwrap();
    let mut session = Evaluator::new();
    let r = roll_expr(&mut session, &e, &ContinuationPredicate::Never);
    assert!(matches!(r, Err(EvalError::Timeout)));
}

#[test]
fn derived_generators_are_distinct() {
    let mut session = Evaluator::new();
    assert_eq!(session.derivations(), 0);
    let mut outs: Vec<u64> = Vec::new();
    for _ in 0..64 {
        let mut g = session.seed();
        outs.push(g.next_u64());
    }
    assert_eq!(session.derivations(), 64);
    outs.sort();
    outs.dedup();
    assert_eq!(outs.len(), 64);
}

#[test]
fn division_by_zero_is_reported() {
    let t = parse_term("1/0").unwrap();
    let mut session = Evaluator::new();
    let r = roll_term(&mut session, &t, &ContinuationPredicate::Always);
    assert!(matches!(r, Err(EvalError::DivideByZero)));
}

#[test]
fn overflow_is_reported() {
    let t = parse_term("9223372036854775807+1").unwrap();
    let mut session = Evaluator::new();
    let r = roll_term(&mut session, &t, &ContinuationPredicate::Always);
    assert!(matches!(r, Err(EvalError::Overflow)));
}

#[test]
fn unparsable_text_is_rejected() {
    assert!(parse_expr("").is_err());
    assert!(parse_term("").is_err());
    assert!(parse_expr("foo").is_err());
    assert!(parse_term("d").is_err());
}

#[test]
fn constant_term_evaluates_to_itself() {
    let t = parse_term("17").unwrap();
    assert_eq!(t.shape(), DiceShape::Other);
    let mut session = Evaluator::new();
    let v = roll_term(&mut session, &t, &ContinuationPredicate::Always).unwrap();
    assert_eq!(v.total, 17);
    assert_eq!(v.rolls.len(), 0);
}
