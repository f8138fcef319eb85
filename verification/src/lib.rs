//! Evaluation bridge for dice-roll expressions.
//!
//! A caller parses a dice expression or a single term, then has it evaluated
//! either synchronously or asynchronously.  Each roll draws a fresh fast
//! generator from a securely seeded session source, the external evaluator
//! produces a nested numeric result, and the marshaler turns that result into
//! the structured value handed back to the caller.  Asynchronous rolls are
//! correlated with their callers through single-use tickets.

pub mod dispatch;
pub mod evaluate;
pub mod marshal;
pub mod notify;
pub mod parse;
pub mod session;
