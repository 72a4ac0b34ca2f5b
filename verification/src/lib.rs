//! A fixed decision table over six optional inputs and a rule-set selector.
//!
//! A record holds three flags `a`, `b`, `c`, a double `d`, two integers `e`
//! and `f`, and the rule set to apply. It is evaluated in two stages:
//!
//! 1. [`classify`] maps the flags, under the rule set, to an outcome `M`, `P`
//!    or `T`, or to `E` where no rule covers them. This never fails.
//! 2. [`output`] picks the formula for the outcome and the rule set and
//!    yields the value, or names the numeric input that the formula lacks.
//!
//! [`compute`] runs both, and [`compute_factory`] turns what it gives into
//! the answer of the service: the output, or a rejection with a status code
//! and a message.
//!
//! Three things are settled here once and for all:
//!
//! - `d` is asked for before the outcome is looked at. A record without `d`
//!   fails with that input missing, even where its flags match no rule.
//! - The outcome `E` is a result, not a failure, of an evaluation; only the
//!   answer of the service treats it as a rejection, with a message of its
//!   own.
//! - The result carries the outcome that the table gave, never another.
//!
//! The library does no floating-point arithmetic. It carries `d` as a bit
//! pattern and yields the value as an [`Expr`], the formula with its
//! operands filled in, for the caller to evaluate in double precision.
//!
//! Every function is total: none panics, whatever the record holds.

pub mod classify;
pub mod evaluate;
pub mod laws;
pub mod reply;
pub mod types;

pub use classify::classify;
pub use evaluate::{compute, output};
pub use reply::{compute_factory, help};
pub use types::{Case, ErrorMessage, EvaluationError, Expr, Field, Output, Params, Refusal, H};
