//! The second stage of an evaluation, and the two stages together.

use vstd::prelude::*;
use crate::classify::{classify, spec_classify};
use crate::types::{Case, EvaluationError, Expr, Field, Output, Params, H};

verus! {

/// Whether the formula for outcome `h` under rule set `case` reads `e`.
pub open spec fn needs_e(h: H, case: Case) -> bool {
    h == H::M || h == H::P
}

/// Whether the formula for outcome `h` under rule set `case` reads `f`.
pub open spec fn needs_f(h: H, case: Case) -> bool {
    ||| h == H::M && case == Case::C2
    ||| h == H::P && case != Case::C1
    ||| h == H::T
}

/// The value for outcome `h` under rule set `case`, as an expression in
/// `d`, `e` and `f`:
///
/// | outcome | rule set | value                    |
/// |---------|----------|--------------------------|
/// | M       | B, C1    | `d + d * e / 10`         |
/// | M       | C2       | `f + d + d * e / 100`    |
/// | P       | B, C2    | `d + d * (e - f) / 25.5` |
/// | P       | C1       | `2 * d + d * e / 100`    |
/// | T       | any      | `d - d * f / 30`         |
/// | E       | any      | `0`                      |
///
/// A product is formed before it is divided, and sums are formed from the
/// left. `d` is given by its bit pattern. The divisor 25.5 is written as
/// the quotient `51 / 2`, which binary floating point forms without
/// rounding. An operand that the row does not read has no influence on the
/// result.
pub open spec fn spec_value(h: H, case: Case, d: u64, e: i32, f: i32) -> Expr {
    let d = Expr::Bits(d);
    let e = Expr::Int(e);
    let f = Expr::Int(f);
    match h {
        H::M => if case == Case::C2 {
            f.plus(d).plus(d.times(e).over(Expr::Int(100)))
        } else {
            d.plus(d.times(e).over(Expr::Int(10)))
        },
        H::P => if case == Case::C1 {
            Expr::Int(2).times(d).plus(d.times(e).over(Expr::Int(100)))
        } else {
            d.plus(d.times(e.minus(f)).over(Expr::Int(51).over(Expr::Int(2))))
        },
        H::T => d.minus(d.times(f).over(Expr::Int(30))),
        H::E => Expr::Int(0),
    }
}

/// The numeric input that keeps the second stage from a value: the first,
/// in the order `d`, `e`, `f`, that is needed and absent. `d` is needed
/// whatever the outcome is, `e` and `f` where the formula reads them.
pub open spec fn first_missing(h: H, p: Params, case: Case) -> Option<Field> {
    if p.d is None {
        Some(Field::D)
    } else if needs_e(h, case) && p.e is None {
        Some(Field::E)
    } else if needs_f(h, case) && p.f is None {
        Some(Field::F)
    } else {
        None
    }
}

/// The failure that names `field`.
pub open spec fn missing(field: Field) -> Result<Output, EvaluationError> {
    Err(EvaluationError::MissingField(field))
}

/// What the second stage yields for outcome `h`, record `p` and rule set
/// `case`: the failure that names the first missing input, and where none
/// is missing, `h` itself with the value that [`spec_value`] gives.
pub open spec fn spec_output(h: H, p: Params, case: Case) -> Result<Output, EvaluationError> {
    match first_missing(h, p, case) {
        Some(field) => missing(field),
        None => Ok(
            Output {
                h,
                k: spec_value(
                    h,
                    case,
                    p.d->0,
                    if needs_e(h, case) { p.e->0 } else { 0 },
                    if needs_f(h, case) { p.f->0 } else { 0 },
                ),
            },
        ),
    }
}

/// The outcome of the record `p`: what the dispatch table gives for its
/// flags under the rule set that it selects.
pub open spec fn spec_outcome(p: Params) -> H {
    spec_classify(p.a, p.b, p.c, p.rule_set())
}

/// What an evaluation of the record `p` yields: the second stage for the
/// outcome of the record.
pub open spec fn spec_compute(p: Params) -> Result<Output, EvaluationError> {
    spec_output(spec_outcome(p), p, p.rule_set())
}

/// The second stage: the value for an outcome that is already known.
///
/// Fails exactly when a numeric input that is needed is absent, and then
/// names the first such input in the order `d`, `e`, `f`; `d` is needed
/// for every outcome, `H::E` included. On success the result carries `h`
/// unchanged, and as value the expression of the formula for `h` and
/// `case`, or zero for `H::E`.
pub fn output(h: H, p: &Params, case: Case) -> (r: Result<Output, EvaluationError>)
    ensures
        r == spec_output(h, *p, case),
        r is Ok <==> first_missing(h, *p, case) is None,
        r is Ok ==> r->Ok_0.h == h,
        p.d is None ==> r == missing(Field::D),
        p.d is Some && needs_e(h, case) && p.e is None ==> r == missing(Field::E),
        p.d is Some && (needs_e(h, case) ==> p.e is Some) && needs_f(h, case) && p.f is None
            ==> r == missing(Field::F),
{
    let d = match p.d {
        Some(d) => d,
        None => {
            return Err(EvaluationError::MissingField(Field::D));
        },
    };
    match h {
        H::M => {
            let e = match p.e {
                Some(e) => e,
                None => {
                    return Err(EvaluationError::MissingField(Field::E));
                },
            };
            let k = match case {
                Case::C2 => {
                    let f = match p.f {
                        Some(f) => f,
                        None => {
                            return Err(EvaluationError::MissingField(Field::F));
                        },
                    };
                    let lead = Expr::Int(f).plus(Expr::Bits(d));
                    lead.plus(Expr::Bits(d).times(Expr::Int(e)).over(Expr::Int(100)))
                },
                _ => Expr::Bits(d).plus(Expr::Bits(d).times(Expr::Int(e)).over(Expr::Int(10))),
            };
            Ok(Output { h: H::M, k })
        },
        H::P => {
            let e = match p.e {
                Some(e) => e,
                None => {
                    return Err(EvaluationError::MissingField(Field::E));
                },
            };
            let k = match case {
                Case::C1 => {
                    let lead = Expr::Int(2).times(Expr::Bits(d));
                    lead.plus(Expr::Bits(d).times(Expr::Int(e)).over(Expr::Int(100)))
                },
                _ => {
                    let f = match p.f {
                        Some(f) => f,
                        None => {
                            return Err(EvaluationError::MissingField(Field::F));
                        },
                    };
                    let spread = Expr::Int(e).minus(Expr::Int(f));
                    let divisor = Expr::Int(51).over(Expr::Int(2));
                    Expr::Bits(d).plus(Expr::Bits(d).times(spread).over(divisor))
                },
            };
            Ok(Output { h: H::P, k })
        },
        H::T => {
            let f = match p.f {
                Some(f) => f,
                None => {
                    return Err(EvaluationError::MissingField(Field::F));
                },
            };
            let k = Expr::Bits(d).minus(Expr::Bits(d).times(Expr::Int(f)).over(Expr::Int(30)));
            Ok(Output { h: H::T, k })
        },
        H::E => Ok(Output { h: H::E, k: Expr::Int(0) }),
    }
}

/// Evaluates the record `p`: classifies its three flags under the rule
/// set that it selects, the base rules where it names none, and computes
/// the value for the outcome.
///
/// The outcome in the result is the one that the dispatch table gives; it
/// is never replaced by another. An absent `d` fails the evaluation
/// whatever the flags are. With `d` present, flags that no rule covers
/// are no failure: the result is then `H::E` with the value zero, and `e`
/// and `f` are not looked at.
pub fn compute(p: &Params) -> (r: Result<Output, EvaluationError>)
    ensures
        r == spec_compute(*p),
        r is Ok <==> first_missing(spec_outcome(*p), *p, p.rule_set()) is None,
        r is Ok ==> r->Ok_0.h == spec_outcome(*p),
        p.d is None ==> r == missing(Field::D),
        p.d is Some && needs_e(spec_outcome(*p), p.rule_set()) && p.e is None ==> r == missing(
            Field::E,
        ),
        p.d is Some && (needs_e(spec_outcome(*p), p.rule_set()) ==> p.e is Some) && needs_f(
            spec_outcome(*p),
            p.rule_set(),
        ) && p.f is None ==> r == missing(Field::F),
        p.d is Some && (p.a is None || p.b is None || p.c is None) ==> r == Ok::<
            Output,
            EvaluationError,
        >(Output { h: H::E, k: Expr::Int(0) }),
{
    let case = p.rule_set();
    let h = classify(p.a, p.b, p.c, case);
    output(h, p, case)
}

} // verus!
