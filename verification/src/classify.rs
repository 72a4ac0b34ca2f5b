//! The first stage of an evaluation: from the three flags and the rule set
//! to an outcome.

use vstd::prelude::*;
use crate::types::{Case, H};

verus! {

/// The dispatch table. Its rows are the only combinations that give an
/// outcome other than `H::E`; the second row belongs to the rule set `C2`
/// alone, and the other three to every rule set.
///
/// | a     | b     | c     | rule set | outcome |
/// |-------|-------|-------|----------|---------|
/// | true  | true  | false | any      | M       |
/// | true  | false | true  | C2       | M       |
/// | true  | true  | true  | any      | P       |
/// | false | true  | true  | any      | T       |
pub open spec fn spec_classify(
    a: Option<bool>,
    b: Option<bool>,
    c: Option<bool>,
    case: Case,
) -> H {
    if a == Some(true) && b == Some(true) && c == Some(false) {
        H::M
    } else if a == Some(true) && b == Some(false) && c == Some(true) && case == Case::C2 {
        H::M
    } else if a == Some(true) && b == Some(true) && c == Some(true) {
        H::P
    } else if a == Some(false) && b == Some(true) && c == Some(true) {
        H::T
    } else {
        H::E
    }
}

/// Classifies the three flags under the rule set `case`.
///
/// The outcome is the one that the dispatch table gives. An absent flag is
/// not a false one: it matches no row, so the outcome is then `H::E`
/// whatever the rule set. Classification never fails.
pub fn classify(a: Option<bool>, b: Option<bool>, c: Option<bool>, case: Case) -> (h: H)
    ensures
        h == spec_classify(a, b, c, case),
        a is None || b is None || c is None ==> h == H::E,
{
    match case {
        Case::B | Case::C1 => match (a, b, c) {
            (Some(true), Some(true), Some(false)) => H::M,
            (Some(true), Some(true), Some(true)) => H::P,
            (Some(false), Some(true), Some(true)) => H::T,
            (_, _, _) => H::E,
        },
        Case::C2 => match (a, b, c) {
            (Some(true), Some(true), Some(false)) => H::M,
            (Some(true), Some(false), Some(true)) => H::M,
            (Some(true), Some(true), Some(true)) => H::P,
            (Some(false), Some(true), Some(true)) => H::T,
            (_, _, _) => H::E,
        },
    }
}

} // verus!
