//! Laws that relate several evaluations, or an evaluation and its answer.

use vstd::prelude::*;
use crate::evaluate::{needs_e, needs_f, spec_compute, spec_outcome, spec_output, spec_value};
use crate::reply::{missing_text, spec_answer, NO_D, NO_E, NO_F, UNSUPPORTED};
use crate::types::{Case, Field, Params, H};

verus! {

/// A record that names no rule set is treated in every respect as the
/// same record naming the base rules: it has the same outcome, the same
/// evaluation and the same answer.
pub proof fn lemma_absent_rule_set_is_base(p: Params)
    requires
        p.case is None,
    ensures
        ({
            let q = Params { case: Some(Case::B), ..p };
            &&& p.rule_set() == q.rule_set()
            &&& spec_outcome(p) == spec_outcome(q)
            &&& spec_compute(p) == spec_compute(q)
            &&& spec_answer(spec_compute(p)) == spec_answer(spec_compute(q))
        }),
{
}

/// The second stage depends on the record through `d`, `e` and `f` alone:
/// two records that agree on these three give, for the same outcome and
/// rule set, the same result, be it a value or a missing input.
pub proof fn lemma_output_reads_operands_only(h: H, case: Case, p: Params, q: Params)
    requires
        p.d == q.d,
        p.e == q.e,
        p.f == q.f,
    ensures
        spec_output(h, p, case) == spec_output(h, q, case),
{
}

/// An evaluation is determined by the outcome, the rule set and the three
/// numeric inputs: two records with the same outcome under the same rule
/// set, and the same `d`, `e` and `f`, evaluate alike, whatever their
/// flags are.
pub proof fn lemma_compute_is_determined(p: Params, q: Params)
    requires
        spec_outcome(p) == spec_outcome(q),
        p.rule_set() == q.rule_set(),
        p.d == q.d,
        p.e == q.e,
        p.f == q.f,
    ensures
        spec_compute(p) == spec_compute(q),
{
}

/// The value depends on exactly the operands that the formula for `h` and
/// `case` reads: changing one that it reads changes the value, and one
/// that it does not read has no influence.
pub proof fn lemma_value_reads_what_it_needs(
    h: H,
    case: Case,
    d: u64,
    e1: i32,
    f1: i32,
    e2: i32,
    f2: i32,
)
    ensures
        spec_value(h, case, d, e1, f1) == spec_value(h, case, d, e2, f2) <==> (needs_e(h, case)
            ==> e1 == e2) && (needs_f(h, case) ==> f1 == f2),
{
}

/// Reading back the tag of an outcome gives that outcome, and only the
/// tag of an outcome reads back as it: no two outcomes share a tag.
pub proof fn lemma_tag_round_trip(h: H, s: Seq<char>)
    ensures
        H::spec_from_tag(h.spec_tag()) == Some(h),
        H::spec_from_tag(s) == Some(h) <==> s == h.spec_tag(),
{
    // The four tags differ in their one letter.
    assert(seq!['M'][0] == 'M');
    assert(seq!['P'][0] == 'P');
    assert(seq!['T'][0] == 'T');
    assert(seq!['E'][0] == 'E');
}

/// The message of a rejection tells what was wrong: the one for flags
/// that no rule covers differs from the one for a missing input, and the
/// messages for two different inputs differ.
pub proof fn lemma_messages_are_distinct(x: Field, y: Field)
    ensures
        UNSUPPORTED@ != missing_text(x),
        missing_text(x) == missing_text(y) ==> x == y,
{
    reveal_strlit("Wrong params: set of parameters is not supported");
    reveal_strlit("Wrong params: no D param");
    reveal_strlit("Wrong params: no E param");
    reveal_strlit("Wrong params: no F param");
    assert(UNSUPPORTED@.len() != NO_D@.len());
    assert(NO_D@[17] == 'D' && NO_E@[17] == 'E' && NO_F@[17] == 'F');
}

} // verus!
