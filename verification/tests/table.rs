//! The dispatch table, row by row and as a whole.

use decision_table::{classify, compute, Case, Params, H};

const FLAGS: [Option<bool>; 3] = [None, Some(false), Some(true)];

const RULE_SETS: [Case; 3] = [Case::B, Case::C1, Case::C2];

/// The table, written out once more: what each combination is expected
/// to give.
fn expected(a: Option<bool>, b: Option<bool>, c: Option<bool>, case: Case) -> H {
    match (a, b, c, case) {
        (Some(true), Some(true), Some(false), _) => H::M,
        (Some(true), Some(false), Some(true), Case::C2) => H::M,
        (Some(true), Some(true), Some(true), _) => H::P,
        (Some(false), Some(true), Some(true), _) => H::T,
        _ => H::E,
    }
}

#[test]
fn rows_of_the_base_rules() {
    assert_eq!(classify(Some(true), Some(true), Some(false), Case::B), H::M);
    assert_eq!(classify(Some(true), Some(true), Some(true), Case::B), H::P);
    assert_eq!(classify(Some(false), Some(true), Some(true), Case::B), H::T);
    assert_eq!(classify(Some(true), Some(false), Some(true), Case::B), H::E);
}

#[test]
fn rows_of_the_first_custom_set() {
    assert_eq!(classify(Some(true), Some(true), Some(false), Case::C1), H::M);
    assert_eq!(classify(Some(true), Some(true), Some(true), Case::C1), H::P);
    assert_eq!(classify(Some(false), Some(true), Some(true), Case::C1), H::T);
    assert_eq!(classify(Some(true), Some(false), Some(true), Case::C1), H::E);
}

#[test]
fn rows_of_the_second_custom_set() {
    assert_eq!(classify(Some(true), Some(true), Some(false), Case::C2), H::M);
    assert_eq!(classify(Some(true), Some(false), Some(true), Case::C2), H::M);
    assert_eq!(classify(Some(true), Some(true), Some(true), Case::C2), H::P);
    assert_eq!(classify(Some(false), Some(true), Some(true), Case::C2), H::T);
}

#[test]
fn every_combination_matches_the_table() {
    let mut seen = 0;
    for a in FLAGS {
        for b in FLAGS {
            for c in FLAGS {
                for case in RULE_SETS {
                    assert_eq!(classify(a, b, c, case), expected(a, b, c, case));
                    seen += 1;
                }
            }
        }
    }
    assert_eq!(seen, 81);
}

#[test]
fn an_absent_flag_gives_e_under_every_rule_set() {
    for x in FLAGS {
        for y in FLAGS {
            for case in RULE_SETS {
                assert_eq!(classify(None, x, y, case), H::E);
                assert_eq!(classify(x, None, y, case), H::E);
                assert_eq!(classify(x, y, None, case), H::E);
            }
        }
    }
}

#[test]
fn an_absent_flag_is_not_a_false_one() {
    assert_eq!(classify(Some(false), Some(true), Some(true), Case::B), H::T);
    assert_eq!(classify(None, Some(true), Some(true), Case::B), H::E);
    assert_eq!(classify(Some(true), Some(true), Some(false), Case::B), H::M);
    assert_eq!(classify(Some(true), Some(true), None, Case::B), H::E);
    assert_eq!(classify(Some(true), Some(false), Some(true), Case::C2), H::M);
    assert_eq!(classify(Some(true), None, Some(true), Case::C2), H::E);
}

#[test]
fn untabulated_combinations_give_e() {
    for case in RULE_SETS {
        assert_eq!(classify(Some(false), Some(false), Some(false), case), H::E);
        assert_eq!(classify(Some(false), Some(false), Some(true), case), H::E);
        assert_eq!(classify(Some(false), Some(true), Some(false), case), H::E);
        assert_eq!(classify(Some(true), Some(false), Some(false), case), H::E);
    }
}

#[test]
fn compute_reports_the_outcome_of_the_table() {
    for a in FLAGS {
        for b in FLAGS {
            for c in FLAGS {
                for case in RULE_SETS {
                    let p = Params { a, b, c, d: Some(0), e: Some(1), f: Some(1), case: Some(case) };
                    assert_eq!(compute(&p).unwrap().h, expected(a, b, c, case));
                }
            }
        }
    }
}

#[test]
fn an_absent_rule_set_is_the_base_rules() {
    assert_eq!(Params::default().rule_set(), Case::B);
    for a in FLAGS {
        for b in FLAGS {
            for c in FLAGS {
                for d in [None, Some(7u64)] {
                    for e in [None, Some(3)] {
                        for f in [None, Some(-4)] {
                            let absent = Params { a, b, c, d, e, f, case: None };
                            let base = Params { a, b, c, d, e, f, case: Some(Case::B) };
                            assert_eq!(absent.rule_set(), base.rule_set());
                            assert_eq!(compute(&absent), compute(&base));
                        }
                    }
                }
            }
        }
    }
}

#[test]
fn a_named_rule_set_is_the_one_in_force() {
    for case in RULE_SETS {
        let p = Params { case: Some(case), ..Params::default() };
        assert_eq!(p.rule_set(), case);
    }
}
