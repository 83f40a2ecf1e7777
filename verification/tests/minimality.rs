#![allow(non_snake_case)]

use fujin::{
    check_minimality, CodeActionMinimality, DebtMarker, DependencyJustification, EvidenceCheck,
    MinimalityCheck, MinimalityPolicy, MinimalityVerdict, ProtectedRequirements,
    M2_NO_MINIMALITY_CHECK, M3_NEW_DEP_UNJUSTIFIED, M4_PROTECTED_REQUIREMENT_CUT,
    M5_NONTRIVIAL_NO_EVIDENCE, M6_DEBT_MARKER_NO_CEILING, W1_DEBT_MARKER_NO_UPGRADE_TRIGGER,
    W2_NEED_NOT_ESTABLISHED,
};

fn valid_minimality() -> CodeActionMinimality {
    CodeActionMinimality {
        policy: MinimalityPolicy::Enforced,
        is_nontrivial: true,
        check: Some(MinimalityCheck {
            need_exists: true,
            deletion_possible: false,
            stdlib_candidate: None,
            native_candidate: None,
            installed_dependency_candidate: None,
            new_dependency_required: false,
            new_dependency_reason: None,
            one_line_possible: false,
            chosen_smallest_working_approach: "small direct implementation".into(),
        }),
        protected: Some(ProtectedRequirements {
            validation: true,
            data_loss_handling: true,
            security: true,
            accessibility: true,
            explicit_user_requirements: true,
        }),
        dependency_justifications: Vec::new(),
        debt_markers: vec![DebtMarker {
            id: "shortcut-1".into(),
            ceiling: "fine under 1k records".into(),
            upgrade_trigger: Some("add index past 1k records".into()),
        }],
        evidence: Some(EvidenceCheck {
            required_check: "cargo test -p mcpbox-pipeline".into(),
            why_sufficient: "covers the validator branch table".into(),
        }),
    }
}

#[test]
fn passed_when_all_good_enforced() {
    assert_eq!(
        check_minimality(&valid_minimality()),
        MinimalityVerdict::Passed
    );
}

#[test]
fn advisory_never_blocks() {
    let mut input = valid_minimality();
    input.policy = MinimalityPolicy::Advisory;
    input.check = None;

    assert_eq!(
        check_minimality(&input),
        MinimalityVerdict::Warning {
            notes: vec![M2_NO_MINIMALITY_CHECK.into()]
        }
    );
}

#[test]
fn blocked_M2_missing_check_enforced() {
    let mut input = valid_minimality();
    input.check = None;

    assert_eq!(
        check_minimality(&input),
        MinimalityVerdict::Blocked {
            failed: vec![M2_NO_MINIMALITY_CHECK.into()]
        }
    );
}

#[test]
fn blocked_M3_new_dep_without_justification() {
    let mut input = valid_minimality();
    input.check.as_mut().unwrap().new_dependency_required = true;
    input.check.as_mut().unwrap().new_dependency_reason = Some("needed for parsing".into());

    assert_eq!(
        check_minimality(&input),
        MinimalityVerdict::Blocked {
            failed: vec![M3_NEW_DEP_UNJUSTIFIED.into()]
        }
    );
}

#[test]
fn blocked_M4_protected_requirement_cut() {
    let mut input = valid_minimality();
    input.protected.as_mut().unwrap().security = false;

    assert_eq!(
        check_minimality(&input),
        MinimalityVerdict::Blocked {
            failed: vec![M4_PROTECTED_REQUIREMENT_CUT.into()]
        }
    );
}

#[test]
fn blocked_M5_nontrivial_without_evidence() {
    let mut input = valid_minimality();
    input.evidence = None;

    assert_eq!(
        check_minimality(&input),
        MinimalityVerdict::Blocked {
            failed: vec![M5_NONTRIVIAL_NO_EVIDENCE.into()]
        }
    );
}

#[test]
fn blocked_M6_debt_marker_empty_ceiling() {
    let mut input = valid_minimality();
    input.debt_markers[0].ceiling.clear();

    assert_eq!(
        check_minimality(&input),
        MinimalityVerdict::Blocked {
            failed: vec![M6_DEBT_MARKER_NO_CEILING.into()]
        }
    );
}

#[test]
fn warning_W1_debt_marker_without_upgrade_trigger() {
    let mut input = valid_minimality();
    input.debt_markers[0].upgrade_trigger = None;

    assert_eq!(
        check_minimality(&input),
        MinimalityVerdict::Warning {
            notes: vec![W1_DEBT_MARKER_NO_UPGRADE_TRIGGER.into()]
        }
    );
}

#[test]
fn off_policy_always_passed() {
    let mut input = valid_minimality();
    input.policy = MinimalityPolicy::Off;
    input.check = None;
    input.protected = None;
    input.evidence = None;
    input.debt_markers[0].ceiling.clear();

    assert_eq!(check_minimality(&input), MinimalityVerdict::Passed);
}

// ── Further cases ────────────────────────────────────────────────────────────

fn everything_wrong() -> CodeActionMinimality {
    let mut input = valid_minimality();
    input.check = None;
    input.protected = None;
    input.evidence = Some(EvidenceCheck {
        required_check: "  ".into(),
        why_sufficient: "".into(),
    });
    input.debt_markers[0].ceiling = "\t".into();
    input.debt_markers[0].upgrade_trigger = Some(" ".into());
    input
}

#[test]
fn enforced_lists_every_hard_failure_in_canonical_order() {
    assert_eq!(
        check_minimality(&everything_wrong()),
        MinimalityVerdict::Blocked {
            failed: vec![
                M2_NO_MINIMALITY_CHECK.into(),
                M4_PROTECTED_REQUIREMENT_CUT.into(),
                M5_NONTRIVIAL_NO_EVIDENCE.into(),
                M6_DEBT_MARKER_NO_CEILING.into(),
            ]
        }
    );
}

#[test]
fn strict_judges_like_enforced() {
    let mut input = everything_wrong();
    input.policy = MinimalityPolicy::Strict;
    let mut enforced = everything_wrong();
    enforced.policy = MinimalityPolicy::Enforced;
    assert_eq!(check_minimality(&input), check_minimality(&enforced));
}

#[test]
fn advisory_reports_hard_then_soft_codes() {
    let mut input = everything_wrong();
    input.policy = MinimalityPolicy::Advisory;
    assert_eq!(
        check_minimality(&input),
        MinimalityVerdict::Warning {
            notes: vec![
                M2_NO_MINIMALITY_CHECK.into(),
                M4_PROTECTED_REQUIREMENT_CUT.into(),
                M5_NONTRIVIAL_NO_EVIDENCE.into(),
                M6_DEBT_MARKER_NO_CEILING.into(),
                W1_DEBT_MARKER_NO_UPGRADE_TRIGGER.into(),
            ]
        }
    );
}

#[test]
fn warning_W2_need_not_established() {
    let mut input = valid_minimality();
    input.check.as_mut().unwrap().need_exists = false;
    assert_eq!(
        check_minimality(&input),
        MinimalityVerdict::Warning {
            notes: vec![W2_NEED_NOT_ESTABLISHED.into()]
        }
    );
}

#[test]
fn justified_new_dependency_passes() {
    let mut input = valid_minimality();
    input.check.as_mut().unwrap().new_dependency_required = true;
    input.check.as_mut().unwrap().new_dependency_reason = Some("needed for parsing".into());
    input.dependency_justifications = vec![
        DependencyJustification {
            dependency: " ".into(),
            reason: "blank name does not count".into(),
        },
        DependencyJustification {
            dependency: "nom".into(),
            reason: "parser combinators".into(),
        },
    ];
    assert_eq!(check_minimality(&input), MinimalityVerdict::Passed);
}

#[test]
fn new_dependency_without_reason_is_blocked() {
    let mut input = valid_minimality();
    input.check.as_mut().unwrap().new_dependency_required = true;
    input.dependency_justifications = vec![DependencyJustification {
        dependency: "nom".into(),
        reason: "parser combinators".into(),
    }];
    assert_eq!(
        check_minimality(&input),
        MinimalityVerdict::Blocked {
            failed: vec![M3_NEW_DEP_UNJUSTIFIED.into()]
        }
    );
}

#[test]
fn trivial_work_needs_no_evidence() {
    let mut input = valid_minimality();
    input.is_nontrivial = false;
    input.evidence = None;
    assert_eq!(check_minimality(&input), MinimalityVerdict::Passed);
}

#[test]
fn blocked_hides_soft_warnings() {
    let mut input = valid_minimality();
    input.protected = None;
    input.debt_markers[0].upgrade_trigger = None;
    assert_eq!(
        check_minimality(&input),
        MinimalityVerdict::Blocked {
            failed: vec![M4_PROTECTED_REQUIREMENT_CUT.into()]
        }
    );
}
