use fujin::{assess, ActionPacket, Gate, LinkedItem, Maturity, RequiredDocument};

/// A packet with every §13 field filled.
fn full_packet() -> ActionPacket {
    let item = |s: &str| LinkedItem {
        id: s.to_string(),
        label: s.to_string(),
    };
    ActionPacket {
        goal: "Ship the maturity gate".into(),
        context: "Wave-2b Actions layer".into(),
        do_items: vec!["implement assess()".into()],
        why: "Only mature packets may reach Daruma".into(),
        do_not: vec!["do not call any model".into()],
        completion_criteria: vec!["cargo test green".into()],
        constraints: vec!["no ai-infra dependency".into()],
        risks: vec!["field drift vs §13".into()],
        dependencies: vec!["domain crate".into()],
        required_documents: vec![RequiredDocument {
            title: "manifest §13".into(),
            uri: "docs/the host/manifest.md".into(),
        }],
        linked_decisions: vec![item("dec-1")],
        linked_knowledge: vec![item("kn-1")],
        linked_rejected: vec![item("rej-1")],
        expected_artifacts: vec!["fujin crate".into()],
        before_start: vec![Gate {
            rule: "charter read".into(),
        }],
        before_complete: vec![Gate {
            rule: "tests pass".into(),
        }],
        ..ActionPacket::default()
    }
}

const FIELDS: [&str; 16] = [
    "goal",
    "context",
    "do_items",
    "why",
    "do_not",
    "completion_criteria",
    "constraints",
    "risks",
    "dependencies",
    "required_documents",
    "linked_decisions",
    "linked_knowledge",
    "linked_rejected",
    "expected_artifacts",
    "before_start",
    "before_complete",
];

#[test]
fn full_packet_is_ready() {
    assert_eq!(assess(&full_packet()), Maturity::Ready);
}

#[test]
fn empty_packet_lists_every_missing_field() {
    match assess(&ActionPacket::default()) {
        Maturity::NotReady { missing } => {
            assert_eq!(
                missing,
                vec![
                    "goal",
                    "context",
                    "do_items",
                    "why",
                    "do_not",
                    "completion_criteria",
                    "constraints",
                    "risks",
                    "dependencies",
                    "required_documents",
                    "linked_decisions",
                    "linked_knowledge",
                    "linked_rejected",
                    "expected_artifacts",
                    "before_start",
                    "before_complete",
                ]
            );
        }
        Maturity::Ready => panic!("empty packet must not be ready"),
    }
}

#[test]
fn blank_string_field_is_not_present() {
    let mut p = full_packet();
    p.goal = "   ".into();
    assert_eq!(
        assess(&p),
        Maturity::NotReady {
            missing: vec!["goal".to_string()]
        }
    );
}

#[test]
fn blank_item_in_string_list_is_not_present() {
    let mut p = full_packet();
    p.do_items = vec!["   ".into()];
    assert_eq!(
        assess(&p),
        Maturity::NotReady {
            missing: vec!["do_items".to_string()]
        }
    );
}

#[test]
fn blank_gate_rule_is_not_present() {
    let mut p = full_packet();
    p.before_start = vec![Gate { rule: "".into() }];
    assert_eq!(
        assess(&p),
        Maturity::NotReady {
            missing: vec!["before_start".to_string()]
        }
    );
}

#[test]
fn blank_required_document_uri_is_not_present() {
    let mut p = full_packet();
    p.required_documents = vec![RequiredDocument {
        title: "manifest §13".into(),
        uri: "  ".into(),
    }];
    assert_eq!(
        assess(&p),
        Maturity::NotReady {
            missing: vec!["required_documents".to_string()]
        }
    );
}

#[test]
fn assessment_is_deterministic() {
    let p = full_packet();
    assert_eq!(assess(&p), assess(&p));
}

fn clear_field(field: &str) -> ActionPacket {
    let mut p = full_packet();
    match field {
        "goal" => p.goal = String::new(),
        "context" => p.context = String::new(),
        "do_items" => p.do_items.clear(),
        "why" => p.why = String::new(),
        "do_not" => p.do_not.clear(),
        "completion_criteria" => p.completion_criteria.clear(),
        "constraints" => p.constraints.clear(),
        "risks" => p.risks.clear(),
        "dependencies" => p.dependencies.clear(),
        "required_documents" => p.required_documents.clear(),
        "linked_decisions" => p.linked_decisions.clear(),
        "linked_knowledge" => p.linked_knowledge.clear(),
        "linked_rejected" => p.linked_rejected.clear(),
        "expected_artifacts" => p.expected_artifacts.clear(),
        "before_start" => p.before_start.clear(),
        "before_complete" => p.before_complete.clear(),
        other => panic!("unknown field: {other}"),
    }
    p
}

#[test]
fn each_missing_field_produces_not_ready_with_that_field_name() {
    for field in FIELDS {
        let p = clear_field(field);
        match assess(&p) {
            Maturity::NotReady { missing } => {
                assert!(
                    missing.contains(&field.to_string()),
                    "field `{field}` cleared but not listed in missing; got: {missing:?}"
                );
                assert_eq!(
                    missing.len(),
                    1,
                    "expected only `{field}` in missing but got: {missing:?}"
                );
            }
            Maturity::Ready => {
                panic!("clearing `{field}` should yield NotReady but got Ready");
            }
        }
    }
}

// ── Further cases ────────────────────────────────────────────────────────────

#[test]
fn unicode_whitespace_is_blank() {
    let mut p = full_packet();
    // NO-BREAK SPACE, EM SPACE, IDEOGRAPHIC SPACE, tab and newline.
    p.why = "\u{a0}\u{2003}\u{3000}\t\n".into();
    assert_eq!(
        assess(&p),
        Maturity::NotReady {
            missing: vec!["why".to_string()]
        }
    );
}

#[test]
fn zero_width_space_is_not_whitespace() {
    // U+200B has no White_Space property, so `trim` keeps it.
    let mut p = full_packet();
    p.why = "\u{200b}".into();
    assert_eq!(assess(&p), Maturity::Ready);
}

#[test]
fn blank_link_label_is_not_present() {
    let mut p = full_packet();
    p.linked_knowledge = vec![LinkedItem {
        id: "kn-1".into(),
        label: " ".into(),
    }];
    assert_eq!(
        assess(&p),
        Maturity::NotReady {
            missing: vec!["linked_knowledge".to_string()]
        }
    );
}

#[test]
fn one_blank_entry_among_filled_ones_fails_the_field() {
    let mut p = full_packet();
    p.risks = vec!["drift".into(), "".into()];
    p.context = "".into();
    assert_eq!(
        assess(&p),
        Maturity::NotReady {
            missing: vec!["context".to_string(), "risks".to_string()]
        }
    );
}

#[test]
fn envelope_is_not_part_of_maturity() {
    let p = full_packet();
    assert!(p.target_files.is_empty());
    assert_eq!(p.conflict_policy, None);
    assert!(assess(&p).is_ready());
    assert!(!assess(&ActionPacket::default()).is_ready());
}
