use fujin::{
    into_new_plan, to_handoff, ActionPacket, ActionsError, Actor, ActorKind, Gate, HandoffProject,
    LinkedItem, ProjectId, RequiredDocument, TaskCandidate,
};

/// A fresh time-ordered project id, minted as the host mints them.
fn fresh_project_id() -> ProjectId {
    ProjectId::from_u128(uuid::Uuid::now_v7().as_u128())
}

fn mature_packet() -> ActionPacket {
    let item = |s: &str| LinkedItem {
        id: s.into(),
        label: s.into(),
    };
    ActionPacket {
        goal: "g".into(),
        context: "c".into(),
        do_items: vec!["d".into()],
        why: "w".into(),
        do_not: vec!["n".into()],
        completion_criteria: vec!["cc".into()],
        constraints: vec!["co".into()],
        risks: vec!["r".into()],
        dependencies: vec!["dep".into()],
        required_documents: vec![RequiredDocument {
            title: "t".into(),
            uri: "u".into(),
        }],
        linked_decisions: vec![item("dec")],
        linked_knowledge: vec![item("kn")],
        linked_rejected: vec![item("rej")],
        expected_artifacts: vec!["a".into()],
        before_start: vec![Gate { rule: "bs".into() }],
        before_complete: vec![Gate { rule: "bc".into() }],
        ..ActionPacket::default()
    }
}

#[test]
fn immature_packet_is_refused() {
    let err = to_handoff(&ActionPacket::default(), vec![]).unwrap_err();
    assert!(matches!(err, ActionsError::Validation(_)));
}

#[test]
fn mature_packet_with_zero_projects_is_valid() {
    let h = to_handoff(&mature_packet(), vec![]).unwrap();
    assert!(h.projects.is_empty());
}

#[test]
fn brief_plus_execution_gates_hands_off_to_new_plan() {
    let mut packet = mature_packet();
    packet.goal = "Ship the Planning→Actions seam".into();
    packet.context = "fujin project".into();
    packet.why = "Wave-2 wires the pipeline".into();
    packet.do_items = vec!["packet.rs refactor".into()];
    packet.constraints = vec!["no ai-infra in Actions".into()];
    packet.linked_knowledge = vec![LinkedItem {
        id: "kn_1".into(),
        label: "kn_1".into(),
    }];
    packet.linked_rejected = vec![LinkedItem {
        id: "rej_1".into(),
        label: "rej_1".into(),
    }];
    packet.linked_decisions = vec![
        LinkedItem {
            id: "dec_aaaa".into(),
            label: "dec_aaaa".into(),
        },
        LinkedItem {
            id: "dec_bbbb".into(),
            label: "dec_bbbb".into(),
        },
    ];
    packet.expected_artifacts = vec!["from_brief() + tests".into()];
    packet.before_start = vec![Gate {
        rule: "brief is ready".into(),
    }];
    packet.before_complete = vec![Gate {
        rule: "cargo test green".into(),
    }];

    let ids: Vec<&str> = packet.linked_decisions.iter().map(|l| l.id.as_str()).collect();
    assert_eq!(ids, vec!["dec_aaaa", "dec_bbbb"]);

    let project = HandoffProject {
        project_title: "fujin".into(),
        plan_title: "Wire the seam".into(),
        goal: packet.goal.clone(),
        success_criteria: packet.completion_criteria.clone(),
        tasks: vec![TaskCandidate {
            title: "implement from_brief".into(),
            description: "map §15 → §13, keep lineage".into(),
        }],
        ..HandoffProject::default()
    };
    let handoff = to_handoff(&packet, vec![project]).expect("mature packet hands off");
    assert_eq!(handoff.projects.len(), 1);

    let lowered = into_new_plan(&handoff.projects[0], fresh_project_id(), Actor::user());
    assert_eq!(
        lowered.plan.goal.as_deref(),
        Some("Ship the Planning→Actions seam")
    );
    assert_eq!(lowered.tasks.len(), 1);
    assert_eq!(lowered.tasks[0].title, "implement from_brief");
}

#[test]
fn project_lowers_onto_core_contract() {
    let project = HandoffProject {
        project_title: "Core".into(),
        plan_title: "Build it".into(),
        goal: "ship".into(),
        success_criteria: vec!["green".into()],
        tasks: vec![TaskCandidate {
            title: "task A".into(),
            description: "do A".into(),
        }],
        ..HandoffProject::default()
    };
    let pid = fresh_project_id();
    let lowered = into_new_plan(&project, pid, Actor::user());
    assert_eq!(lowered.plan.goal.as_deref(), Some("ship"));
    assert_eq!(lowered.plan.success_criteria, Some(vec!["green".into()]));
    assert_eq!(lowered.tasks.len(), 1);
    assert_eq!(lowered.tasks[0].title, "task A");
    assert_eq!(lowered.tasks[0].project_id, Some(pid));
}

// ── Further cases ────────────────────────────────────────────────────────────

#[test]
fn refusal_names_the_missing_fields_in_order() {
    let mut packet = mature_packet();
    packet.goal = " ".into();
    packet.before_complete.clear();
    let err = to_handoff(&packet, vec![]).unwrap_err();
    assert_eq!(
        err,
        ActionsError::Validation(
            "action packet is not mature; missing §13 fields: goal, before_complete".into()
        )
    );
    assert_eq!(
        err.to_message(),
        "validation: action packet is not mature; missing §13 fields: goal, before_complete"
    );
}

#[test]
fn handoff_keeps_projects_in_order() {
    let a = HandoffProject {
        project_title: "A".into(),
        ..HandoffProject::default()
    };
    let b = HandoffProject {
        project_title: "B".into(),
        ..HandoffProject::default()
    };
    let h = to_handoff(&mature_packet(), vec![a.clone(), b.clone()]).unwrap();
    assert_eq!(h.projects, vec![a, b]);
}

#[test]
fn lowering_carries_provenance_and_owner() {
    let link = |s: &str| LinkedItem {
        id: s.into(),
        label: format!("label {s}"),
    };
    let project = HandoffProject {
        project_title: "P".into(),
        plan_title: "Plan".into(),
        goal: "g".into(),
        success_criteria: vec![],
        tasks: vec![
            TaskCandidate {
                title: "one".into(),
                description: "first".into(),
            },
            TaskCandidate {
                title: "two".into(),
                description: "second".into(),
            },
        ],
        linked_decisions: vec![link("dec_1")],
        linked_knowledge: vec![link("kn_1"), link("kn_2")],
        linked_rejected: vec![link("rej_1")],
    };
    let pid = ProjectId::from_u128(42);
    let owner = Actor::agent("agent-7".to_string());
    let lowered = into_new_plan(&project, pid, owner.clone());
    assert_eq!(lowered.plan.title, "Plan");
    assert_eq!(lowered.plan.project_id, pid);
    assert_eq!(lowered.plan.owner, owner);
    assert_eq!(lowered.plan.owner.kind, ActorKind::Agent);
    assert_eq!(lowered.plan.success_criteria, Some(vec![]));
    assert_eq!(lowered.plan.linked_decisions, project.linked_decisions);
    assert_eq!(lowered.plan.linked_knowledge, project.linked_knowledge);
    assert_eq!(lowered.plan.linked_rejected, project.linked_rejected);
    assert_eq!(lowered.tasks.len(), 2);
    assert_eq!(lowered.tasks[1].title, "two");
    assert_eq!(lowered.tasks[1].description.as_deref(), Some("second"));
    assert_eq!(lowered.tasks[1].project_id, Some(pid));
}

#[test]
fn project_id_keeps_its_value() {
    let a = fresh_project_id();
    let b = fresh_project_id();
    assert_eq!((a.as_u128() >> 76) & 0xf, 7);
    assert_ne!(a, b);
    assert_eq!(ProjectId::from_u128(a.as_u128()), a);
    assert_eq!(ProjectId::from_u128(42).as_u128(), 42);
}

#[test]
fn user_actor_is_named_user() {
    let u = Actor::user();
    assert_eq!(u.kind, ActorKind::User);
    assert_eq!(u.id, "user");
}
