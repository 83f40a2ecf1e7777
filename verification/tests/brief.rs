use fujin::{packet_from_brief, PlanBrief};

#[test]
fn brief_fields_are_preserved_in_packet() {
    let packet = packet_from_brief(&PlanBrief {
        goal: "Ship storage".into(),
        daruma_target: "one task".into(),
        in_scope: vec!["persist artifacts".into()],
        why_now: "avoid data loss".into(),
        decisions_made: vec!["dec_1".into()],
        ..PlanBrief::default()
    });
    assert_eq!(packet.goal, "Ship storage");
    assert_eq!(packet.do_items, ["persist artifacts"]);
    assert_eq!(packet.why, "avoid data loss");
    assert_eq!(packet.linked_decisions[0].id, "dec_1");
}

#[test]
fn brief_artifacts_become_addressed_documents() {
    let packet = packet_from_brief(&PlanBrief {
        required_artifacts: vec!["design.md".into(), "plan".into()],
        knowledge_base: vec!["kn_9".into()],
        rejected_alternatives: vec!["rej_3".into()],
        out_of_scope: vec!["no rewrite".into()],
        ..PlanBrief::default()
    });
    assert_eq!(packet.required_documents.len(), 2);
    assert_eq!(packet.required_documents[0].title, "design.md");
    assert_eq!(packet.required_documents[0].uri, "artifact://design.md");
    assert_eq!(packet.required_documents[1].uri, "artifact://plan");
    assert_eq!(packet.linked_knowledge[0].id, "kn_9");
    assert_eq!(packet.linked_knowledge[0].label, "kn_9");
    assert_eq!(packet.linked_rejected[0].label, "rej_3");
    assert_eq!(packet.do_not, ["no rewrite"]);
    assert!(packet.expected_artifacts.is_empty());
    assert!(packet.before_start.is_empty());
    assert!(packet.target_files.is_empty());
    assert_eq!(packet.reviewer_profile, None);
}
