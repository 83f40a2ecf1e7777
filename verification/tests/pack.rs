use fujin::pack::{pack_prompt, repair_prompt, transport_rejection};
use fujin::{
    action_packet_arguments, after_arguments, after_parse, after_reply, assess_with, complete_action_packet,
    drop_incomplete_provenance, merge_usage, ActionPacket, ActionsError, AiOutput, AiUsage,
    FujinStrictness, Gate,
    LinkedItem, PackStep, PlanBrief, ProviderReply, RequiredDocument, SensingItem, TargetFiles,
    ToolCall, UpstreamBounds,
};

/// The packet a model would return through `build_action_packet`.
fn generated(required_documents: Vec<RequiredDocument>) -> ActionPacket {
    ActionPacket {
        goal: "Ship the fix".into(),
        context: "pipeline run".into(),
        do_items: vec!["implement".into()],
        why: "half-filled provenance is rejected".into(),
        do_not: vec!["do not invent a uri".into()],
        completion_criteria: vec!["tests green".into()],
        constraints: vec!["no new entities".into()],
        risks: vec!["drift".into()],
        dependencies: vec!["fujin".into()],
        required_documents,
        linked_decisions: vec![],
        linked_knowledge: vec![],
        linked_rejected: vec![],
        expected_artifacts: vec!["packet".into()],
        before_start: vec![Gate {
            rule: "read the brief".into(),
        }],
        before_complete: vec![Gate {
            rule: "tests pass".into(),
        }],
        ..ActionPacket::default()
    }
}

/// Complete a first-attempt packet and put it through the soft maturity
/// check: the packet when it matures, else the reason a repair is asked for.
fn complete_with(packet: ActionPacket, strictness: FujinStrictness) -> Result<ActionPacket, String> {
    let completed = complete_action_packet(
        packet,
        UpstreamBounds::none(),
        &PlanBrief::default(),
        &SensingItem::none(),
        "dec-1",
    );
    match after_parse(false, &None, "{}".into(), Ok(completed), strictness) {
        PackStep::Finish(Ok(packet)) => Ok(packet),
        PackStep::Repair {
            validation_error, ..
        } => Err(validation_error),
        other => panic!("unexpected step {other:?}"),
    }
}

fn complete(packet: ActionPacket) -> Result<ActionPacket, String> {
    complete_with(packet, FujinStrictness::Soft)
}

fn doc(title: &str, uri: &str) -> RequiredDocument {
    RequiredDocument {
        title: title.into(),
        uri: uri.into(),
    }
}

#[test]
fn blank_uri_documents_are_dropped_instead_of_failing_the_gate() {
    let packet = complete(generated(vec![doc("docs/guides/research-lineage.md", "")]))
        .expect("packet with an unaddressable document still matures");
    assert!(packet.required_documents.is_empty());
}

#[test]
fn addressable_documents_survive_the_drop() {
    let packet = complete(generated(vec![
        doc("manifest", "docs/manifest.md"),
        doc("unaddressable", "   "),
    ]))
    .expect("packet matures");
    assert_eq!(packet.required_documents.len(), 1);
    assert_eq!(packet.required_documents[0].uri, "docs/manifest.md");
}

#[test]
fn required_fields_still_fail_the_gate() {
    let mut args = generated(vec![]);
    args.do_items = vec![];
    let error = complete(args).expect_err("an empty required list is still missing");
    assert!(error.contains("do_items"), "unexpected error: {error}");
}

// ── Further cases ────────────────────────────────────────────────────────────

#[test]
fn source_decision_replaces_generated_decisions() {
    let mut args = generated(vec![]);
    args.linked_decisions = vec![LinkedItem {
        id: "ignored".into(),
        label: "ignored".into(),
    }];
    let packet = complete(args).unwrap();
    assert_eq!(
        packet.linked_decisions,
        vec![LinkedItem {
            id: "dec-1".into(),
            label: "dec-1".into()
        }]
    );
}

#[test]
fn missing_provenance_comes_from_sensing_then_brief() {
    let brief = PlanBrief {
        knowledge_base: vec!["kn_brief".into()],
        rejected_alternatives: vec!["rej_brief".into()],
        ..PlanBrief::default()
    };
    let sensing = SensingItem {
        kind: Some("knowledge".into()),
        id: Some("kn_sense".into()),
        body: Some("what was sensed".into()),
    };
    let packet = complete_action_packet(
        generated(vec![]),
        UpstreamBounds::none(),
        &brief,
        &sensing,
        "dec-1",
    );
    assert_eq!(packet.linked_knowledge[0].id, "kn_sense");
    assert_eq!(packet.linked_knowledge[0].label, "what was sensed");
    assert_eq!(packet.linked_rejected[0].id, "rej_brief");

    let not_knowledge = SensingItem {
        kind: Some("signal".into()),
        ..sensing
    };
    let packet = complete_action_packet(
        generated(vec![]),
        UpstreamBounds::none(),
        &brief,
        &not_knowledge,
        "dec-1",
    );
    assert_eq!(packet.linked_knowledge[0].id, "kn_brief");
}

#[test]
fn immature_completion_names_missing_fields() {
    let error = complete(ActionPacket::default()).unwrap_err();
    assert_eq!(
        error,
        "missing or blank fields: goal, context, do_items, why, do_not, completion_criteria, \
         constraints, risks, dependencies, expected_artifacts, before_start, before_complete"
    );
}

#[test]
fn strict_completion_still_requires_provenance() {
    let error = complete_with(generated(vec![doc("manifest", "")]), FujinStrictness::Strict)
        .unwrap_err();
    assert_eq!(
        error,
        "missing or blank fields: required_documents, linked_knowledge, linked_rejected"
    );
}

#[test]
fn upstream_bounds_win_even_when_empty() {
    let mut args = generated(vec![doc("m", "docs/m.md")]);
    args.target_files = TargetFiles {
        owned: vec!["src/anything.rs".into()],
        read_only: vec![],
        forbidden: vec![],
    };
    args.conflict_policy = Some("model choice".into());
    args.required_checks = vec!["model check".into()];
    args.reviewer_profile = Some("model auditor".into());
    let bounds = UpstreamBounds {
        target_files: Some(TargetFiles::default()),
        conflict_policy: Some(None),
        required_checks: None,
        reviewer_profile: Some(Some("rust-auditor".into())),
    };
    let packet = complete_action_packet(
        args,
        bounds,
        &PlanBrief::default(),
        &SensingItem::none(),
        "dec-1",
    );
    assert!(packet.target_files.is_empty());
    assert_eq!(packet.conflict_policy, None);
    assert_eq!(packet.required_checks, vec!["model check".to_string()]);
    assert_eq!(packet.reviewer_profile.as_deref(), Some("rust-auditor"));
}

#[test]
fn drop_keeps_everything_else() {
    let mut packet = generated(vec![doc("", "u"), doc("t", "u")]);
    packet.linked_knowledge = vec![
        LinkedItem {
            id: "k".into(),
            label: "".into(),
        },
        LinkedItem {
            id: "k2".into(),
            label: "l2".into(),
        },
    ];
    packet.linked_rejected = vec![LinkedItem {
        id: " ".into(),
        label: "r".into(),
    }];
    let before = packet.clone();
    drop_incomplete_provenance(&mut packet);
    assert_eq!(packet.required_documents, vec![doc("t", "u")]);
    assert_eq!(packet.linked_knowledge.len(), 1);
    assert_eq!(packet.linked_knowledge[0].id, "k2");
    assert!(packet.linked_rejected.is_empty());
    assert_eq!(packet.goal, before.goal);
    assert_eq!(packet.before_start, before.before_start);
}

#[test]
fn usage_merges_with_saturation() {
    let a = AiUsage {
        input_tokens: Some(123),
        output_tokens: None,
        total_tokens: Some(u64::MAX - 1),
    };
    let b = AiUsage {
        input_tokens: Some(7),
        output_tokens: None,
        total_tokens: Some(5),
    };
    assert_eq!(merge_usage(None, Some(b)), Some(b));
    assert_eq!(merge_usage(Some(a), None), Some(a));
    assert_eq!(merge_usage(None, None), None);
    assert_eq!(
        merge_usage(Some(a), Some(b)),
        Some(AiUsage {
            input_tokens: Some(130),
            output_tokens: None,
            total_tokens: Some(u64::MAX),
        })
    );
    let c = AiUsage {
        input_tokens: None,
        output_tokens: Some(45),
        total_tokens: None,
    };
    assert_eq!(
        merge_usage(Some(a), Some(c)).unwrap().output_tokens,
        Some(45)
    );
}

fn call(name: &str, arguments: &str) -> AiOutput {
    AiOutput::ToolCall(ToolCall {
        name: name.into(),
        arguments: arguments.into(),
    })
}

#[test]
fn first_build_call_arguments_are_taken() {
    let outputs = vec![
        AiOutput::Text("thinking".into()),
        call("other_tool", "{}"),
        call("build_action_packet", "{\"goal\":\"a\"}"),
        call("build_action_packet", "{\"goal\":\"b\"}"),
    ];
    assert_eq!(
        action_packet_arguments(outputs),
        Ok("{\"goal\":\"a\"}".to_string())
    );
    assert_eq!(
        action_packet_arguments(vec![AiOutput::Text("no call".into())]),
        Err("model returned no build_action_packet call".to_string())
    );
}

#[test]
fn schema_rejection_is_repaired_once_then_fails_closed() {
    let step = after_reply(false, &None, ProviderReply::SchemaRejected("bad schema".into()));
    match step {
        PackStep::Repair {
            validation_error,
            invalid_arguments,
        } => {
            assert_eq!(validation_error, "bad schema");
            assert_eq!(invalid_arguments, None);
        }
        other => panic!("expected a repair, got {other:?}"),
    }
    let step = after_reply(
        true,
        &Some("bad schema".into()),
        ProviderReply::SchemaRejected("still bad".into()),
    );
    match step {
        PackStep::Finish(Err(ActionsError::Validation(m))) => assert_eq!(
            m,
            "pack_ai: build_action_packet remained invalid after one repair; initial: bad schema; repair: still bad"
        ),
        other => panic!("expected a refusal, got {other:?}"),
    }
}

#[test]
fn provider_failure_is_an_ai_error() {
    match after_reply(false, &None, ProviderReply::Failed("boom".into())) {
        PackStep::Finish(Err(ActionsError::Ai(m))) => assert_eq!(m, "boom"),
        other => panic!("expected an ai error, got {other:?}"),
    }
    match after_reply(true, &None, ProviderReply::Failed("boom".into())) {
        PackStep::Finish(Err(ActionsError::Ai(m))) => assert_eq!(
            m,
            "pack_ai: repair failed after initial validation error (unknown validation error): boom"
        ),
        other => panic!("expected an ai error, got {other:?}"),
    }
}

#[test]
fn answer_without_call_fails() {
    match after_reply(false, &None, ProviderReply::Answered(vec![])) {
        PackStep::Finish(Err(ActionsError::Ai(m))) => {
            assert_eq!(m, "pack_ai: model returned no build_action_packet call")
        }
        other => panic!("expected an ai error, got {other:?}"),
    }
    match after_reply(true, &Some("e1".into()), ProviderReply::Answered(vec![])) {
        PackStep::Finish(Err(ActionsError::Validation(m))) => assert_eq!(
            m,
            "pack_ai: build_action_packet repair produced no usable call; initial: e1; repair: model returned no build_action_packet call"
        ),
        other => panic!("expected a refusal, got {other:?}"),
    }
    match after_reply(
        false,
        &None,
        ProviderReply::Answered(vec![call("build_action_packet", "{}")]),
    ) {
        PackStep::Parse(arguments) => assert_eq!(arguments, "{}"),
        other => panic!("expected parsing, got {other:?}"),
    }
}

#[test]
fn invalid_arguments_are_quoted_in_the_repair() {
    match after_parse(
        false,
        &None,
        "{bad}".into(),
        Err("expected value at line 1".into()),
        FujinStrictness::Soft,
    ) {
        PackStep::Repair {
            validation_error,
            invalid_arguments,
        } => {
            assert_eq!(validation_error, "expected value at line 1");
            assert_eq!(invalid_arguments.as_deref(), Some("{bad}"));
        }
        other => panic!("expected a repair, got {other:?}"),
    }
    match after_parse(
        true,
        &Some("missing goal".into()),
        "{}".into(),
        Err("again".into()),
        FujinStrictness::Soft,
    ) {
        PackStep::Finish(Err(ActionsError::Validation(m))) => assert_eq!(
            m,
            "pack_ai: build_action_packet remained invalid after one repair; initial: missing goal; repair: again"
        ),
        other => panic!("expected a refusal, got {other:?}"),
    }
    let packet = complete(generated(vec![])).unwrap();
    match after_parse(true, &None, "{}".into(), Ok(packet.clone()), FujinStrictness::Soft) {
        PackStep::Finish(Ok(p)) => {
            assert_eq!(p, packet);
            assert!(assess_with(&p, FujinStrictness::Soft).is_ready());
        }
        other => panic!("expected the packet, got {other:?}"),
    }
}

#[test]
fn immature_repair_is_reported_not_ready_with_missing_fields() {
    let mut args = generated(vec![]);
    args.goal = "".into();
    let completed = complete_action_packet(
        args,
        UpstreamBounds::none(),
        &PlanBrief::default(),
        &SensingItem::none(),
        "dec_abc",
    );
    match after_parse(false, &None, "{args}".into(), Ok(completed.clone()), FujinStrictness::Soft) {
        PackStep::Repair {
            validation_error,
            invalid_arguments,
        } => {
            assert_eq!(validation_error, "missing or blank fields: goal");
            assert_eq!(invalid_arguments.as_deref(), Some("{args}"));
        }
        other => panic!("expected a repair, got {other:?}"),
    }
    match after_parse(
        true,
        &Some("missing or blank fields: goal".into()),
        "{args}".into(),
        Ok(completed.clone()),
        FujinStrictness::Soft,
    ) {
        PackStep::Immature { packet, missing } => {
            assert_eq!(packet, completed);
            assert_eq!(packet.linked_decisions[0].id, "dec_abc");
            assert_eq!(missing, vec!["goal"]);
        }
        other => panic!("expected a not-ready report, got {other:?}"),
    }
}

#[test]
fn repair_prompt_quotes_the_error() {
    let prompt = repair_prompt("ask", "bad", &transport_rejection());
    assert_eq!(
        prompt,
        "ask\n\nThe previous build_action_packet call was invalid.\nValidation error: bad\n\
         The transport rejected the malformed output before exposing its arguments.\n\
         Retry the build_action_packet call exactly once. Correct only from the supplied \
         planning context; do not invent goal, why, titles, or other meaning-bearing content."
    );
    assert!(pack_prompt("<ctx>").ends_with("review-profile requirements:\n<ctx>"));
}

#[test]
fn parsed_arguments_are_completed_and_judged_soft() {
    let mut model = generated(vec![]);
    model.linked_decisions = vec![LinkedItem {
        id: "invented".into(),
        label: "invented".into(),
    }];
    match after_arguments(
        false,
        &None,
        "{args}".into(),
        Ok((model.clone(), UpstreamBounds::none())),
        &PlanBrief::default(),
        &SensingItem::none(),
        "dec_src",
    ) {
        PackStep::Finish(Ok(p)) => {
            assert_eq!(p.linked_decisions.len(), 1);
            assert_eq!(p.linked_decisions[0].id, "dec_src");
            assert_eq!(p.linked_decisions[0].label, "dec_src");
            assert_eq!(p.goal, "Ship the fix");
        }
        other => panic!("expected the packet, got {other:?}"),
    }
    model.goal = "".into();
    match after_arguments(
        true,
        &Some("missing or blank fields: goal".into()),
        "{args}".into(),
        Ok((model, UpstreamBounds::none())),
        &PlanBrief::default(),
        &SensingItem::none(),
        "dec_src",
    ) {
        PackStep::Immature { packet, missing } => {
            assert_eq!(packet.linked_decisions.len(), 1);
            assert_eq!(packet.linked_decisions[0].id, "dec_src");
            assert_eq!(missing, vec!["goal"]);
        }
        other => panic!("expected a not-ready report, got {other:?}"),
    }
    match after_arguments(
        false,
        &None,
        "{bad}".into(),
        Err("expected value".into()),
        &PlanBrief::default(),
        &SensingItem::none(),
        "dec_src",
    ) {
        PackStep::Repair {
            validation_error,
            invalid_arguments,
        } => {
            assert_eq!(validation_error, "expected value");
            assert_eq!(invalid_arguments.as_deref(), Some("{bad}"));
        }
        other => panic!("expected a repair, got {other:?}"),
    }
}
