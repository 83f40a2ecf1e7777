//! Building an Action Packet from a model's `build_action_packet` tool call.
//!
//! The model is asked once; invalid arguments get one schema-aware repair
//! attempt, and a second invalid result fails closed. The conversation with
//! the model happens outside the library: the functions here take what the
//! model answered and decide what happens next.

use vstd::prelude::*;

use crate::brief::{linked_ids, packet_from_brief, PlanBrief};
use crate::error::ActionsError;
use crate::maturity::{
    assess_with, document_filled, is_mature_under, lemma_ready_iff_mature, link_filled,
    missing_fields_under, FujinStrictness, Maturity,
};
use crate::packet::{ActionPacket, LinkedItem, RequiredDocument, TargetFiles};
use crate::service::{service_strictness, service_strictness_level};
use crate::text::{blank_text, is_blank, join, joined, same_text, string_views};


verus! {

/// Token usage reported for a model call.
#[derive(Clone, Copy, Debug, PartialEq, Eq)]
pub struct AiUsage {
    pub input_tokens: Option<u64>,
    pub output_tokens: Option<u64>,
    pub total_tokens: Option<u64>,
}

/// A tool call emitted by the model.
#[derive(Debug, PartialEq, Eq)]
pub struct ToolCall {
    pub name: String,
    pub arguments: String,
}

/// One item of a model's answer.
#[derive(Debug, PartialEq, Eq)]
pub enum AiOutput {
    /// A call of one of the offered tools.
    ToolCall(ToolCall),
    /// Plain text.
    Text(String),
}

/// The name of the tool through which the model returns a packet.
pub const BUILD_ACTION_PACKET: &'static str = "build_action_packet";

/// A token count, absent counting as zero.
pub open spec fn tokens_or_zero(n: Option<u64>) -> int {
    match n {
        Some(n) => n as int,
        None => 0,
    }
}

/// The saturating sum of two token counts; absent when both are absent.
pub open spec fn added_tokens(left: Option<u64>, right: Option<u64>) -> Option<u64> {
    if left is None && right is None {
        None
    } else {
        let sum = tokens_or_zero(left) + tokens_or_zero(right);
        Some(
            if sum > u64::MAX {
                u64::MAX
            } else {
                sum as u64
            },
        )
    }
}

/// The usage of two calls taken together.
pub open spec fn merged_usage(total: Option<AiUsage>, next: Option<AiUsage>) -> Option<AiUsage> {
    match (total, next) {
        (None, next) => next,
        (total, None) => total,
        (Some(total), Some(next)) => Some(
            AiUsage {
                input_tokens: added_tokens(total.input_tokens, next.input_tokens),
                output_tokens: added_tokens(total.output_tokens, next.output_tokens),
                total_tokens: added_tokens(total.total_tokens, next.total_tokens),
            },
        ),
    }
}

fn add_tokens(left: Option<u64>, right: Option<u64>) -> (r: Option<u64>)
    ensures
        r == added_tokens(left, right),
{
    match (left, right) {
        (None, None) => None,
        (left, right) => {
            let l = match left {
                Some(l) => l,
                None => 0,
            };
            let r = match right {
                Some(r) => r,
                None => 0,
            };
            Some(l.saturating_add(r))
        },
    }
}

/// Adding two token counts counts an absent one as zero, stays absent only
/// when both are absent, and saturates at `u64::MAX` instead of wrapping.
pub proof fn lemma_token_addition(left: Option<u64>, right: Option<u64>)
    ensures
        added_tokens(left, right) is None <==> (left is None && right is None),
        added_tokens(left, right) matches Some(x) ==> {
            let a = match left {
                Some(a) => a as int,
                None => 0,
            };
            let b = match right {
                Some(b) => b as int,
                None => 0,
            };
            &&& a + b <= u64::MAX ==> x == a + b
            &&& a + b > u64::MAX ==> x == u64::MAX
        },
        added_tokens(left, right) == added_tokens(right, left),
{
}

/// Merging the usage of two calls keeps one side when the other is absent,
/// and otherwise adds each counter with its own counterpart: input to
/// input, output to output, total to total.
pub proof fn lemma_usage_merge(total: Option<AiUsage>, next: Option<AiUsage>)
    ensures
        total is None ==> merged_usage(total, next) == next,
        next is None ==> merged_usage(total, next) == total,
        (total is Some && next is Some) ==> (merged_usage(total, next) matches Some(u)
            && u.input_tokens == added_tokens(total->0.input_tokens, next->0.input_tokens)
            && u.output_tokens == added_tokens(total->0.output_tokens, next->0.output_tokens)
            && u.total_tokens == added_tokens(total->0.total_tokens, next->0.total_tokens)),
        merged_usage(total, next) == merged_usage(next, total),
{
}

/// Accumulate the usage of a further call into the running total.
pub fn merge_usage(total: Option<AiUsage>, next: Option<AiUsage>) -> (r: Option<AiUsage>)
    ensures
        r == merged_usage(total, next),
{
    match (total, next) {
        (None, next) => next,
        (total, None) => total,
        (Some(total), Some(next)) => Some(
            AiUsage {
                input_tokens: add_tokens(total.input_tokens, next.input_tokens),
                output_tokens: add_tokens(total.output_tokens, next.output_tokens),
                total_tokens: add_tokens(total.total_tokens, next.total_tokens),
            },
        ),
    }
}

/// The output is a call of `build_action_packet`.
pub open spec fn is_build_call(output: AiOutput) -> bool {
    output matches AiOutput::ToolCall(call) && call.name@ == BUILD_ACTION_PACKET@
}

/// The arguments of a tool call (nothing for text).
pub open spec fn call_arguments(output: AiOutput) -> Seq<char> {
    match output {
        AiOutput::ToolCall(call) => call.arguments@,
        AiOutput::Text(_) => Seq::empty(),
    }
}

/// The reason given when the model made no `build_action_packet` call.
pub open spec fn no_call_message() -> Seq<char> {
    "model returned no build_action_packet call"@
}

/// The arguments of the first `build_action_packet` call in the model's
/// answer.
pub fn action_packet_arguments(outputs: Vec<AiOutput>) -> (r: Result<String, String>)
    ensures
        r matches Ok(a) ==> exists|k: int|
            0 <= k < outputs@.len() && is_build_call(#[trigger] outputs@[k]) && (forall|j: int|
                0 <= j < k ==> !is_build_call(outputs@[j])) && a@ == call_arguments(outputs@[k]),
        r matches Err(e) ==> e@ == no_call_message() && forall|k: int|
            0 <= k < outputs@.len() ==> !is_build_call(#[trigger] outputs@[k]),
{
    let mut i: usize = 0;
    while i < outputs.len()
        invariant
            i <= outputs.len(),
            forall|j: int| 0 <= j < i ==> !is_build_call(#[trigger] outputs@[j]),
        decreases outputs.len() - i,
    {
        match &outputs[i] {
            AiOutput::ToolCall(call) => {
                if same_text(call.name.as_str(), BUILD_ACTION_PACKET) {
                    return Ok(call.arguments.clone());
                }
            },
            AiOutput::Text(_) => {},
        }
        i = i + 1;
    }
    Err(String::from_str("model returned no build_action_packet call"))
}

/// The documents that carry both a title and a uri, in order.
pub open spec fn addressable_documents(docs: Seq<RequiredDocument>) -> Seq<RequiredDocument> {
    docs.filter(|d: RequiredDocument| document_filled(d))
}

/// The links that carry both an id and a label, in order.
pub open spec fn complete_links(links: Seq<LinkedItem>) -> Seq<LinkedItem> {
    links.filter(|l: LinkedItem| link_filled(l))
}

fn keep_addressable_documents(docs: Vec<RequiredDocument>) -> (r: Vec<RequiredDocument>)
    ensures
        r@ == addressable_documents(docs@),
{
    let mut kept: Vec<RequiredDocument> = Vec::new();
    let mut i: usize = 0;
    while i < docs.len()
        invariant
            i <= docs.len(),
            kept@ == addressable_documents(docs@.take(i as int)),
        decreases docs.len() - i,
    {
        proof {
            reveal_with_fuel(Seq::<RequiredDocument>::filter, 1);
            assert(docs@.take(i + 1).drop_last() =~= docs@.take(i as int));
        }
        let doc = &docs[i];
        if !is_blank(doc.title.as_str()) && !is_blank(doc.uri.as_str()) {
            kept.push(doc.clone());
        }
        i = i + 1;
    }
    assert(docs@.take(docs.len() as int) =~= docs@);
    kept
}

fn keep_complete_links(links: Vec<LinkedItem>) -> (r: Vec<LinkedItem>)
    ensures
        r@ == complete_links(links@),
{
    let mut kept: Vec<LinkedItem> = Vec::new();
    let mut i: usize = 0;
    while i < links.len()
        invariant
            i <= links.len(),
            kept@ == complete_links(links@.take(i as int)),
        decreases links.len() - i,
    {
        proof {
            reveal_with_fuel(Seq::<LinkedItem>::filter, 1);
            assert(links@.take(i + 1).drop_last() =~= links@.take(i as int));
        }
        let link = &links[i];
        if !is_blank(link.id.as_str()) && !is_blank(link.label.as_str()) {
            kept.push(link.clone());
        }
        i = i + 1;
    }
    assert(links@.take(links.len() as int) =~= links@);
    kept
}

/// `b` equals `a` in every field but the provenance trio
/// (`required_documents`, `linked_knowledge`, `linked_rejected`).
pub open spec fn same_but_provenance(a: ActionPacket, b: ActionPacket) -> bool {
    &&& b.goal == a.goal
    &&& b.context == a.context
    &&& b.do_items == a.do_items
    &&& b.why == a.why
    &&& b.do_not == a.do_not
    &&& b.completion_criteria == a.completion_criteria
    &&& b.constraints == a.constraints
    &&& b.risks == a.risks
    &&& b.dependencies == a.dependencies
    &&& b.linked_decisions == a.linked_decisions
    &&& b.expected_artifacts == a.expected_artifacts
    &&& b.before_start == a.before_start
    &&& b.before_complete == a.before_complete
    &&& b.target_files == a.target_files
    &&& b.conflict_policy == a.conflict_policy
    &&& b.required_checks == a.required_checks
    &&& b.reviewer_profile == a.reviewer_profile
}

/// Drop provenance entries the model could not address.
///
/// The provenance trio (`required_documents`, `linked_knowledge`,
/// `linked_rejected`) is valid-or-empty: an empty list means "no provenance
/// established", while a half-filled entry (say a document with a title but
/// no uri) is meaning that does not exist in the input. Such entries are
/// omitted rather than invented; a list left empty still fails the maturity
/// gate.
pub fn drop_incomplete_provenance(packet: &mut ActionPacket)
    ensures
        final(packet).required_documents@ == addressable_documents(old(packet).required_documents@),
        final(packet).linked_knowledge@ == complete_links(old(packet).linked_knowledge@),
        final(packet).linked_rejected@ == complete_links(old(packet).linked_rejected@),
        same_but_provenance(*old(packet), *final(packet)),
{
    let mut docs: Vec<RequiredDocument> = Vec::new();
    std::mem::swap(&mut docs, &mut packet.required_documents);
    packet.required_documents = keep_addressable_documents(docs);
    let mut knowledge: Vec<LinkedItem> = Vec::new();
    std::mem::swap(&mut knowledge, &mut packet.linked_knowledge);
    packet.linked_knowledge = keep_complete_links(knowledge);
    let mut rejected: Vec<LinkedItem> = Vec::new();
    std::mem::swap(&mut rejected, &mut packet.linked_rejected);
    packet.linked_rejected = keep_complete_links(rejected);
}

/// Execution bounds stated upstream in the plan brief. `Some` means the
/// brief carries the key (for the optional fields, possibly set to nothing);
/// `None` means the brief leaves the bound to the model.
#[derive(Clone, Debug, PartialEq, Eq)]
pub struct UpstreamBounds {
    pub target_files: Option<TargetFiles>,
    pub conflict_policy: Option<Option<String>>,
    pub required_checks: Option<Vec<String>>,
    pub reviewer_profile: Option<Option<String>>,
}

impl UpstreamBounds {
    /// Bounds that leave everything to the model.
    pub fn none() -> (r: UpstreamBounds)
        ensures
            r.target_files is None,
            r.conflict_policy is None,
            r.required_checks is None,
            r.reviewer_profile is None,
    {
        UpstreamBounds {
            target_files: None,
            conflict_policy: None,
            required_checks: None,
            reviewer_profile: None,
        }
    }
}

/// `value` overridden by `bound` when the bound is stated.
pub open spec fn bounded<T>(value: T, bound: Option<T>) -> T {
    match bound {
        Some(b) => b,
        None => value,
    }
}

/// The model's knowledge reference taken from the sensing item: present
/// when the item is a knowledge item with a non-blank id and body.
#[derive(Clone, Debug, PartialEq, Eq)]
pub struct SensingItem {
    pub kind: Option<String>,
    pub id: Option<String>,
    pub body: Option<String>,
}

impl SensingItem {
    /// An item that says nothing.
    pub fn none() -> (r: SensingItem)
        ensures
            r.kind is None,
            r.id is None,
            r.body is None,
    {
        SensingItem { kind: None, id: None, body: None }
    }
}

/// The sensing item names a piece of knowledge with a non-blank id and body.
pub open spec fn names_knowledge(s: SensingItem) -> bool {
    &&& s.kind matches Some(k) && k@ == "knowledge"@
    &&& s.id matches Some(id) && !blank_text(id@)
    &&& s.body matches Some(body) && !blank_text(body@)
}

/// The knowledge links a completed packet starts from: the model's own when
/// it gave any, else the sensing item's knowledge, else the brief's.
pub open spec fn knowledge_source(p: ActionPacket, brief: PlanBrief, sensing: SensingItem) -> Seq<
    LinkedItem,
> {
    if p.linked_knowledge@.len() > 0 {
        p.linked_knowledge@
    } else if names_knowledge(sensing) {
        seq![LinkedItem { id: sensing.id->0, label: sensing.body->0 }]
    } else {
        linked_ids(brief.knowledge_base@)
    }
}

/// The rejected-alternative links a completed packet starts from: the
/// model's own when it gave any, else the brief's.
pub open spec fn rejected_source(p: ActionPacket, brief: PlanBrief) -> Seq<LinkedItem> {
    if p.linked_rejected@.len() > 0 {
        p.linked_rejected@
    } else {
        linked_ids(brief.rejected_alternatives@)
    }
}

/// `r` is the model's packet `p` completed: upstream bounds win over the
/// model's, missing provenance is filled from the brief and the sensing
/// item, the only linked decision is the source decision, and incomplete
/// provenance entries are dropped.
pub open spec fn completes(
    p: ActionPacket,
    bounds: UpstreamBounds,
    brief: PlanBrief,
    sensing: SensingItem,
    source_ref: Seq<char>,
    r: ActionPacket,
) -> bool {
    &&& r.goal == p.goal
    &&& r.context == p.context
    &&& r.do_items == p.do_items
    &&& r.why == p.why
    &&& r.do_not == p.do_not
    &&& r.completion_criteria == p.completion_criteria
    &&& r.constraints == p.constraints
    &&& r.risks == p.risks
    &&& r.dependencies == p.dependencies
    &&& r.required_documents@ == addressable_documents(p.required_documents@)
    &&& r.linked_decisions@.len() == 1
    &&& r.linked_decisions@[0].id@ == source_ref
    &&& r.linked_decisions@[0].label@ == source_ref
    &&& r.linked_knowledge@ == complete_links(knowledge_source(p, brief, sensing))
    &&& r.linked_rejected@ == complete_links(rejected_source(p, brief))
    &&& r.expected_artifacts == p.expected_artifacts
    &&& r.before_start == p.before_start
    &&& r.before_complete == p.before_complete
    &&& r.target_files == bounded(p.target_files, bounds.target_files)
    &&& r.conflict_policy == bounded(p.conflict_policy, bounds.conflict_policy)
    &&& r.required_checks == bounded(p.required_checks, bounds.required_checks)
    &&& r.reviewer_profile == bounded(p.reviewer_profile, bounds.reviewer_profile)
}

/// Each of the four execution bounds stated upstream replaces the model's
/// value in the completed packet, whatever the model generated, even when
/// the stated bound is empty; a bound the brief leaves open keeps the
/// model's value.
pub proof fn lemma_upstream_bounds_win(
    p: ActionPacket,
    bounds: UpstreamBounds,
    brief: PlanBrief,
    sensing: SensingItem,
    source_ref: Seq<char>,
    r: ActionPacket,
)
    requires
        completes(p, bounds, brief, sensing, source_ref, r),
    ensures
        bounds.target_files matches Some(t) ==> r.target_files == t,
        bounds.target_files is None ==> r.target_files == p.target_files,
        bounds.conflict_policy matches Some(c) ==> r.conflict_policy == c,
        bounds.conflict_policy is None ==> r.conflict_policy == p.conflict_policy,
        bounds.required_checks matches Some(c) ==> r.required_checks@ == c@,
        bounds.required_checks is None ==> r.required_checks@ == p.required_checks@,
        bounds.reviewer_profile matches Some(v) ==> r.reviewer_profile == v,
        bounds.reviewer_profile is None ==> r.reviewer_profile == p.reviewer_profile,
{
}

/// `kept` holds exactly the links of `from` that carry both an id and a
/// label: nothing else, and none of them left out.
pub open spec fn keeps_complete_links_of(kept: Seq<LinkedItem>, from: Seq<LinkedItem>) -> bool {
    &&& forall|i: int|
        0 <= i < kept.len() ==> from.contains(#[trigger] kept[i]) && !blank_text(kept[i].id@)
            && !blank_text(kept[i].label@)
    &&& forall|i: int|
        0 <= i < from.len() && !blank_text(#[trigger] from[i].id@) && !blank_text(from[i].label@)
            ==> kept.contains(from[i])
}

proof fn lemma_complete_links_keep(links: Seq<LinkedItem>)
    ensures
        keeps_complete_links_of(complete_links(links), links),
{
    let pred = |l: LinkedItem| link_filled(l);
    let kept = complete_links(links);
    assert forall|i: int| 0 <= i < kept.len() implies links.contains(#[trigger] kept[i])
        && !blank_text(kept[i].id@) && !blank_text(kept[i].label@) by {
        links.lemma_filter_pred(pred, i);
        assert(kept.contains(kept[i]));
        links.lemma_filter_contains_rev(pred, kept[i]);
    }
    assert forall|i: int|
        0 <= i < links.len() && !blank_text(#[trigger] links[i].id@) && !blank_text(
            links[i].label@,
        ) implies kept.contains(links[i]) by {
        links.lemma_filter_contains(pred, i);
    }
}

/// The model's own provenance comes first. When the model gave knowledge
/// links, the completed packet's `linked_knowledge` is made of the model's
/// links that carry an id and a label, all of them; the sensing item and
/// the brief are not consulted. Likewise for `linked_rejected` and the
/// brief. Only when the model gave no knowledge links does a sensing item
/// that names knowledge (kind `knowledge`, non-blank id and body) become the
/// one knowledge link, its body as the label.
pub proof fn lemma_model_provenance_first(
    p: ActionPacket,
    bounds: UpstreamBounds,
    brief: PlanBrief,
    sensing: SensingItem,
    source_ref: Seq<char>,
    r: ActionPacket,
)
    requires
        completes(p, bounds, brief, sensing, source_ref, r),
    ensures
        p.linked_knowledge@.len() > 0 ==> keeps_complete_links_of(
            r.linked_knowledge@,
            p.linked_knowledge@,
        ),
        p.linked_rejected@.len() > 0 ==> keeps_complete_links_of(
            r.linked_rejected@,
            p.linked_rejected@,
        ),
        (p.linked_knowledge@.len() == 0 && sensing.kind is Some && sensing.kind->0@
            == "knowledge"@ && sensing.id is Some && !blank_text(sensing.id->0@)
            && sensing.body is Some && !blank_text(sensing.body->0@)) ==> r.linked_knowledge@
            == seq![(LinkedItem { id: sensing.id->0, label: sensing.body->0 })],
{
    lemma_complete_links_keep(p.linked_knowledge@);
    lemma_complete_links_keep(p.linked_rejected@);
    if p.linked_knowledge@.len() == 0 && names_knowledge(sensing) {
        let link = LinkedItem { id: sensing.id->0, label: sensing.body->0 };
        let pred = |l: LinkedItem| link_filled(l);
        reveal_with_fuel(Seq::<LinkedItem>::filter, 2);
        assert(seq![link].drop_last() =~= Seq::<LinkedItem>::empty());
        assert(complete_links(seq![link]) =~= seq![link]);
    }
}

/// Two completions of one model packet agree on `linked_knowledge` when
/// the model gave knowledge links, and on `linked_rejected` when it gave
/// rejected links, whatever the briefs and sensing items.
pub proof fn lemma_model_provenance_ignores_fallbacks(
    p: ActionPacket,
    bounds1: UpstreamBounds,
    brief1: PlanBrief,
    sensing1: SensingItem,
    r1: ActionPacket,
    bounds2: UpstreamBounds,
    brief2: PlanBrief,
    sensing2: SensingItem,
    r2: ActionPacket,
    source_ref: Seq<char>,
)
    requires
        completes(p, bounds1, brief1, sensing1, source_ref, r1),
        completes(p, bounds2, brief2, sensing2, source_ref, r2),
    ensures
        p.linked_knowledge@.len() > 0 ==> r1.linked_knowledge@ == r2.linked_knowledge@,
        p.linked_rejected@.len() > 0 ==> r1.linked_rejected@ == r2.linked_rejected@,
{
}

/// Completion keeps the model's content: every §13 text and list the model
/// wrote is carried over unchanged, the documents kept are exactly the
/// model's documents that carry a title and a uri, and the only linked
/// decision is the source decision, whatever the model linked.
pub proof fn lemma_completion_keeps_model_content(
    p: ActionPacket,
    bounds: UpstreamBounds,
    brief: PlanBrief,
    sensing: SensingItem,
    source_ref: Seq<char>,
    r: ActionPacket,
)
    requires
        completes(p, bounds, brief, sensing, source_ref, r),
    ensures
        r.goal@ == p.goal@,
        r.context@ == p.context@,
        r.do_items@ == p.do_items@,
        r.why@ == p.why@,
        r.do_not@ == p.do_not@,
        r.completion_criteria@ == p.completion_criteria@,
        r.constraints@ == p.constraints@,
        r.risks@ == p.risks@,
        r.dependencies@ == p.dependencies@,
        r.expected_artifacts@ == p.expected_artifacts@,
        r.before_start@ == p.before_start@,
        r.before_complete@ == p.before_complete@,
        forall|i: int|
            0 <= i < r.required_documents@.len() ==> p.required_documents@.contains(
                #[trigger] r.required_documents@[i],
            ) && !blank_text(r.required_documents@[i].title@) && !blank_text(
                r.required_documents@[i].uri@,
            ),
        forall|i: int|
            0 <= i < p.required_documents@.len() && !blank_text(
                #[trigger] p.required_documents@[i].title@,
            ) && !blank_text(p.required_documents@[i].uri@) ==> r.required_documents@.contains(
                p.required_documents@[i],
            ),
        r.linked_decisions@.len() == 1,
        r.linked_decisions@[0].id@ == source_ref,
        r.linked_decisions@[0].label@ == source_ref,
{
    let pred = |d: RequiredDocument| document_filled(d);
    let docs = p.required_documents@;
    let kept = addressable_documents(docs);
    assert forall|i: int| 0 <= i < kept.len() implies docs.contains(#[trigger] kept[i])
        && !blank_text(kept[i].title@) && !blank_text(kept[i].uri@) by {
        docs.lemma_filter_pred(pred, i);
        assert(kept.contains(kept[i]));
        docs.lemma_filter_contains_rev(pred, kept[i]);
    }
    assert forall|i: int|
        0 <= i < docs.len() && !blank_text(#[trigger] docs[i].title@) && !blank_text(
            docs[i].uri@,
        ) implies kept.contains(docs[i]) by {
        docs.lemma_filter_contains(pred, i);
    }
}

/// When the model gave no links of a kind, the completed packet falls back
/// on the brief: rejected links are the brief's rejected alternatives, and
/// knowledge links (when the sensing item names no knowledge) the brief's
/// knowledge base, each id linked under its own name, keeping those with a
/// non-blank id.
pub proof fn lemma_provenance_falls_back_on_brief(
    p: ActionPacket,
    bounds: UpstreamBounds,
    brief: PlanBrief,
    sensing: SensingItem,
    source_ref: Seq<char>,
    r: ActionPacket,
)
    requires
        completes(p, bounds, brief, sensing, source_ref, r),
    ensures
        p.linked_rejected@.len() == 0 ==> (forall|i: int|
            0 <= i < r.linked_rejected@.len() ==> (#[trigger] r.linked_rejected@[i]).id
                == r.linked_rejected@[i].label && brief.rejected_alternatives@.contains(
                r.linked_rejected@[i].id,
            ) && !blank_text(r.linked_rejected@[i].id@)) && (forall|i: int|
            0 <= i < brief.rejected_alternatives@.len() && !blank_text(
                #[trigger] brief.rejected_alternatives@[i]@,
            ) ==> r.linked_rejected@.contains(
                LinkedItem { id: brief.rejected_alternatives@[i], label: brief.rejected_alternatives@[i] },
            )),
        (p.linked_knowledge@.len() == 0 && !names_knowledge(sensing)) ==> (forall|i: int|
            0 <= i < r.linked_knowledge@.len() ==> (#[trigger] r.linked_knowledge@[i]).id
                == r.linked_knowledge@[i].label && brief.knowledge_base@.contains(
                r.linked_knowledge@[i].id,
            ) && !blank_text(r.linked_knowledge@[i].id@)) && (forall|i: int|
            0 <= i < brief.knowledge_base@.len() && !blank_text(
                #[trigger] brief.knowledge_base@[i]@,
            ) ==> r.linked_knowledge@.contains(
                LinkedItem { id: brief.knowledge_base@[i], label: brief.knowledge_base@[i] },
            )),
{
    lemma_links_of_ids_kept(brief.rejected_alternatives@);
    lemma_links_of_ids_kept(brief.knowledge_base@);
}

proof fn lemma_links_of_ids_kept(ids: Seq<String>)
    ensures
        forall|i: int|
            0 <= i < complete_links(linked_ids(ids)).len() ==> (#[trigger] complete_links(
                linked_ids(ids),
            )[i]).id == complete_links(linked_ids(ids))[i].label && ids.contains(
                complete_links(linked_ids(ids))[i].id,
            ) && !blank_text(complete_links(linked_ids(ids))[i].id@),
        forall|i: int|
            0 <= i < ids.len() && !blank_text(#[trigger] ids[i]@) ==> complete_links(
                linked_ids(ids),
            ).contains(LinkedItem { id: ids[i], label: ids[i] }),
{
    let links = linked_ids(ids);
    let kept = complete_links(links);
    let pred = |l: LinkedItem| link_filled(l);
    assert forall|i: int| 0 <= i < kept.len() implies (#[trigger] kept[i]).id == kept[i].label
        && ids.contains(kept[i].id) && !blank_text(kept[i].id@) by {
        links.lemma_filter_pred(pred, i);
        assert(kept.contains(kept[i]));
        links.lemma_filter_contains_rev(pred, kept[i]);
        let j = choose|j: int| 0 <= j < links.len() && links[j] == kept[i];
        assert(ids[j] == kept[i].id);
    }
    assert forall|i: int| 0 <= i < ids.len() && !blank_text(#[trigger] ids[i]@) implies kept.contains(
        LinkedItem { id: ids[i], label: ids[i] },
    ) by {
        assert(links[i] == LinkedItem { id: ids[i], label: ids[i] });
        links.lemma_filter_contains(pred, i);
    }
}

/// The refusal text for a completed packet that is still immature.
pub open spec fn incomplete_message(missing: Seq<Seq<char>>) -> Seq<char> {
    "missing or blank fields: "@ + joined(missing, ", "@)
}

fn sensing_knowledge(sensing: &SensingItem) -> (r: Option<LinkedItem>)
    ensures
        (r is Some) <==> names_knowledge(*sensing),
        r matches Some(l) ==> l == (LinkedItem { id: sensing.id->0, label: sensing.body->0 }),
{
    match (&sensing.kind, &sensing.id, &sensing.body) {
        (Some(kind), Some(id), Some(body)) => {
            if same_text(kind.as_str(), "knowledge") && !is_blank(id.as_str()) && !is_blank(
                body.as_str(),
            ) {
                Some(LinkedItem { id: id.clone(), label: body.clone() })
            } else {
                None
            }
        },
        _ => None,
    }
}

fn one_link(link: LinkedItem) -> (r: Vec<LinkedItem>)
    ensures
        r@ == seq![link],
{
    let mut r: Vec<LinkedItem> = Vec::new();
    r.push(link);
    assert(r@ =~= seq![link]);
    r
}

/// Complete the packet the model generated.
///
/// Upstream bounds stated in the brief win over generated values, even when
/// they are empty. Empty `linked_rejected` is filled from the brief; empty
/// `linked_knowledge` from the sensing item when it names knowledge, else
/// from the brief. `linked_decisions` becomes the source decision alone.
/// Incomplete provenance entries are dropped. The maturity check follows in
/// [`after_parse`].
pub fn complete_action_packet(
    packet: ActionPacket,
    bounds: UpstreamBounds,
    brief: &PlanBrief,
    sensing: &SensingItem,
    source_ref: &str,
) -> (r: ActionPacket)
    ensures
        completes(packet, bounds, *brief, *sensing, source_ref@, r),
{
    let mut packet = packet;
    match bounds.target_files {
        Some(target_files) => packet.target_files = target_files,
        None => {},
    }
    match bounds.conflict_policy {
        Some(conflict_policy) => packet.conflict_policy = conflict_policy,
        None => {},
    }
    match bounds.required_checks {
        Some(required_checks) => packet.required_checks = required_checks,
        None => {},
    }
    match bounds.reviewer_profile {
        Some(reviewer_profile) => packet.reviewer_profile = reviewer_profile,
        None => {},
    }
    let from_brief = packet_from_brief(brief);
    if packet.linked_rejected.len() == 0 {
        packet.linked_rejected = from_brief.linked_rejected;
    }
    if packet.linked_knowledge.len() == 0 {
        packet.linked_knowledge = match sensing_knowledge(sensing) {
            Some(link) => one_link(link),
            None => from_brief.linked_knowledge,
        };
    }
    let source = LinkedItem {
        id: String::from_str(source_ref),
        label: String::from_str(source_ref),
    };
    packet.linked_decisions = one_link(source);
    drop_incomplete_provenance(&mut packet);
    packet
}

/// What the model provider answered for one attempt.
pub enum ProviderReply {
    /// The provider rejected the model's output against the tool schema.
    SchemaRejected(String),
    /// Any other provider failure.
    Failed(String),
    /// The model answered.
    Answered(Vec<AiOutput>),
}

/// What the packer does next.
#[derive(Debug)]
pub enum PackStep {
    /// Parse these tool-call arguments into a packet and its execution
    /// bounds, and report the outcome to [`after_arguments`].
    Parse(String),
    /// Ask the model once more, with a note on why the last answer failed.
    Repair { validation_error: String, invalid_arguments: Option<String> },
    /// Stop with this result.
    Finish(Result<ActionPacket, ActionsError>),
    /// Stop: the repaired answer parsed, but the completed packet is still
    /// immature; `missing` names its failing fields. The caller answers
    /// `not_ready` with them.
    Immature { packet: ActionPacket, missing: Vec<String> },
}

/// The first validation error, as the final refusal quotes it.
pub open spec fn initial_error(first_error: Option<String>) -> Seq<char> {
    match first_error {
        Some(e) => e@,
        None => "unknown validation error"@,
    }
}

/// The refusal when the repaired answer is still invalid.
pub open spec fn remained_invalid_message(first_error: Option<String>, error: Seq<char>) -> Seq<
    char,
> {
    "pack_ai: build_action_packet remained invalid after one repair; initial: "@ + initial_error(
        first_error,
    ) + "; repair: "@ + error
}

/// The refusal when the provider fails on the repair attempt.
pub open spec fn repair_failed_message(first_error: Option<String>, error: Seq<char>) -> Seq<char> {
    "pack_ai: repair failed after initial validation error ("@ + initial_error(first_error)
        + "): "@ + error
}

/// The refusal when the repaired answer holds no usable call.
pub open spec fn no_usable_call_message(first_error: Option<String>, error: Seq<char>) -> Seq<
    char,
> {
    "pack_ai: build_action_packet repair produced no usable call; initial: "@ + initial_error(
        first_error,
    ) + "; repair: "@ + error
}

fn initial_error_text(first_error: &Option<String>) -> (r: String)
    ensures
        r@ == initial_error(*first_error),
{
    match first_error {
        Some(e) => e.clone(),
        None => String::from_str("unknown validation error"),
    }
}

fn remained_invalid(first_error: &Option<String>, error: &str) -> (r: ActionsError)
    ensures
        r matches ActionsError::Validation(m) && m@ == remained_invalid_message(*first_error, error@),
{
    let msg = String::from_str(
        "pack_ai: build_action_packet remained invalid after one repair; initial: ",
    ).concat(initial_error_text(first_error).as_str()).concat("; repair: ").concat(error);
    ActionsError::validation(msg)
}

/// Decide what follows the provider's reply to attempt number one
/// (`repaired == false`) or two (`repaired == true`).
///
/// A schema rejection on the first attempt asks for one repair; on the
/// repair it fails closed. Other provider failures fail at once. An answer
/// without a `build_action_packet` call fails; one with it goes on to be
/// parsed.
pub fn after_reply(repaired: bool, first_error: &Option<String>, reply: ProviderReply) -> (r:
    PackStep)
    ensures
        repaired ==> !(r is Repair),
        match reply {
            ProviderReply::SchemaRejected(e) => if repaired {
                r matches PackStep::Finish(Err(ActionsError::Validation(m))) && m@
                    == remained_invalid_message(*first_error, e@)
            } else {
                r matches PackStep::Repair { validation_error: v, invalid_arguments: None } && v@
                    == e@
            },
            ProviderReply::Failed(e) => if repaired {
                r matches PackStep::Finish(Err(ActionsError::Ai(m))) && m@ == repair_failed_message(
                    *first_error,
                    e@,
                )
            } else {
                r matches PackStep::Finish(Err(ActionsError::Ai(m))) && m@ == e@
            },
            ProviderReply::Answered(outputs) => if exists|k: int|
                0 <= k < outputs@.len() && is_build_call(#[trigger] outputs@[k]) {
                r matches PackStep::Parse(a) && exists|k: int|
                    0 <= k < outputs@.len() && is_build_call(#[trigger] outputs@[k]) && (forall|
                        j: int,
                    | 0 <= j < k ==> !is_build_call(outputs@[j])) && a@ == call_arguments(
                        outputs@[k],
                    )
            } else if repaired {
                r matches PackStep::Finish(Err(ActionsError::Validation(m))) && m@
                    == no_usable_call_message(*first_error, no_call_message())
            } else {
                r matches PackStep::Finish(Err(ActionsError::Ai(m))) && m@ == "pack_ai: "@
                    + no_call_message()
            },
        },
{
    match reply {
        ProviderReply::SchemaRejected(error) => {
            if repaired {
                PackStep::Finish(Err(remained_invalid(first_error, error.as_str())))
            } else {
                PackStep::Repair { validation_error: error, invalid_arguments: None }
            }
        },
        ProviderReply::Failed(error) => {
            if repaired {
                let msg = String::from_str(
                    "pack_ai: repair failed after initial validation error (",
                ).concat(initial_error_text(first_error).as_str()).concat("): ").concat(
                    error.as_str(),
                );
                PackStep::Finish(Err(ActionsError::ai(msg)))
            } else {
                PackStep::Finish(Err(ActionsError::ai(error)))
            }
        },
        ProviderReply::Answered(outputs) => {
            match action_packet_arguments(outputs) {
                Ok(arguments) => PackStep::Parse(arguments),
                Err(error) => {
                    if repaired {
                        let msg = String::from_str(
                            "pack_ai: build_action_packet repair produced no usable call; initial: ",
                        ).concat(initial_error_text(first_error).as_str()).concat(
                            "; repair: ",
                        ).concat(error.as_str());
                        PackStep::Finish(Err(ActionsError::validation(msg)))
                    } else {
                        let msg = String::from_str("pack_ai: ").concat(error.as_str());
                        PackStep::Finish(Err(ActionsError::ai(msg)))
                    }
                },
            }
        },
    }
}

/// `r` is the step that follows attempt number one (`repaired == false`)
/// or two (`repaired == true`), whose arguments read `arguments` and gave
/// `parsed` (the completed packet, or why the arguments could not be read),
/// judged under strictness `s`.
pub open spec fn parse_step_is(
    repaired: bool,
    first_error: Option<String>,
    arguments: Seq<char>,
    parsed: Result<ActionPacket, String>,
    s: FujinStrictness,
    r: PackStep,
) -> bool {
    match parsed {
        Ok(p) => if is_mature_under(p, s) {
            r == PackStep::Finish(Ok(p))
        } else if repaired {
            r matches PackStep::Immature { packet, missing } && packet == p && string_views(
                missing@,
            ) == missing_fields_under(p, s)
        } else {
            r matches PackStep::Repair { validation_error: v, invalid_arguments: Some(a) } && v@
                == incomplete_message(missing_fields_under(p, s)) && a@ == arguments
        },
        Err(e) => if repaired {
            r matches PackStep::Finish(Err(ActionsError::Validation(m))) && m@
                == remained_invalid_message(first_error, e@)
        } else {
            r matches PackStep::Repair { validation_error: v, invalid_arguments: Some(a) } && v@
                == e@ && a@ == arguments
        },
    }
}

/// What follows parsing, in terms of the outcome: a readable packet that
/// is mature is handed back as it is, and nothing else is handed back as
/// finished; on the first attempt anything else asks for one repair quoting
/// the arguments; on the repair an immature packet is handed back as not
/// ready, naming exactly its failing fields, and unreadable arguments fail
/// closed with a validation error.
pub proof fn lemma_parse_step_outcomes(
    repaired: bool,
    first_error: Option<String>,
    arguments: Seq<char>,
    parsed: Result<ActionPacket, String>,
    s: FujinStrictness,
    r: PackStep,
)
    requires
        parse_step_is(repaired, first_error, arguments, parsed, s, r),
    ensures
        (parsed is Ok && is_mature_under(parsed->Ok_0, s)) ==> r == PackStep::Finish(
            Ok(parsed->Ok_0),
        ),
        r matches PackStep::Finish(Ok(q)) ==> (parsed is Ok && parsed->Ok_0 == q
            && is_mature_under(q, s)),
        !(r matches PackStep::Finish(Err(e)) && !(e is Validation)),
        (!repaired && !(parsed is Ok && is_mature_under(parsed->Ok_0, s))) ==> (
        r matches PackStep::Repair { invalid_arguments: Some(a), .. } && a@ == arguments),
        repaired ==> !(r is Repair) && !(r is Parse),
        (repaired && parsed is Ok && !is_mature_under(parsed->Ok_0, s)) ==> (
        r matches PackStep::Immature { packet, missing } && packet == parsed->Ok_0
            && string_views(missing@) == missing_fields_under(packet, s)),
        (repaired && parsed is Err) ==> r matches PackStep::Finish(Err(ActionsError::Validation(_))),
{
}

/// Decide what follows parsing and completing the arguments of attempt
/// number one (`repaired == false`) or two (`repaired == true`). `parsed`
/// is the completed packet, or why the arguments could not be read.
///
/// A packet mature under `strictness` is the result. Arguments that could
/// not be read, or a packet that is immature, ask for one repair on the
/// first attempt, quoting the arguments. On the repair, unreadable
/// arguments fail closed, and a still immature packet is reported as such,
/// naming its failing fields.
pub fn after_parse(
    repaired: bool,
    first_error: &Option<String>,
    arguments: String,
    parsed: Result<ActionPacket, String>,
    strictness: FujinStrictness,
) -> (r: PackStep)
    ensures
        repaired ==> !(r is Repair),
        parse_step_is(repaired, *first_error, arguments@, parsed, strictness, r),
{
    match parsed {
        Ok(packet) => {
            let verdict = assess_with(&packet, strictness);
            proof {
                lemma_ready_iff_mature(packet, strictness, verdict);
            }
            match verdict {
                Maturity::Ready => PackStep::Finish(Ok(packet)),
                Maturity::NotReady { missing } => {
                    if repaired {
                        PackStep::Immature { packet, missing }
                    } else {
                        let msg = String::from_str("missing or blank fields: ").concat(
                            join(&missing, ", ").as_str(),
                        );
                        PackStep::Repair { validation_error: msg, invalid_arguments: Some(arguments) }
                    }
                },
            }
        },
        Err(error) => {
            if repaired {
                PackStep::Finish(Err(remained_invalid(first_error, error.as_str())))
            } else {
                PackStep::Repair { validation_error: error, invalid_arguments: Some(arguments) }
            }
        },
    }
}

/// The packet that the packer hands back with a step, if any.
pub open spec fn step_packet(r: PackStep) -> Option<ActionPacket> {
    match r {
        PackStep::Finish(Ok(p)) => Some(p),
        PackStep::Immature { packet, .. } => Some(packet),
        _ => None,
    }
}

/// Decide what follows the model's `build_action_packet` arguments of
/// attempt number one (`repaired == false`) or two (`repaired == true`).
/// `parsed` is the packet and the brief's execution bounds read from them,
/// or why they could not be read.
///
/// A readable packet is completed with [`complete_action_packet`] from
/// `brief`, `sensing` and `source_ref`, and judged by [`after_parse`] under
/// the service's strictness. So every packet the packer hands back links
/// exactly the source decision.
pub fn after_arguments(
    repaired: bool,
    first_error: &Option<String>,
    arguments: String,
    parsed: Result<(ActionPacket, UpstreamBounds), String>,
    brief: &PlanBrief,
    sensing: &SensingItem,
    source_ref: &str,
) -> (r: PackStep)
    ensures
        repaired ==> !(r is Repair),
        match parsed {
            Ok((p, b)) => exists|c: ActionPacket|
                completes(p, b, *brief, *sensing, source_ref@, c) && #[trigger] parse_step_is(
                    repaired,
                    *first_error,
                    arguments@,
                    Ok(c),
                    service_strictness(),
                    r,
                ),
            Err(e) => parse_step_is(
                repaired,
                *first_error,
                arguments@,
                Err(e),
                service_strictness(),
                r,
            ),
        },
        step_packet(r) matches Some(q) ==> q.linked_decisions@.len() == 1
            && q.linked_decisions@[0].id@ == source_ref@ && q.linked_decisions@[0].label@
            == source_ref@,
{
    let strictness = service_strictness_level();
    match parsed {
        Ok((packet, bounds)) => {
            let completed = complete_action_packet(packet, bounds, brief, sensing, source_ref);
            after_parse(repaired, first_error, arguments, Ok(completed), strictness)
        },
        Err(error) => after_parse(repaired, first_error, arguments, Err(error), strictness),
    }
}

/// The note used in place of the invalid arguments when the transport
/// rejected the output before they could be seen.
pub open spec fn transport_rejection_note() -> Seq<char> {
    "The transport rejected the malformed output before exposing its arguments."@
}

/// The request text for the repair attempt: the first request text, then
/// why the previous call was invalid, what it said (`previous`), and the
/// instruction to retry once without inventing meaning.
pub open spec fn repair_prompt_text(input: Seq<char>, validation_error: Seq<char>, previous: Seq<
    char,
>) -> Seq<char> {
    input + "\n\nThe previous build_action_packet call was invalid.\nValidation error: "@
        + validation_error + "\n"@ + previous
        + "\nRetry the build_action_packet call exactly once. Correct only from the supplied planning context; do not invent goal, why, titles, or other meaning-bearing content."@
}

/// The note that stands for invalid arguments the transport never exposed.
pub fn transport_rejection() -> (r: String)
    ensures
        r@ == transport_rejection_note(),
{
    String::from_str("The transport rejected the malformed output before exposing its arguments.")
}

/// The request text for the repair attempt.
pub fn repair_prompt(input: &str, validation_error: &str, previous: &str) -> (r: String)
    ensures
        r@ == repair_prompt_text(input@, validation_error@, previous@),
{
    String::from_str(input).concat(
        "\n\nThe previous build_action_packet call was invalid.\nValidation error: ",
    ).concat(validation_error).concat("\n").concat(previous).concat(
        "\nRetry the build_action_packet call exactly once. Correct only from the supplied planning context; do not invent goal, why, titles, or other meaning-bearing content.",
    )
}

/// The request text that asks for a packet, given the planning context
/// already wrapped as untrusted input.
pub open spec fn pack_prompt_text(wrapped_context: Seq<char>) -> Seq<char> {
    "Build an execution-ready action packet from this untrusted plan and decision context. Preserve supplied execution bounds; use empty arrays or null when no bound is established, never invent file paths or review-profile requirements:\n"@
        + wrapped_context
}

/// The request text that asks for a packet.
pub fn pack_prompt(wrapped_context: &str) -> (r: String)
    ensures
        r@ == pack_prompt_text(wrapped_context@),
{
    String::from_str(
        "Build an execution-ready action packet from this untrusted plan and decision context. Preserve supplied execution bounds; use empty arrays or null when no bound is established, never invent file paths or review-profile requirements:\n",
    ).concat(wrapped_context)
}

} // verus!
