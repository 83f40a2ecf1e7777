//! The PlanBrief (§15) as the planning layer hands it over, and its mapping
//! onto an Action Packet (§13).

use vstd::prelude::*;

use crate::packet::{ActionPacket, LinkedItem, RequiredDocument, TargetFiles};

verus! {

/// The fields of a PlanBrief (§15) that the Actions layer reads. Text fields
/// absent from the wire form are empty; list fields hold only the string
/// entries of the wire form, in order.
#[derive(Clone, Debug, PartialEq, Eq)]
pub struct PlanBrief {
    pub goal: String,
    pub daruma_target: String,
    pub in_scope: Vec<String>,
    pub why_now: String,
    pub out_of_scope: Vec<String>,
    pub completion_criteria: Vec<String>,
    pub constraints: Vec<String>,
    pub risks: Vec<String>,
    pub dependencies: Vec<String>,
    pub required_artifacts: Vec<String>,
    pub decisions_made: Vec<String>,
    pub knowledge_base: Vec<String>,
    pub rejected_alternatives: Vec<String>,
}

impl PlanBrief {
    /// A brief with every field empty.
    pub open spec fn spec_is_blank_brief(&self) -> bool {
        &&& self.goal@.len() == 0
        &&& self.daruma_target@.len() == 0
        &&& self.in_scope@.len() == 0
        &&& self.why_now@.len() == 0
        &&& self.out_of_scope@.len() == 0
        &&& self.completion_criteria@.len() == 0
        &&& self.constraints@.len() == 0
        &&& self.risks@.len() == 0
        &&& self.dependencies@.len() == 0
        &&& self.required_artifacts@.len() == 0
        &&& self.decisions_made@.len() == 0
        &&& self.knowledge_base@.len() == 0
        &&& self.rejected_alternatives@.len() == 0
    }

    /// The brief with nothing in it.
    pub fn empty() -> (r: PlanBrief)
        ensures
            r.spec_is_blank_brief(),
    {
        PlanBrief {
            goal: String::new(),
            daruma_target: String::new(),
            in_scope: Vec::new(),
            why_now: String::new(),
            out_of_scope: Vec::new(),
            completion_criteria: Vec::new(),
            constraints: Vec::new(),
            risks: Vec::new(),
            dependencies: Vec::new(),
            required_artifacts: Vec::new(),
            decisions_made: Vec::new(),
            knowledge_base: Vec::new(),
            rejected_alternatives: Vec::new(),
        }
    }
}

impl Default for PlanBrief {
    fn default() -> (r: PlanBrief)
        ensures
            r.spec_is_blank_brief(),
    {
        PlanBrief::empty()
    }
}

/// The address under which a brief's required artifact is referenced.
pub open spec fn artifact_uri(title: Seq<char>) -> Seq<char> {
    "artifact://"@ + title
}

/// One link per id, in order, each labelled with its own id.
pub open spec fn linked_ids(ids: Seq<String>) -> Seq<LinkedItem> {
    ids.map_values(|id: String| LinkedItem { id: id, label: id })
}

/// `docs` has one document per artifact title, in order, addressed as
/// `artifact://<title>`.
pub open spec fn documents_of_artifacts(titles: Seq<String>, docs: Seq<RequiredDocument>) -> bool {
    &&& docs.len() == titles.len()
    &&& forall|i: int|
        0 <= i < docs.len() ==> (#[trigger] docs[i]).title@ == titles[i]@ && docs[i].uri@
            == artifact_uri(titles[i]@)
}

/// `p` is the packet that `brief` maps to: the §15 fields are carried over
/// under their §13 names, and everything else, the execution envelope
/// included, is left empty.
pub open spec fn packet_of_brief(brief: PlanBrief, p: ActionPacket) -> bool {
    &&& p.goal@ == brief.goal@
    &&& p.context@ == brief.daruma_target@
    &&& p.do_items@ == brief.in_scope@
    &&& p.why@ == brief.why_now@
    &&& p.do_not@ == brief.out_of_scope@
    &&& p.completion_criteria@ == brief.completion_criteria@
    &&& p.constraints@ == brief.constraints@
    &&& p.risks@ == brief.risks@
    &&& p.dependencies@ == brief.dependencies@
    &&& documents_of_artifacts(brief.required_artifacts@, p.required_documents@)
    &&& p.linked_decisions@ == linked_ids(brief.decisions_made@)
    &&& p.linked_knowledge@ == linked_ids(brief.knowledge_base@)
    &&& p.linked_rejected@ == linked_ids(brief.rejected_alternatives@)
    &&& p.expected_artifacts@.len() == 0
    &&& p.before_start@.len() == 0
    &&& p.before_complete@.len() == 0
    &&& p.target_files.spec_is_empty()
    &&& p.conflict_policy is None
    &&& p.required_checks@.len() == 0
    &&& p.reviewer_profile is None
}

/// Every id of `ids` becomes exactly one link, in order, whose id and label
/// are both that id: the links are as many as the ids.
pub proof fn lemma_linked_ids_one_per_id(ids: Seq<String>)
    ensures
        linked_ids(ids).len() == ids.len(),
        forall|i: int|
            0 <= i < ids.len() ==> (#[trigger] linked_ids(ids)[i]).id@ == ids[i]@ && linked_ids(
                ids,
            )[i].label@ == ids[i]@,
{
}

/// The packet mapped from a brief carries one linked decision per entry of
/// `decisions_made`, one linked knowledge item per entry of
/// `knowledge_base` and one rejected link per entry of
/// `rejected_alternatives`, in order, each with id and label equal to that
/// entry.
pub proof fn lemma_brief_links_one_per_entry(brief: PlanBrief, p: ActionPacket)
    requires
        packet_of_brief(brief, p),
    ensures
        p.linked_decisions@.len() == brief.decisions_made@.len(),
        p.linked_knowledge@.len() == brief.knowledge_base@.len(),
        p.linked_rejected@.len() == brief.rejected_alternatives@.len(),
        forall|i: int|
            0 <= i < brief.decisions_made@.len() ==> (#[trigger] p.linked_decisions@[i]).id@
                == brief.decisions_made@[i]@ && p.linked_decisions@[i].label@
                == brief.decisions_made@[i]@,
        forall|i: int|
            0 <= i < brief.knowledge_base@.len() ==> (#[trigger] p.linked_knowledge@[i]).id@
                == brief.knowledge_base@[i]@ && p.linked_knowledge@[i].label@
                == brief.knowledge_base@[i]@,
        forall|i: int|
            0 <= i < brief.rejected_alternatives@.len() ==> (#[trigger] p.linked_rejected@[i]).id@
                == brief.rejected_alternatives@[i]@ && p.linked_rejected@[i].label@
                == brief.rejected_alternatives@[i]@,
{
    lemma_linked_ids_one_per_id(brief.decisions_made@);
    lemma_linked_ids_one_per_id(brief.knowledge_base@);
    lemma_linked_ids_one_per_id(brief.rejected_alternatives@);
}

/// The packet mapped from a brief carries the brief's texts and lists under
/// their §13 names, unchanged: goal, `daruma_target` as context, `in_scope`
/// as do-items, `why_now` as why, `out_of_scope` as do-not, and the
/// completion criteria, constraints, risks and dependencies. Each required
/// artifact becomes one document, in order, titled by the artifact and
/// addressed as `artifact://` followed by its title. Nothing else is filled:
/// no expected artifacts, no gates and no execution envelope.
pub proof fn lemma_brief_fields_carried(brief: PlanBrief, p: ActionPacket)
    requires
        packet_of_brief(brief, p),
    ensures
        p.goal@ == brief.goal@,
        p.context@ == brief.daruma_target@,
        p.do_items@ == brief.in_scope@,
        p.why@ == brief.why_now@,
        p.do_not@ == brief.out_of_scope@,
        p.completion_criteria@ == brief.completion_criteria@,
        p.constraints@ == brief.constraints@,
        p.risks@ == brief.risks@,
        p.dependencies@ == brief.dependencies@,
        p.required_documents@.len() == brief.required_artifacts@.len(),
        forall|i: int|
            0 <= i < brief.required_artifacts@.len() ==> (#[trigger] p.required_documents@[i]).title@
                == brief.required_artifacts@[i]@ && p.required_documents@[i].uri@ == "artifact://"@
                + brief.required_artifacts@[i]@,
        p.expected_artifacts@.len() == 0,
        p.before_start@.len() == 0,
        p.before_complete@.len() == 0,
        p.target_files.owned@.len() == 0,
        p.target_files.read_only@.len() == 0,
        p.target_files.forbidden@.len() == 0,
        p.conflict_policy is None,
        p.required_checks@.len() == 0,
        p.reviewer_profile is None,
{
}

fn copy_texts(items: &Vec<String>) -> (r: Vec<String>)
    ensures
        r@ == items@,
{
    let r = items.clone();
    assert(r@ =~= items@);
    r
}

/// One link per id, each labelled with its own id.
pub fn links_from_ids(ids: &Vec<String>) -> (r: Vec<LinkedItem>)
    ensures
        r@ == linked_ids(ids@),
{
    let mut links: Vec<LinkedItem> = Vec::new();
    let mut i: usize = 0;
    while i < ids.len()
        invariant
            i <= ids.len(),
            links@ == linked_ids(ids@.take(i as int)),
        decreases ids.len() - i,
    {
        links.push(LinkedItem { id: ids[i].clone(), label: ids[i].clone() });
        assert(linked_ids(ids@.take(i + 1)) =~= linked_ids(ids@.take(i as int)).push(
            LinkedItem { id: ids@[i as int], label: ids@[i as int] },
        ));
        i = i + 1;
    }
    assert(ids@.take(ids.len() as int) =~= ids@);
    links
}

fn documents_from_artifacts(titles: &Vec<String>) -> (r: Vec<RequiredDocument>)
    ensures
        documents_of_artifacts(titles@, r@),
{
    let mut docs: Vec<RequiredDocument> = Vec::new();
    let mut i: usize = 0;
    while i < titles.len()
        invariant
            i <= titles.len(),
            docs@.len() == i,
            forall|j: int|
                0 <= j < i ==> (#[trigger] docs@[j]).title@ == titles@[j]@ && docs@[j].uri@
                    == artifact_uri(titles@[j]@),
        decreases titles.len() - i,
    {
        let uri = String::from_str("artifact://").concat(titles[i].as_str());
        docs.push(RequiredDocument { title: titles[i].clone(), uri });
        i = i + 1;
    }
    docs
}

/// Map a PlanBrief (§15) into an Action Packet (§13).
pub fn packet_from_brief(brief: &PlanBrief) -> (r: ActionPacket)
    ensures
        packet_of_brief(*brief, r),
{
    ActionPacket {
        goal: brief.goal.clone(),
        context: brief.daruma_target.clone(),
        do_items: copy_texts(&brief.in_scope),
        why: brief.why_now.clone(),
        do_not: copy_texts(&brief.out_of_scope),
        completion_criteria: copy_texts(&brief.completion_criteria),
        constraints: copy_texts(&brief.constraints),
        risks: copy_texts(&brief.risks),
        dependencies: copy_texts(&brief.dependencies),
        required_documents: documents_from_artifacts(&brief.required_artifacts),
        linked_decisions: links_from_ids(&brief.decisions_made),
        linked_knowledge: links_from_ids(&brief.knowledge_base),
        linked_rejected: links_from_ids(&brief.rejected_alternatives),
        expected_artifacts: Vec::new(),
        before_start: Vec::new(),
        before_complete: Vec::new(),
        target_files: TargetFiles::empty(),
        conflict_policy: None,
        required_checks: Vec::new(),
        reviewer_profile: None,
    }
}

} // verus!
