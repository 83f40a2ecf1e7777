//! The crossing into Daruma (manifest §16).
//!
//! A [`HandoffPacket`] may only be built from a *mature* Action Packet, and
//! each [`HandoffProject`] it carries lowers onto Daruma's local intake
//! contract: a [`NewPlan`] plus the [`NewTask`] rows it owns. Actions never
//! writes to storage itself.

use vstd::prelude::*;

use crate::agent::{Actor, NewPlan, NewTask, ProjectId};
use crate::error::ActionsError;
use crate::maturity::{assess, is_mature, FujinStrictness, lemma_ready_iff_mature, missing_fields, Maturity};
use crate::packet::{ActionPacket, HandoffPacket, HandoffProject, LinkedItem, TaskCandidate};
use crate::text::{join, joined};

verus! {

/// The refusal text for an immature packet with the given missing fields.
pub open spec fn not_mature_message(missing: Seq<Seq<char>>) -> Seq<char> {
    "action packet is not mature; missing §13 fields: "@ + joined(missing, ", "@)
}

/// Build a [`HandoffPacket`] from a packet's projects, refusing if the
/// packet is not yet mature.
///
/// `projects` may be empty: that is the legitimate "an idea may spawn no
/// project" outcome (§16). Maturity is still required.
pub fn to_handoff(packet: &ActionPacket, projects: Vec<HandoffProject>) -> (r: Result<
    HandoffPacket,
    ActionsError,
>)
    ensures
        r is Ok <==> is_mature(*packet),
        r matches Ok(h) ==> h.projects@ == projects@,
        r matches Err(e) ==> e matches ActionsError::Validation(m) && m@ == not_mature_message(
            missing_fields(*packet),
        ),
{
    let verdict = assess(packet);
    proof {
        lemma_ready_iff_mature(*packet, FujinStrictness::Strict, verdict);
    }
    match verdict {
        Maturity::Ready => Ok(HandoffPacket { projects }),
        Maturity::NotReady { missing } => {
            let msg = String::from_str("action packet is not mature; missing §13 fields: ").concat(
                join(&missing, ", ").as_str(),
            );
            Err(ActionsError::validation(msg))
        },
    }
}

/// A lowered project: the local `NewPlan` and the `NewTask` rows the caller
/// dispatches against Daruma.
pub struct NewPlanWithTasks {
    pub plan: NewPlan,
    pub tasks: Vec<NewTask>,
}

/// `task` is the lowering of `candidate` into the project `project_id`.
pub open spec fn lowers_task(candidate: TaskCandidate, project_id: ProjectId, task: NewTask) -> bool {
    &&& task.title@ == candidate.title@
    &&& task.project_id == Some(project_id)
    &&& task.description matches Some(d) && d@ == candidate.description@
}

fn lower_tasks(candidates: &Vec<TaskCandidate>, project_id: ProjectId) -> (r: Vec<NewTask>)
    ensures
        r@.len() == candidates@.len(),
        forall|i: int| 0 <= i < r@.len() ==> lowers_task(candidates@[i], project_id, #[trigger] r@[i]),
{
    let mut tasks: Vec<NewTask> = Vec::new();
    let mut i: usize = 0;
    while i < candidates.len()
        invariant
            i <= candidates.len(),
            tasks@.len() == i,
            forall|j: int|
                0 <= j < i ==> lowers_task(candidates@[j], project_id, #[trigger] tasks@[j]),
        decreases candidates.len() - i,
    {
        let candidate = &candidates[i];
        let mut task = NewTask::new(candidate.title.clone());
        task.project_id = Some(project_id);
        task.description = Some(candidate.description.clone());
        tasks.push(task);
        i = i + 1;
    }
    tasks
}

fn copy_links(links: &Vec<LinkedItem>) -> (r: Vec<LinkedItem>)
    ensures
        r@ == links@,
{
    let r = links.clone();
    assert(r@ =~= links@);
    r
}

fn copy_texts(items: &Vec<String>) -> (r: Vec<String>)
    ensures
        r@ == items@,
{
    let r = items.clone();
    assert(r@ =~= items@);
    r
}

/// Lower one [`HandoffProject`] onto the local intake contract: a
/// [`NewPlan`] carrying the project's title, goal, success criteria and
/// provenance, plus one [`NewTask`] per task candidate, in order.
pub fn into_new_plan(project: &HandoffProject, project_id: ProjectId, owner: Actor) -> (r:
    NewPlanWithTasks)
    ensures
        r.plan.title@ == project.plan_title@,
        r.plan.project_id == project_id,
        r.plan.owner == owner,
        r.plan.goal matches Some(g) && g@ == project.goal@,
        r.plan.success_criteria matches Some(c) && c@ == project.success_criteria@,
        r.plan.linked_decisions@ == project.linked_decisions@,
        r.plan.linked_knowledge@ == project.linked_knowledge@,
        r.plan.linked_rejected@ == project.linked_rejected@,
        r.tasks@.len() == project.tasks@.len(),
        forall|i: int|
            0 <= i < r.tasks@.len() ==> lowers_task(project.tasks@[i], project_id, #[trigger] r.tasks@[i]),
        forall|i: int|
            0 <= i < r.tasks@.len() ==> (#[trigger] r.tasks@[i]).title@ == project.tasks@[i].title@
                && r.tasks@[i].project_id == Some(project_id) && r.tasks@[i].description is Some
                && r.tasks@[i].description->0@ == project.tasks@[i].description@,
{
    let mut plan = NewPlan::new(project.plan_title.clone(), project_id, owner);
    plan.goal = Some(project.goal.clone());
    plan.success_criteria = Some(copy_texts(&project.success_criteria));
    plan.linked_decisions = copy_links(&project.linked_decisions);
    plan.linked_knowledge = copy_links(&project.linked_knowledge);
    plan.linked_rejected = copy_links(&project.linked_rejected);
    let tasks = lower_tasks(&project.tasks, project_id);
    NewPlanWithTasks { plan, tasks }
}

} // verus!
