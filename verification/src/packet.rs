//! Actions-layer primitives: the maturity boundary between deliberation and
//! execution (manifest §6.5, §13, §16).
//!
//! The central object is the [`ActionPacket`]: a packet of work that has
//! ripened to the point of execution. Only a *mature* packet (see
//! [`crate::maturity`]) may cross into Daruma.

use vstd::prelude::*;

verus! {

/// A document the executor must have on hand ("обязательные документы",
/// §13). `uri` points at the source of truth; `title` is a human label.
#[derive(Debug, PartialEq, Eq)]
pub struct RequiredDocument {
    pub title: String,
    pub uri: String,
}

impl Clone for RequiredDocument {
    fn clone(&self) -> (r: RequiredDocument)
        ensures
            r == *self,
    {
        RequiredDocument { title: self.title.clone(), uri: self.uri.clone() }
    }
}

/// A typed back-reference into the upper layers: the provenance of a packet
/// (manifest §6, "родословная задач").
#[derive(Debug, PartialEq, Eq)]
pub struct LinkedItem {
    /// Stable id in the originating layer (decision id, knowledge id, …).
    pub id: String,
    /// Human label for the link.
    pub label: String,
}

impl Clone for LinkedItem {
    fn clone(&self) -> (r: LinkedItem)
        ensures
            r == *self,
    {
        LinkedItem { id: self.id.clone(), label: self.label.clone() }
    }
}

/// A guard that must hold before a step may start or be considered complete
/// (§13). Free-form text: Actions states the rule, Daruma enforces it.
#[derive(Debug, PartialEq, Eq)]
pub struct Gate {
    pub rule: String,
}

impl Clone for Gate {
    fn clone(&self) -> (r: Gate)
        ensures
            r == *self,
    {
        Gate { rule: self.rule.clone() }
    }
}

/// Scoped write authority handed to the executor. Part of the bounded
/// execution envelope, not of the §13 contract: an empty value means the
/// envelope was not set.
#[derive(Clone, Debug, PartialEq, Eq)]
pub struct TargetFiles {
    /// Paths the executor owns and may write.
    pub owned: Vec<String>,
    /// Paths the executor may read but not write.
    pub read_only: Vec<String>,
    /// Paths explicitly out of bounds for this packet.
    pub forbidden: Vec<String>,
}

impl TargetFiles {
    /// The envelope that sets no bound at all.
    pub open spec fn spec_is_empty(&self) -> bool {
        &&& self.owned@.len() == 0
        &&& self.read_only@.len() == 0
        &&& self.forbidden@.len() == 0
    }

    /// Whether no path list is set (the envelope is absent).
    #[verifier::when_used_as_spec(spec_is_empty)]
    pub fn is_empty(&self) -> (r: bool)
        ensures
            r == self.spec_is_empty(),
    {
        self.owned.len() == 0 && self.read_only.len() == 0 && self.forbidden.len() == 0
    }

    /// The unset envelope.
    pub fn empty() -> (r: TargetFiles)
        ensures
            r.spec_is_empty(),
    {
        TargetFiles { owned: Vec::new(), read_only: Vec::new(), forbidden: Vec::new() }
    }
}

impl Default for TargetFiles {
    fn default() -> (r: TargetFiles)
        ensures
            r.spec_is_empty(),
    {
        TargetFiles::empty()
    }
}

/// The §13 Action Packet: the boundary object between the thinking layers
/// and execution. An under-filled packet is still a valid value, only not
/// mature.
#[derive(Clone, Debug, PartialEq, Eq)]
pub struct ActionPacket {
    /// цель — what outcome this packet exists to produce.
    pub goal: String,
    /// контекст — situational background the executor needs.
    pub context: String,
    /// что нужно сделать — the concrete work to perform.
    pub do_items: Vec<String>,
    /// почему это нужно — the rationale.
    pub why: String,
    /// что не нужно делать — explicit non-goals.
    pub do_not: Vec<String>,
    /// критерии завершения — verifiable completion criteria.
    pub completion_criteria: Vec<String>,
    /// ограничения — constraints the work must respect.
    pub constraints: Vec<String>,
    /// риски — known risks.
    pub risks: Vec<String>,
    /// зависимости — prerequisites / blockers.
    pub dependencies: Vec<String>,
    /// обязательные документы — required reference material.
    pub required_documents: Vec<RequiredDocument>,
    /// связанные решения — decisions this packet implements.
    pub linked_decisions: Vec<LinkedItem>,
    /// связанные знания — knowledge this packet draws on.
    pub linked_knowledge: Vec<LinkedItem>,
    /// связанные отбракованные варианты — rejected alternatives.
    pub linked_rejected: Vec<LinkedItem>,
    /// ожидаемые артефакты — what the work should produce.
    pub expected_artifacts: Vec<String>,
    /// правила перед стартом — gates checked before work begins.
    pub before_start: Vec<Gate>,
    /// правила перед завершением — gates checked before completion.
    pub before_complete: Vec<Gate>,
    // Bounded execution envelope: scoping on top of the §13 contract, not
    // checked by the maturity gate.
    /// границы правки — paths the executor owns, may read, or must not touch.
    pub target_files: TargetFiles,
    /// политика при конфликте — how to resolve a conflicting concurrent edit.
    pub conflict_policy: Option<String>,
    /// обязательные проверки — checks that must pass before completion.
    pub required_checks: Vec<String>,
    /// профиль ревьюера — the review profile prescribed for the output, if any.
    pub reviewer_profile: Option<String>,
}

impl ActionPacket {
    /// Every field empty: no text, no list entry, no envelope.
    pub open spec fn spec_is_blank_packet(&self) -> bool {
        &&& self.goal@.len() == 0
        &&& self.context@.len() == 0
        &&& self.do_items@.len() == 0
        &&& self.why@.len() == 0
        &&& self.do_not@.len() == 0
        &&& self.completion_criteria@.len() == 0
        &&& self.constraints@.len() == 0
        &&& self.risks@.len() == 0
        &&& self.dependencies@.len() == 0
        &&& self.required_documents@.len() == 0
        &&& self.linked_decisions@.len() == 0
        &&& self.linked_knowledge@.len() == 0
        &&& self.linked_rejected@.len() == 0
        &&& self.expected_artifacts@.len() == 0
        &&& self.before_start@.len() == 0
        &&& self.before_complete@.len() == 0
        &&& self.target_files.spec_is_empty()
        &&& self.conflict_policy is None
        &&& self.required_checks@.len() == 0
        &&& self.reviewer_profile is None
    }

    /// The empty packet.
    pub fn empty() -> (r: ActionPacket)
        ensures
            r.spec_is_blank_packet(),
    {
        ActionPacket {
            goal: String::new(),
            context: String::new(),
            do_items: Vec::new(),
            why: String::new(),
            do_not: Vec::new(),
            completion_criteria: Vec::new(),
            constraints: Vec::new(),
            risks: Vec::new(),
            dependencies: Vec::new(),
            required_documents: Vec::new(),
            linked_decisions: Vec::new(),
            linked_knowledge: Vec::new(),
            linked_rejected: Vec::new(),
            expected_artifacts: Vec::new(),
            before_start: Vec::new(),
            before_complete: Vec::new(),
            target_files: TargetFiles::empty(),
            conflict_policy: None,
            required_checks: Vec::new(),
            reviewer_profile: None,
        }
    }
}

impl Default for ActionPacket {
    fn default() -> (r: ActionPacket)
        ensures
            r.spec_is_blank_packet(),
    {
        ActionPacket::empty()
    }
}

/// A single executable unit carved out of an Action Packet (§6.5).
#[derive(Clone, Debug, PartialEq, Eq)]
pub struct WorkOrder {
    pub title: String,
    pub instructions: String,
    pub completion_criteria: Vec<String>,
}

/// A proposed-but-not-yet-committed task (§6.5). It lives in Actions until a
/// [`HandoffPacket`] commits it.
#[derive(Debug, PartialEq, Eq)]
pub struct TaskCandidate {
    pub title: String,
    pub description: String,
}

impl Clone for TaskCandidate {
    fn clone(&self) -> (r: TaskCandidate)
        ensures
            r == *self,
    {
        TaskCandidate { title: self.title.clone(), description: self.description.clone() }
    }
}

/// One ordered step within a [`WorkOrder`] (§6.5).
#[derive(Clone, Debug, PartialEq, Eq)]
pub struct ExecutionStep {
    pub order: u32,
    pub action: String,
}

/// The committed crossing into Daruma (§6.5, §16), produced only from a
/// mature Action Packet. A packet may yield one, several, or zero projects.
#[derive(Clone, Debug, PartialEq, Eq)]
pub struct HandoffPacket {
    /// Projects to create in Daruma (0, 1, or many — §16).
    pub projects: Vec<HandoffProject>,
}

/// A single project's worth of execution work, shaped to Daruma's
/// `NewPlan` / `NewTask` contract, with the packet's provenance scoped to it.
#[derive(Clone, Debug, PartialEq, Eq)]
pub struct HandoffProject {
    pub project_title: String,
    pub plan_title: String,
    pub goal: String,
    pub success_criteria: Vec<String>,
    pub tasks: Vec<TaskCandidate>,
    /// Provenance carried over from the packet's §13 `linked_*` fields.
    pub linked_decisions: Vec<LinkedItem>,
    pub linked_knowledge: Vec<LinkedItem>,
    pub linked_rejected: Vec<LinkedItem>,
}

impl HandoffProject {
    /// A project whose every field is empty.
    pub open spec fn spec_is_blank_project(&self) -> bool {
        &&& self.project_title@.len() == 0
        &&& self.plan_title@.len() == 0
        &&& self.goal@.len() == 0
        &&& self.success_criteria@.len() == 0
        &&& self.tasks@.len() == 0
        &&& self.linked_decisions@.len() == 0
        &&& self.linked_knowledge@.len() == 0
        &&& self.linked_rejected@.len() == 0
    }
}

impl Default for HandoffProject {
    fn default() -> (r: HandoffProject)
        ensures
            r.spec_is_blank_project(),
    {
        HandoffProject {
            project_title: String::new(),
            plan_title: String::new(),
            goal: String::new(),
            success_criteria: Vec::new(),
            tasks: Vec::new(),
            linked_decisions: Vec::new(),
            linked_knowledge: Vec::new(),
            linked_rejected: Vec::new(),
        }
    }
}

} // verus!
