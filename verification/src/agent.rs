//! Local domain primitives for the Actions → Daruma contract.
//!
//! The host maps these onto the real Daruma types when wiring the layer.

use vstd::prelude::*;

use crate::packet::LinkedItem;

verus! {

/// Strongly-typed identifier for a Daruma project: a UUID (version 7 when
/// the host mints it from the clock), held as its 128-bit big-endian value.
/// Minting reads the clock and a random source, which is the host's part;
/// the library only carries the value.
#[derive(Clone, Copy, Debug, PartialEq, Eq, Hash, Structural)]
pub struct ProjectId {
    value: u128,
}

impl ProjectId {
    /// The 128-bit value of the identifier.
    pub closed spec fn spec_value(&self) -> u128 {
        self.value
    }

    /// The identifier with the given 128-bit value.
    pub fn from_u128(value: u128) -> (r: ProjectId)
        ensures
            r.spec_value() == value,
    {
        ProjectId { value }
    }

    /// The 128-bit value of the identifier.
    #[verifier::when_used_as_spec(spec_value)]
    pub fn as_u128(&self) -> (r: u128)
        ensures
            r == self.spec_value(),
    {
        self.value
    }
}

/// Who originates a Daruma operation.
#[derive(Clone, Copy, Debug, PartialEq, Eq, Structural)]
pub enum ActorKind {
    User,
    Agent,
}

/// The originating agent or user for a Daruma operation.
#[derive(Clone, Debug, PartialEq, Eq)]
pub struct Actor {
    pub kind: ActorKind,
    /// Opaque string identifier (user-id, agent-id, etc.).
    pub id: String,
}

impl Actor {
    /// The human user, identified as `"user"`.
    pub fn user() -> (r: Actor)
        ensures
            r.kind == ActorKind::User,
            r.id@ == "user"@,
    {
        Actor { kind: ActorKind::User, id: String::from_str("user") }
    }

    /// The agent with the given id.
    pub fn agent(id: String) -> (r: Actor)
        ensures
            r.kind == ActorKind::Agent,
            r.id@ == id@,
    {
        Actor { kind: ActorKind::Agent, id }
    }
}

/// Input for creating a plan in Daruma.
#[derive(Clone, Debug, PartialEq, Eq)]
pub struct NewPlan {
    pub title: String,
    pub project_id: ProjectId,
    pub owner: Actor,
    pub goal: Option<String>,
    pub success_criteria: Option<Vec<String>>,
    /// Provenance lowered from the Action Packet's §13 `linked_*` fields via
    /// the handoff project; it survives the actions → execution hop.
    pub linked_decisions: Vec<LinkedItem>,
    pub linked_knowledge: Vec<LinkedItem>,
    pub linked_rejected: Vec<LinkedItem>,
}

impl NewPlan {
    /// A plan with the given title, project and owner, and nothing else set.
    pub fn new(title: String, project_id: ProjectId, owner: Actor) -> (r: NewPlan)
        ensures
            r.title@ == title@,
            r.project_id == project_id,
            r.owner == owner,
            r.goal is None,
            r.success_criteria is None,
            r.linked_decisions@.len() == 0,
            r.linked_knowledge@.len() == 0,
            r.linked_rejected@.len() == 0,
    {
        NewPlan {
            title,
            project_id,
            owner,
            goal: None,
            success_criteria: None,
            linked_decisions: Vec::new(),
            linked_knowledge: Vec::new(),
            linked_rejected: Vec::new(),
        }
    }
}

/// Input for creating a task in Daruma.
#[derive(Clone, Debug, PartialEq, Eq)]
pub struct NewTask {
    pub title: String,
    pub project_id: Option<ProjectId>,
    pub description: Option<String>,
}

impl NewTask {
    /// A task with the given title, and no project or description.
    pub fn new(title: String) -> (r: NewTask)
        ensures
            r.title@ == title@,
            r.project_id is None,
            r.description is None,
    {
        NewTask { title, project_id: None, description: None }
    }
}

} // verus!
