//! `fujin` — the Actions layer: the maturity boundary between deliberation
//! and execution (manifest §6.5, §13, §16).
//!
//! - Domain primitives stay storage-agnostic; persisting packets is the
//!   host's business.
//! - The maturity check ([`maturity::assess`]) is deterministic: the same
//!   packet always yields the same verdict.
//! - Errors propagate as [`error::ActionsError`].

pub mod agent;
pub mod brief;
pub mod error;
pub mod handoff;
pub mod maturity;
pub mod minimality;
pub mod pack;
pub mod packet;
pub mod service;
pub mod text;

pub use agent::{Actor, ActorKind, NewPlan, NewTask, ProjectId};
pub use brief::{packet_from_brief, PlanBrief};
pub use error::ActionsError;
pub use handoff::{into_new_plan, to_handoff, NewPlanWithTasks};
pub use maturity::{assess, assess_with, FujinStrictness, Maturity};
pub use minimality::{
    check_minimality, CodeActionMinimality, DebtMarker, DependencyJustification, EvidenceCheck,
    MinimalityCheck, MinimalityPolicy, MinimalityVerdict, ProtectedRequirements,
    M2_NO_MINIMALITY_CHECK, M3_NEW_DEP_UNJUSTIFIED, M4_PROTECTED_REQUIREMENT_CUT,
    M5_NONTRIVIAL_NO_EVIDENCE, M6_DEBT_MARKER_NO_CEILING, W1_DEBT_MARKER_NO_UPGRADE_TRIGGER,
    W2_NEED_NOT_ESTABLISHED,
};
pub use pack::{
    action_packet_arguments, after_arguments, after_parse, after_reply, complete_action_packet,
    drop_incomplete_provenance, merge_usage, AiOutput, AiUsage, PackStep, ProviderReply,
    SensingItem, ToolCall, UpstreamBounds,
};
pub use packet::{
    ActionPacket, ExecutionStep, Gate, HandoffPacket, HandoffProject, LinkedItem, RequiredDocument,
    TargetFiles, TaskCandidate, WorkOrder,
};
