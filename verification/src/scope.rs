//! What every audit record carries: its severity, its phase and the scope of
//! the execution it belongs to.

use vstd::prelude::*;
use crate::ids::{ArtifactId, ClusterId, ExecutionId, JourneyId, MessageId, NodeId};

verus! {

#[derive(Clone, Copy, Debug, PartialEq, Eq, Structural)]
pub enum Severity {
    Information,
    Warning,
    Error,
}

#[derive(Clone, Copy, Debug, PartialEq, Eq, Structural)]
pub enum ExecutionPhase {
    Begin,
    Execute,
    Finished,
    Failure,
}

/// The artifact an execution runs.
#[derive(Clone, Debug, PartialEq, Eq)]
pub struct ArtifactRef {
    pub artifact_id: ArtifactId,
    pub artifact_type: &'static str,
    pub name: String,
    pub version: Option<String>,
}

/// Where an execution happens: which execution, of which Journey and
/// Message, running which artifact, and on which node and cluster.
#[derive(Clone, Debug, PartialEq, Eq)]
pub struct ExecutionScope {
    pub execution_id: ExecutionId,
    pub journey_id: JourneyId,
    pub message_id: MessageId,
    pub artifact: ArtifactRef,
    pub node_id: Option<NodeId>,
    pub cluster_id: Option<ClusterId>,
}

} // verus!
