use vstd::prelude::*;
use crate::routes::CircuitType;
use crate::status::{SindriTaskStatus, TaskStatus};
use crate::vk::VerificationKey;

verus! {

/// Request for the verification keys of a set of circuit kinds at a protocol
/// version.
#[derive(Debug)]
pub struct GetVkRequest {
    pub circuit_types: Vec<CircuitType>,
    pub circuit_version: String,
}

/// The keys obtained, in order of first appearance and without duplicates,
/// with the error that stopped collection early, if any.
#[derive(Debug)]
pub struct GetVkResponse {
    pub vks: Vec<String>,
    pub error: Option<String>,
}

/// Request to submit one proof computation.
#[derive(Debug)]
pub struct ProveRequest {
    pub circuit_type: CircuitType,
    pub circuit_version: String,
    pub hard_fork_name: String,
    pub input: String,
}

/// Outcome of a proof submission. Timestamps are milliseconds since the
/// epoch; a `None` means the backend did not report the ingredient, and in a
/// constructed failure response zero stands for "unknown".
#[derive(Debug)]
pub struct ProveResponse {
    pub task_id: String,
    pub circuit_type: CircuitType,
    pub circuit_version: String,
    pub hard_fork_name: String,
    pub status: TaskStatus,
    pub created_at: u64,
    pub started_at: Option<u64>,
    pub finished_at: Option<u64>,
    pub compute_time_ms: Option<u64>,
    pub input: Option<String>,
    pub proof: Option<String>,
    pub vk: Option<String>,
    pub error: Option<String>,
}

/// Request for the state of one submitted proof task.
#[derive(Debug)]
pub struct QueryTaskRequest {
    pub task_id: String,
}

/// State of one submitted proof task, shaped as [`ProveResponse`] is.
#[derive(Debug)]
pub struct QueryTaskResponse {
    pub task_id: String,
    pub circuit_type: CircuitType,
    pub circuit_version: String,
    pub hard_fork_name: String,
    pub status: TaskStatus,
    pub created_at: u64,
    pub started_at: Option<u64>,
    pub finished_at: Option<u64>,
    pub compute_time_ms: Option<u64>,
    pub input: Option<String>,
    pub proof: Option<String>,
    pub vk: Option<String>,
    pub error: Option<String>,
}

/// The fields of the backend's proof-detail body that the adapter reads.
/// Times are milliseconds; `proof` is the field's compact JSON text, absent
/// where the field is absent.
#[derive(Debug)]
pub struct SindriProofInfoResponse {
    pub proof_id: String,
    pub status: SindriTaskStatus,
    pub date_created: String,
    pub queue_time_ms: Option<u64>,
    pub compute_time_ms: Option<u64>,
    pub proof: Option<String>,
    pub verification_key: Option<VerificationKey>,
    pub error: Option<String>,
}

} // verus!
