//! The checks a replica makes on a replicated operation before applying it,
//! and the check the primary makes on what the replica answered.
use vstd::prelude::*;
use crate::steelsearch::{
    SteelsearchReplicaOperationKindWire, SteelsearchReplicaOperationResponseWire,
    SteelsearchRetentionLeaseWire,
};

verus! {

/// One operation replicated from the primary to a replica. `source` holds the
/// document's JSON text, where the operation carries one.
#[derive(Clone, Debug, PartialEq, Eq)]
pub struct SteelsearchReplicaOperationWire {
    pub op_type: SteelsearchReplicaOperationKindWire,
    pub id: String,
    pub source: Option<String>,
    pub noop_reason: Option<String>,
}

/// A replicated write operation with the primary's replication progress.
#[derive(Clone, Debug, PartialEq, Eq)]
pub struct SteelsearchReplicaOperationRequestWire {
    pub index: String,
    pub shard_id: u32,
    pub target_node: String,
    pub primary_node: String,
    pub allocation_id: String,
    pub seq_no: i64,
    pub primary_term: u64,
    pub version: u64,
    pub global_checkpoint: i64,
    pub local_checkpoint: i64,
    pub retention_leases: Vec<SteelsearchRetentionLeaseWire>,
    pub operation: SteelsearchReplicaOperationWire,
}

/// Why a replicated operation or its answer is refused.
#[derive(Debug, PartialEq, Eq)]
pub enum ReplicaReplicationValidationError {
    /// The request comes from an older primary term than the replica knows.
    StalePrimaryTerm { local: u64, remote: u64 },
    /// The request's sequence number is at or below the local checkpoint of
    /// the current primary term.
    StaleSeqNo { checkpoint: i64, remote: i64 },
    /// The replica did not apply the operation, or reported a failure.
    PartialReplication { result: String, failure: Option<String> },
}

/// The outcome of the progress check, over the request's primary term and
/// sequence number and the replica's own term and checkpoint.
pub enum ProgressCheck {
    Accepted,
    StalePrimaryTerm { local: u64, remote: u64 },
    StaleSeqNo { checkpoint: i64, remote: i64 },
}

/// A request from an older term is stale; in the same term, one at or below
/// the local checkpoint is stale; anything else may be applied.
pub open spec fn replica_progress(
    remote_term: u64,
    remote_seq_no: i64,
    current_primary_term: u64,
    local_checkpoint: i64,
) -> ProgressCheck {
    if remote_term < current_primary_term {
        ProgressCheck::StalePrimaryTerm { local: current_primary_term, remote: remote_term }
    } else if remote_term == current_primary_term && remote_seq_no <= local_checkpoint {
        ProgressCheck::StaleSeqNo { checkpoint: local_checkpoint, remote: remote_seq_no }
    } else {
        ProgressCheck::Accepted
    }
}

/// Whether a check result is the error that the progress outcome names.
pub open spec fn matches_progress(
    r: Result<(), ReplicaReplicationValidationError>,
    p: ProgressCheck,
) -> bool {
    match p {
        ProgressCheck::Accepted => r is Ok,
        ProgressCheck::StalePrimaryTerm { local, remote } => r == Err::<
            (),
            ReplicaReplicationValidationError,
        >(ReplicaReplicationValidationError::StalePrimaryTerm { local, remote }),
        ProgressCheck::StaleSeqNo { checkpoint, remote } => r == Err::<
            (),
            ReplicaReplicationValidationError,
        >(ReplicaReplicationValidationError::StaleSeqNo { checkpoint, remote }),
    }
}

/// Checks that a replicated operation is not older than what the replica has
/// already seen: its primary term must not be behind the replica's, and in
/// the replica's own term its sequence number must lie above the local
/// checkpoint.
pub fn validate_replica_operation_request_progress(
    request: &SteelsearchReplicaOperationRequestWire,
    current_primary_term: u64,
    local_checkpoint: i64,
) -> (r: Result<(), ReplicaReplicationValidationError>)
    ensures
        matches_progress(
            r,
            replica_progress(
                request.primary_term,
                request.seq_no,
                current_primary_term,
                local_checkpoint,
            ),
        ),
{
    if request.primary_term < current_primary_term {
        return Err(
            ReplicaReplicationValidationError::StalePrimaryTerm {
                local: current_primary_term,
                remote: request.primary_term,
            },
        );
    }
    if request.primary_term == current_primary_term && request.seq_no <= local_checkpoint {
        return Err(
            ReplicaReplicationValidationError::StaleSeqNo {
                checkpoint: local_checkpoint,
                remote: request.seq_no,
            },
        );
    }
    Ok(())
}

/// A copy of an optional string.
fn clone_optional_string(o: &Option<String>) -> (c: Option<String>)
    ensures
        c == *o,
{
    match o {
        Some(s) => Some(s.clone()),
        None => None,
    }
}

/// Checks that a replica applied the operation without failure; otherwise
/// refuses with the replica's result and failure.
pub fn validate_replica_operation_response(response: &SteelsearchReplicaOperationResponseWire) -> (r:
    Result<(), ReplicaReplicationValidationError>)
    ensures
        r is Ok <==> response.applied && response.failure is None,
        !(response.applied && response.failure is None) ==> r == Err::<
            (),
            ReplicaReplicationValidationError,
        >(
            ReplicaReplicationValidationError::PartialReplication {
                result: response.result,
                failure: response.failure,
            },
        ),
{
    if !response.applied || response.failure.is_some() {
        return Err(
            ReplicaReplicationValidationError::PartialReplication {
                result: response.result.clone(),
                failure: clone_optional_string(&response.failure),
            },
        );
    }
    Ok(())
}

} // verus!
