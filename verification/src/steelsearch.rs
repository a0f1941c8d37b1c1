//! The internal recovery and replication messages exchanged between nodes of
//! this cluster. Their bodies are JSON documents, framed by the action
//! message codecs.
use vstd::prelude::*;

verus! {

/// A chunk of a file sent during peer recovery.
#[derive(Clone, Debug, PartialEq, Eq)]
pub struct SteelsearchRecoveryChunkRequestWire {
    pub recovery_id: String,
    pub index: String,
    pub shard_id: u32,
    pub file_name: String,
    pub offset: u64,
    pub data: Vec<u8>,
    pub last_chunk: bool,
    pub checksum: Option<String>,
}

/// The last step of a peer recovery.
#[derive(Clone, Debug, PartialEq, Eq)]
pub struct SteelsearchRecoveryFinalizeRequestWire {
    pub recovery_id: String,
    pub index: String,
    pub shard_id: u32,
    pub allocation_id: String,
    pub global_checkpoint: i64,
    pub max_seq_no: i64,
}

/// The cancellation of a peer recovery.
#[derive(Clone, Debug, PartialEq, Eq)]
pub struct SteelsearchRecoveryCancelRequestWire {
    pub recovery_id: String,
    pub index: String,
    pub shard_id: u32,
    pub reason: String,
}

/// The answer to a peer recovery request.
#[derive(Clone, Debug, PartialEq, Eq)]
pub struct SteelsearchRecoveryResponseWire {
    pub recovery_id: String,
    pub accepted: bool,
    pub phase: String,
    pub message: Option<String>,
}

/// A retention lease held on a shard copy.
#[derive(Clone, Debug, PartialEq, Eq)]
pub struct SteelsearchRetentionLeaseWire {
    pub id: String,
    pub retaining_sequence_number: i64,
    pub source: String,
    pub timestamp_millis: u64,
}

/// The kind of an operation replicated to a replica.
#[derive(Clone, Copy, Debug, PartialEq, Eq, Structural)]
pub enum SteelsearchReplicaOperationKindWire {
    Index,
    Delete,
    Noop,
}

/// What a replica reports after applying a replicated operation.
#[derive(Clone, Debug, PartialEq, Eq)]
pub struct SteelsearchReplicaOperationResponseWire {
    pub index: String,
    pub shard_id: u32,
    pub target_node: String,
    pub seq_no: i64,
    pub primary_term: u64,
    pub version: u64,
    pub global_checkpoint: i64,
    pub applied: bool,
    pub result: String,
    pub failure: Option<String>,
}

} // verus!
