//! Verified codecs for the OpenSearch-compatible TCP transport protocol.

pub mod status;
pub mod codec;
pub mod text;
pub mod stream;
pub mod smap;
pub mod stream_maps;
pub mod variable_header;
pub mod version;
pub mod tcp_header;
pub mod compression;
pub mod message;
pub mod frame;

pub use message::{TransportMessage, PING_FRAME};
pub mod action_names;
pub mod action_wire;
pub mod wire_fields;
pub mod dispatch;
pub mod indices_options;
pub mod admin_requests;
pub mod request_codecs;
pub mod action_frames;
pub mod admin_messages;
pub mod document_codecs;
pub mod document_messages;
pub mod task_requests;
pub mod document_requests;
pub mod steelsearch;
pub mod error_format;
pub mod error;
pub mod error_laws;
pub mod error_failures;
pub mod replication;
pub mod node_roles;
pub mod handshake;
pub mod engine_requests;
pub mod json_section;
pub mod json_messages;
pub mod get_response;
pub mod engine_responses;
pub mod multi_get_response;
pub mod cluster_state;
pub mod bulk_response;
pub mod pending_tasks;
