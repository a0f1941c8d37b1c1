//! Requests and responses of the document actions: get, multi-get, delete,
//! bulk and refresh.
use vstd::prelude::*;
use crate::action_wire::{TimeValueWire, TIME_UNIT_MINUTES};
use crate::indices_options::{strict_expand_open_forbid_closed_spec, OpenSearchIndicesOptionsWire};
use crate::text::owned;

verus! {

/// Version type ordinal of internal versioning.
pub const OPENSEARCH_VERSION_TYPE_INTERNAL: u8 = 0;
/// Version that matches any version.
pub const OPENSEARCH_MATCH_ANY_VERSION: i64 = -3;
/// Sequence number of an operation that has none yet.
pub const OPENSEARCH_UNASSIGNED_SEQ_NO: i64 = -2;
/// Primary term of an operation that has none yet.
pub const OPENSEARCH_UNASSIGNED_PRIMARY_TERM: i64 = 0;
/// Version reported for a document that was not found.
pub const OPENSEARCH_NOT_FOUND_VERSION: i64 = -1;
/// Active shard count meaning "the default".
pub const OPENSEARCH_ACTIVE_SHARD_COUNT_DEFAULT: i32 = -2;
/// Refresh policy ordinal of "do not refresh".
pub const OPENSEARCH_REFRESH_POLICY_NONE: u8 = 0;
/// Write request kind ordinal of an index request.
pub const OPENSEARCH_DOC_WRITE_REQUEST_INDEX: u8 = 0;
/// Write request kind ordinal of a delete request.
pub const OPENSEARCH_DOC_WRITE_REQUEST_DELETE: u8 = 1;
/// Write request kind ordinal of an update request.
pub const OPENSEARCH_DOC_WRITE_REQUEST_UPDATE: u8 = 2;
/// Operation type ordinal of an index operation.
pub const OPENSEARCH_DOC_WRITE_OP_TYPE_INDEX: u8 = 0;
/// Operation type ordinal of a delete operation.
pub const OPENSEARCH_DOC_WRITE_OP_TYPE_DELETE: u8 = 3;
/// Media type of a JSON document source.
pub const OPENSEARCH_JSON_MEDIA_TYPE: &'static str = "application/json";
/// Auto-generated timestamp of a request that has none.
pub const OPENSEARCH_UNSET_AUTO_GENERATED_TIMESTAMP: i64 = -1;
/// Write result ordinal of a created document.
pub const OPENSEARCH_DOC_WRITE_RESULT_CREATED: u8 = 0;
/// Write result ordinal of an updated document.
pub const OPENSEARCH_DOC_WRITE_RESULT_UPDATED: u8 = 1;
/// Write result ordinal of a deleted document.
pub const OPENSEARCH_DOC_WRITE_RESULT_DELETED: u8 = 2;
/// Write result ordinal of a document that was not found.
pub const OPENSEARCH_DOC_WRITE_RESULT_NOT_FOUND: u8 = 3;
/// Write result ordinal of a write that changed nothing.
pub const OPENSEARCH_DOC_WRITE_RESULT_NOOP: u8 = 4;
/// Ingest time reported when no ingest pipeline ran.
pub const OPENSEARCH_NO_INGEST_TOOK: i64 = -1;
/// Index uuid reported when it is not known.
pub const OPENSEARCH_UNKNOWN_INDEX_UUID: &'static str = "_na_";

/// A single-document index request. `source` holds the document's JSON
/// text.
#[derive(Clone, Debug, PartialEq, Eq)]
pub struct OpenSearchIndexRequestWire {
    pub parent_task_node: String,
    pub parent_task_id: Option<i64>,
    pub shard_id_present: bool,
    pub wait_for_active_shards: i32,
    pub timeout: TimeValueWire,
    pub index: String,
    pub routed_based_on_cluster_version: i64,
    pub refresh_policy: u8,
    pub id: Option<String>,
    pub routing: Option<String>,
    pub source: Vec<u8>,
    pub extra_field_values_present: bool,
    pub op_type: u8,
    pub version: i64,
    pub version_type: u8,
    pub pipeline: Option<String>,
    pub final_pipeline: Option<String>,
    pub system_ingest_pipeline: Option<String>,
    pub pipeline_resolved: bool,
    pub retry: bool,
    pub auto_generated_timestamp: i64,
    pub content_type: Option<String>,
    pub if_seq_no: i64,
    pub if_primary_term: i64,
    pub require_alias: bool,
}

impl OpenSearchIndexRequestWire {
    /// Indexes `source` as document `id` of `index`: any version, no
    /// routing, pipeline or concurrency check, the default shard wait and a
    /// one-minute timeout, with a JSON content type.
    pub fn new(index: String, id: String, source: Vec<u8>) -> (r: Self)
        ensures
            is_plain_index_request(r, index@, id@, source@),
    {
        OpenSearchIndexRequestWire {
            parent_task_node: String::new(),
            parent_task_id: None,
            shard_id_present: false,
            wait_for_active_shards: OPENSEARCH_ACTIVE_SHARD_COUNT_DEFAULT,
            timeout: TimeValueWire::minutes(1),
            index,
            routed_based_on_cluster_version: 0,
            refresh_policy: OPENSEARCH_REFRESH_POLICY_NONE,
            id: Some(id),
            routing: None,
            source,
            extra_field_values_present: false,
            op_type: OPENSEARCH_DOC_WRITE_OP_TYPE_INDEX,
            version: OPENSEARCH_MATCH_ANY_VERSION,
            version_type: OPENSEARCH_VERSION_TYPE_INTERNAL,
            pipeline: None,
            final_pipeline: None,
            system_ingest_pipeline: None,
            pipeline_resolved: false,
            retry: false,
            auto_generated_timestamp: OPENSEARCH_UNSET_AUTO_GENERATED_TIMESTAMP,
            content_type: Some(owned(OPENSEARCH_JSON_MEDIA_TYPE)),
            if_seq_no: OPENSEARCH_UNASSIGNED_SEQ_NO,
            if_primary_term: OPENSEARCH_UNASSIGNED_PRIMARY_TERM,
            require_alias: false,
        }
    }
}

/// Whether `d` is the index request that `new` builds for `source` as
/// document `id` of `index`.
pub open spec fn is_plain_index_request(d: OpenSearchIndexRequestWire, index: Seq<char>, id: Seq<char>, source: Seq<u8>) -> bool {
    &&& d.parent_task_node@.len() == 0
    &&& d.parent_task_id is None
    &&& !d.shard_id_present
    &&& d.wait_for_active_shards == OPENSEARCH_ACTIVE_SHARD_COUNT_DEFAULT
    &&& d.timeout == (TimeValueWire { duration: 1, time_unit_ordinal: TIME_UNIT_MINUTES })
    &&& d.index@ == index
    &&& d.routed_based_on_cluster_version == 0
    &&& d.refresh_policy == OPENSEARCH_REFRESH_POLICY_NONE
    &&& d.id matches Some(i) && i@ == id
    &&& d.routing is None
    &&& d.source@ == source
    &&& !d.extra_field_values_present
    &&& d.op_type == OPENSEARCH_DOC_WRITE_OP_TYPE_INDEX
    &&& d.version == OPENSEARCH_MATCH_ANY_VERSION
    &&& d.version_type == OPENSEARCH_VERSION_TYPE_INTERNAL
    &&& d.pipeline is None
    &&& d.final_pipeline is None
    &&& d.system_ingest_pipeline is None
    &&& !d.pipeline_resolved
    &&& !d.retry
    &&& d.auto_generated_timestamp == OPENSEARCH_UNSET_AUTO_GENERATED_TIMESTAMP
    &&& d.content_type matches Some(c) && c@ == OPENSEARCH_JSON_MEDIA_TYPE@
    &&& d.if_seq_no == OPENSEARCH_UNASSIGNED_SEQ_NO
    &&& d.if_primary_term == OPENSEARCH_UNASSIGNED_PRIMARY_TERM
    &&& !d.require_alias
}

/// A partial update of one document, whose new fields come as a nested
/// index request.
#[derive(Clone, Debug, PartialEq, Eq)]
pub struct OpenSearchUpdateRequestWire {
    pub parent_task_node: String,
    pub parent_task_id: Option<i64>,
    pub index: String,
    pub shard_id_present: bool,
    pub timeout: TimeValueWire,
    pub concrete_index: Option<String>,
    pub wait_for_active_shards: i32,
    pub id: String,
    pub routing: Option<String>,
    pub script_present: bool,
    pub retry_on_conflict: i32,
    pub refresh_policy: u8,
    pub doc: Option<OpenSearchIndexRequestWire>,
    pub fetch_source_context_present: bool,
    pub upsert: Option<OpenSearchIndexRequestWire>,
    pub doc_as_upsert: bool,
    pub if_seq_no: i64,
    pub if_primary_term: i64,
    pub detect_noop: bool,
    pub scripted_upsert: bool,
    pub require_alias: bool,
}

impl OpenSearchUpdateRequestWire {
    /// Merges the JSON `doc` into document `id` of `index`: no script,
    /// upsert, routing or concurrency check, with no-op detection, the
    /// default shard wait and a one-minute timeout.
    pub fn new(index: String, id: String, doc: Vec<u8>) -> (r: Self)
        ensures
            r.parent_task_node@.len() == 0,
            r.parent_task_id is None,
            r.index@ == index@,
            !r.shard_id_present,
            r.timeout == (TimeValueWire { duration: 1, time_unit_ordinal: TIME_UNIT_MINUTES }),
            r.concrete_index is None,
            r.wait_for_active_shards == OPENSEARCH_ACTIVE_SHARD_COUNT_DEFAULT,
            r.id@ == id@,
            r.routing is None,
            !r.script_present,
            r.retry_on_conflict == 0,
            r.refresh_policy == OPENSEARCH_REFRESH_POLICY_NONE,
            r.doc matches Some(d) && is_plain_index_request(d, index@, id@, doc@),
            !r.fetch_source_context_present,
            r.upsert is None,
            !r.doc_as_upsert,
            r.if_seq_no == OPENSEARCH_UNASSIGNED_SEQ_NO,
            r.if_primary_term == OPENSEARCH_UNASSIGNED_PRIMARY_TERM,
            r.detect_noop,
            !r.scripted_upsert,
            !r.require_alias,
    {
        let nested = OpenSearchIndexRequestWire::new(index.clone(), id.clone(), doc);
        OpenSearchUpdateRequestWire {
            parent_task_node: String::new(),
            parent_task_id: None,
            index,
            shard_id_present: false,
            timeout: TimeValueWire::minutes(1),
            concrete_index: None,
            wait_for_active_shards: OPENSEARCH_ACTIVE_SHARD_COUNT_DEFAULT,
            id,
            routing: None,
            script_present: false,
            retry_on_conflict: 0,
            refresh_policy: OPENSEARCH_REFRESH_POLICY_NONE,
            doc: Some(nested),
            fetch_source_context_present: false,
            upsert: None,
            doc_as_upsert: false,
            if_seq_no: OPENSEARCH_UNASSIGNED_SEQ_NO,
            if_primary_term: OPENSEARCH_UNASSIGNED_PRIMARY_TERM,
            detect_noop: true,
            scripted_upsert: false,
            require_alias: false,
        }
    }
}

/// A single-document get request.
#[derive(Clone, Debug, PartialEq, Eq)]
pub struct OpenSearchGetRequestWire {
    pub parent_task_node: String,
    pub parent_task_id: Option<i64>,
    pub internal_shard_id_present: bool,
    pub index: Option<String>,
    pub id: String,
    pub routing: Option<String>,
    pub preference: Option<String>,
    pub refresh: bool,
    pub stored_fields: Option<Vec<String>>,
    pub realtime: bool,
    pub version_type: u8,
    pub version: i64,
    pub fetch_source_context_present: bool,
}

impl OpenSearchGetRequestWire {
    /// A real-time get of document `id` in `index`, any version, with no
    /// routing, preference, stored fields or source filtering.
    pub fn new(index: String, id: String) -> (r: Self)
        ensures
            r.parent_task_node@.len() == 0,
            r.parent_task_id is None,
            !r.internal_shard_id_present,
            r.index matches Some(i) && i@ == index@,
            r.id@ == id@,
            r.routing is None,
            r.preference is None,
            !r.refresh,
            r.stored_fields is None,
            r.realtime,
            r.version_type == OPENSEARCH_VERSION_TYPE_INTERNAL,
            r.version == OPENSEARCH_MATCH_ANY_VERSION,
            !r.fetch_source_context_present,
    {
        OpenSearchGetRequestWire {
            parent_task_node: String::new(),
            parent_task_id: None,
            internal_shard_id_present: false,
            index: Some(index),
            id,
            routing: None,
            preference: None,
            refresh: false,
            stored_fields: None,
            realtime: true,
            version_type: OPENSEARCH_VERSION_TYPE_INTERNAL,
            version: OPENSEARCH_MATCH_ANY_VERSION,
            fetch_source_context_present: false,
        }
    }
}

/// One document of a multi-get request.
#[derive(Clone, Debug, PartialEq, Eq)]
pub struct OpenSearchMultiGetItemRequestWire {
    pub index: String,
    pub id: String,
    pub routing: Option<String>,
    pub stored_fields: Option<Vec<String>>,
    pub version: i64,
    pub version_type: u8,
    pub fetch_source_context_present: bool,
}

impl OpenSearchMultiGetItemRequestWire {
    /// Document `id` in `index`, any version, with no routing, stored fields
    /// or source filtering.
    pub fn new(index: String, id: String) -> (r: Self)
        ensures
            r.index@ == index@,
            r.id@ == id@,
            r.routing is None,
            r.stored_fields is None,
            r.version == OPENSEARCH_MATCH_ANY_VERSION,
            r.version_type == OPENSEARCH_VERSION_TYPE_INTERNAL,
            !r.fetch_source_context_present,
    {
        OpenSearchMultiGetItemRequestWire {
            index,
            id,
            routing: None,
            stored_fields: None,
            version: OPENSEARCH_MATCH_ANY_VERSION,
            version_type: OPENSEARCH_VERSION_TYPE_INTERNAL,
            fetch_source_context_present: false,
        }
    }
}

/// A multi-get request.
#[derive(Clone, Debug, PartialEq, Eq)]
pub struct OpenSearchMultiGetRequestWire {
    pub parent_task_node: String,
    pub parent_task_id: Option<i64>,
    pub preference: Option<String>,
    pub refresh: bool,
    pub realtime: bool,
    pub items: Vec<OpenSearchMultiGetItemRequestWire>,
}

impl OpenSearchMultiGetRequestWire {
    /// A real-time multi-get of `items`, with no preference.
    pub fn new(items: Vec<OpenSearchMultiGetItemRequestWire>) -> (r: Self)
        ensures
            r.parent_task_node@.len() == 0,
            r.parent_task_id is None,
            r.preference is None,
            !r.refresh,
            r.realtime,
            r.items@ == items@,
    {
        OpenSearchMultiGetRequestWire {
            parent_task_node: String::new(),
            parent_task_id: None,
            preference: None,
            refresh: false,
            realtime: true,
            items,
        }
    }
}

/// The response to an index request.
#[derive(Clone, Debug, PartialEq, Eq)]
pub struct OpenSearchIndexResponseWire {
    pub shard_total: i32,
    pub shard_successful: i32,
    pub index: String,
    pub index_uuid: String,
    pub shard_id: i32,
    pub id: String,
    pub version: i64,
    pub seq_no: i64,
    pub primary_term: i64,
    pub forced_refresh: bool,
    pub result: u8,
}

/// The response to an update request.
#[derive(Clone, Debug, PartialEq, Eq)]
pub struct OpenSearchUpdateResponseWire {
    pub shard_total: i32,
    pub shard_successful: i32,
    pub index: String,
    pub index_uuid: String,
    pub shard_id: i32,
    pub id: String,
    pub version: i64,
    pub seq_no: i64,
    pub primary_term: i64,
    pub forced_refresh: bool,
    pub result: u8,
    pub get_result_present: bool,
}

/// A single-document delete request.
#[derive(Clone, Debug, PartialEq, Eq)]
pub struct OpenSearchDeleteRequestWire {
    pub parent_task_node: String,
    pub parent_task_id: Option<i64>,
    pub shard_id_present: bool,
    pub wait_for_active_shards: i32,
    pub timeout: TimeValueWire,
    pub index: String,
    pub routed_based_on_cluster_version: i64,
    pub refresh_policy: u8,
    pub id: String,
    pub routing: Option<String>,
    pub version: i64,
    pub version_type: u8,
    pub if_seq_no: i64,
    pub if_primary_term: i64,
}

impl OpenSearchDeleteRequestWire {
    /// A delete of document `id` in `index` with the default wait, a one
    /// minute timeout, no refresh, no routing and no version conditions.
    pub fn new(index: String, id: String) -> (r: Self)
        ensures
            r.parent_task_node@.len() == 0,
            r.parent_task_id is None,
            !r.shard_id_present,
            r.wait_for_active_shards == OPENSEARCH_ACTIVE_SHARD_COUNT_DEFAULT,
            r.timeout == (TimeValueWire { duration: 1, time_unit_ordinal: TIME_UNIT_MINUTES }),
            r.index@ == index@,
            r.routed_based_on_cluster_version == 0,
            r.refresh_policy == OPENSEARCH_REFRESH_POLICY_NONE,
            r.id@ == id@,
            r.routing is None,
            r.version == OPENSEARCH_MATCH_ANY_VERSION,
            r.version_type == OPENSEARCH_VERSION_TYPE_INTERNAL,
            r.if_seq_no == OPENSEARCH_UNASSIGNED_SEQ_NO,
            r.if_primary_term == OPENSEARCH_UNASSIGNED_PRIMARY_TERM,
    {
        OpenSearchDeleteRequestWire {
            parent_task_node: String::new(),
            parent_task_id: None,
            shard_id_present: false,
            wait_for_active_shards: OPENSEARCH_ACTIVE_SHARD_COUNT_DEFAULT,
            timeout: TimeValueWire::minutes(1),
            index,
            routed_based_on_cluster_version: 0,
            refresh_policy: OPENSEARCH_REFRESH_POLICY_NONE,
            id,
            routing: None,
            version: OPENSEARCH_MATCH_ANY_VERSION,
            version_type: OPENSEARCH_VERSION_TYPE_INTERNAL,
            if_seq_no: OPENSEARCH_UNASSIGNED_SEQ_NO,
            if_primary_term: OPENSEARCH_UNASSIGNED_PRIMARY_TERM,
        }
    }
}

/// The response to a delete request.
#[derive(Clone, Debug, PartialEq, Eq)]
pub struct OpenSearchDeleteResponseWire {
    pub shard_total: i32,
    pub shard_successful: i32,
    pub index: String,
    pub index_uuid: String,
    pub shard_id: i32,
    pub id: String,
    pub version: i64,
    pub seq_no: i64,
    pub primary_term: i64,
    pub forced_refresh: bool,
    pub result: u8,
}

impl OpenSearchDeleteResponseWire {
    /// The response for a delete of a document that does not exist: one
    /// successful shard, unknown index uuid, not-found version and result.
    pub fn not_found(index: String, id: String) -> (r: Self)
        ensures
            r.shard_total == 1,
            r.shard_successful == 1,
            r.index@ == index@,
            r.index_uuid@ == OPENSEARCH_UNKNOWN_INDEX_UUID@,
            r.shard_id == 0,
            r.id@ == id@,
            r.version == OPENSEARCH_NOT_FOUND_VERSION,
            r.seq_no == OPENSEARCH_UNASSIGNED_SEQ_NO,
            r.primary_term == OPENSEARCH_UNASSIGNED_PRIMARY_TERM,
            !r.forced_refresh,
            r.result == OPENSEARCH_DOC_WRITE_RESULT_NOT_FOUND,
    {
        OpenSearchDeleteResponseWire {
            shard_total: 1,
            shard_successful: 1,
            index,
            index_uuid: owned(OPENSEARCH_UNKNOWN_INDEX_UUID),
            shard_id: 0,
            id,
            version: OPENSEARCH_NOT_FOUND_VERSION,
            seq_no: OPENSEARCH_UNASSIGNED_SEQ_NO,
            primary_term: OPENSEARCH_UNASSIGNED_PRIMARY_TERM,
            forced_refresh: false,
            result: OPENSEARCH_DOC_WRITE_RESULT_NOT_FOUND,
        }
    }
}

/// One write of a bulk request: an index or a delete.
#[derive(Clone, Debug, PartialEq, Eq)]
pub enum OpenSearchBulkRequestItemWire {
    Index(OpenSearchIndexRequestWire),
    Delete(OpenSearchDeleteRequestWire),
}

/// A bulk request: several index and delete writes carried together.
#[derive(Clone, Debug, PartialEq, Eq)]
pub struct OpenSearchBulkRequestWire {
    pub parent_task_node: String,
    pub parent_task_id: Option<i64>,
    pub wait_for_active_shards: i32,
    pub items: Vec<OpenSearchBulkRequestItemWire>,
    pub refresh_policy: u8,
    pub timeout: TimeValueWire,
}

impl OpenSearchBulkRequestWire {
    /// A bulk request of `items` with no refresh, the default shard wait and
    /// a one-minute timeout.
    pub fn new(items: Vec<OpenSearchBulkRequestItemWire>) -> (r: Self)
        ensures
            r.parent_task_node@.len() == 0,
            r.parent_task_id is None,
            r.wait_for_active_shards == OPENSEARCH_ACTIVE_SHARD_COUNT_DEFAULT,
            r.items@ == items@,
            r.refresh_policy == OPENSEARCH_REFRESH_POLICY_NONE,
            r.timeout == (TimeValueWire { duration: 1, time_unit_ordinal: TIME_UNIT_MINUTES }),
    {
        OpenSearchBulkRequestWire {
            parent_task_node: String::new(),
            parent_task_id: None,
            wait_for_active_shards: OPENSEARCH_ACTIVE_SHARD_COUNT_DEFAULT,
            items,
            refresh_policy: OPENSEARCH_REFRESH_POLICY_NONE,
            timeout: TimeValueWire::minutes(1),
        }
    }
}

/// The response of one bulk item: that of an index or of a delete.
#[derive(Clone, Debug, PartialEq, Eq)]
pub enum OpenSearchBulkItemResponseBodyWire {
    Index(OpenSearchIndexResponseWire),
    Delete(OpenSearchDeleteResponseWire),
}

/// One item of a bulk response.
#[derive(Clone, Debug, PartialEq, Eq)]
pub struct OpenSearchBulkItemResponseWire {
    pub item_id: i32,
    pub op_type: u8,
    pub response: OpenSearchBulkItemResponseBodyWire,
}

impl OpenSearchBulkItemResponseWire {
    /// Item `item_id`, an index operation with `response`.
    pub fn index(item_id: i32, response: OpenSearchIndexResponseWire) -> (r: Self)
        ensures
            r.item_id == item_id,
            r.op_type == OPENSEARCH_DOC_WRITE_OP_TYPE_INDEX,
            r.response == OpenSearchBulkItemResponseBodyWire::Index(response),
    {
        OpenSearchBulkItemResponseWire {
            item_id,
            op_type: OPENSEARCH_DOC_WRITE_OP_TYPE_INDEX,
            response: OpenSearchBulkItemResponseBodyWire::Index(response),
        }
    }

    /// Item `item_id`, a delete operation with `response`.
    pub fn delete(item_id: i32, response: OpenSearchDeleteResponseWire) -> (r: Self)
        ensures
            r.item_id == item_id,
            r.op_type == OPENSEARCH_DOC_WRITE_OP_TYPE_DELETE,
            r.response == OpenSearchBulkItemResponseBodyWire::Delete(response),
    {
        OpenSearchBulkItemResponseWire {
            item_id,
            op_type: OPENSEARCH_DOC_WRITE_OP_TYPE_DELETE,
            response: OpenSearchBulkItemResponseBodyWire::Delete(response),
        }
    }
}

/// A bulk response.
#[derive(Clone, Debug, PartialEq, Eq)]
pub struct OpenSearchBulkResponseWire {
    pub items: Vec<OpenSearchBulkItemResponseWire>,
    pub took_millis: i64,
    pub ingest_took_millis: i64,
}

impl OpenSearchBulkResponseWire {
    /// A response carrying `items`, taking no time, with no ingest.
    pub fn success(items: Vec<OpenSearchBulkItemResponseWire>) -> (r: Self)
        ensures
            r.items@ == items@,
            r.took_millis == 0,
            r.ingest_took_millis == OPENSEARCH_NO_INGEST_TOOK,
    {
        OpenSearchBulkResponseWire { items, took_millis: 0, ingest_took_millis: OPENSEARCH_NO_INGEST_TOOK }
    }
}

/// A refresh request.
#[derive(Clone, Debug, PartialEq, Eq)]
pub struct OpenSearchRefreshRequestWire {
    pub parent_task_node: String,
    pub parent_task_id: Option<i64>,
    pub indices: Vec<String>,
    pub indices_options: OpenSearchIndicesOptionsWire,
}

impl OpenSearchRefreshRequestWire {
    /// A refresh of `indices` with strict resolution of open indices.
    pub fn new(indices: Vec<String>) -> (r: Self)
        ensures
            r.parent_task_node@.len() == 0,
            r.parent_task_id is None,
            r.indices@ == indices@,
            r.indices_options == strict_expand_open_forbid_closed_spec(),
    {
        OpenSearchRefreshRequestWire {
            parent_task_node: String::new(),
            parent_task_id: None,
            indices,
            indices_options: OpenSearchIndicesOptionsWire::strict_expand_open_forbid_closed(),
        }
    }
}

/// A refresh response: shard counts.
#[derive(Clone, Debug, PartialEq, Eq)]
pub struct OpenSearchRefreshResponseWire {
    pub total_shards: i32,
    pub successful_shards: i32,
    pub failed_shards: i32,
}

impl OpenSearchRefreshResponseWire {
    /// All `total_shards` shards refreshed, none failed.
    pub fn success(total_shards: i32) -> (r: Self)
        ensures
            r.total_shards == total_shards,
            r.successful_shards == total_shards,
            r.failed_shards == 0,
    {
        OpenSearchRefreshResponseWire { total_shards, successful_shards: total_shards, failed_shards: 0 }
    }
}

} // verus!
