//! The mapping of document requests read off the wire onto the requests the
//! storage engine serves, and the refusal of the shapes it does not serve.
use vstd::prelude::*;
use crate::action_wire::{is_unsupported, TransportActionWireError, TIME_UNIT_MINUTES};
use crate::document_requests::{
    OpenSearchDeleteRequestWire, OpenSearchGetRequestWire, OpenSearchMultiGetItemRequestWire,
    OpenSearchBulkRequestItemWire, OpenSearchBulkRequestWire, OpenSearchIndexRequestWire, OpenSearchMultiGetRequestWire,
    OpenSearchRefreshRequestWire, OpenSearchRefreshResponseWire, OpenSearchUpdateRequestWire,
    OPENSEARCH_ACTIVE_SHARD_COUNT_DEFAULT,
    OPENSEARCH_DOC_WRITE_OP_TYPE_INDEX, OPENSEARCH_JSON_MEDIA_TYPE, OPENSEARCH_MATCH_ANY_VERSION,
    OPENSEARCH_REFRESH_POLICY_NONE, OPENSEARCH_UNASSIGNED_PRIMARY_TERM, OPENSEARCH_UNASSIGNED_SEQ_NO,
    OPENSEARCH_UNSET_AUTO_GENERATED_TIMESTAMP, OPENSEARCH_VERSION_TYPE_INTERNAL,
};
use crate::text::str_eq;

verus! {

/// A read of one document, as the storage engine takes it.
#[derive(Clone, Debug, PartialEq, Eq)]
pub struct GetDocumentRequest {
    pub index: String,
    pub id: String,
}

/// A deletion of one document, as the storage engine takes it.
#[derive(Clone, Debug, PartialEq, Eq)]
pub struct DeleteDocumentRequest {
    pub index: String,
    pub id: String,
}

/// A write of one document's JSON source, as the storage engine takes it.
#[derive(Clone, Debug, PartialEq, Eq)]
pub struct IndexDocumentRequest {
    pub index: String,
    pub id: String,
    pub source: Vec<u8>,
}

/// An update of one document by merging a JSON document into it, as the
/// storage engine takes it.
#[derive(Clone, Debug, PartialEq, Eq)]
pub struct UpdateDocumentRequest {
    pub index: String,
    pub id: String,
    pub doc: Vec<u8>,
    pub doc_as_upsert: bool,
}

/// Whether `content_type` names the JSON media type.
pub fn is_json_media_type(content_type: &Option<String>) -> (b: bool)
    ensures
        b == (*content_type matches Some(c) && c@ == OPENSEARCH_JSON_MEDIA_TYPE@),
{
    match content_type {
        Some(c) => str_eq(c.as_str(), OPENSEARCH_JSON_MEDIA_TYPE),
        None => false,
    }
}

/// Whether `r` refuses for a missing field of this name.
pub open spec fn is_missing_field<T>(r: Result<T, TransportActionWireError>, field: Seq<char>) -> bool {
    r matches Err(TransportActionWireError::MissingRequiredField { field: f }) && f@ == field
}

impl OpenSearchGetRequestWire {
    /// The first shape of this get that the engine does not serve, with the
    /// reason, or `None` when it serves every one.
    pub open spec fn engine_unserved_shape(&self) -> Option<(Seq<char>, Seq<char>)> {
        if self.internal_shard_id_present {
            Some(("get request internal shard id"@, "explicit shard ids cannot be mapped onto the current get engine request"@))
        } else if self.routing is Some {
            Some(("get request routing"@, "routing cannot be mapped onto the current get engine request"@))
        } else if self.preference is Some {
            Some(("get request preference"@, "preference cannot be mapped onto the current get engine request"@))
        } else if self.refresh {
            Some(("get request refresh"@, "pre-get refresh is not part of the current get adapter subset"@))
        } else if self.stored_fields is Some {
            Some(("get request stored fields"@, "stored fields cannot be mapped onto the current get engine request"@))
        } else if !self.realtime {
            Some(("get request realtime flag"@, "non-realtime get cannot be mapped onto the current get engine request"@))
        } else if self.version_type != OPENSEARCH_VERSION_TYPE_INTERNAL || self.version != OPENSEARCH_MATCH_ANY_VERSION {
            Some(("get request versioning"@, "versioned get cannot be mapped onto the current get engine request"@))
        } else if self.fetch_source_context_present {
            Some(("get request fetch source context"@, "fetch source filtering cannot be mapped onto the current get engine request"@))
        } else {
            None
        }
    }

    /// The engine's read of the document: refused for the first unserved
    /// shape, or when no index is named.
    pub fn to_engine_request(&self) -> (r: Result<GetDocumentRequest, TransportActionWireError>)
        ensures
            match self.engine_unserved_shape() {
                Some((shape, reason)) => is_unsupported(r, shape, reason),
                None => match self.index {
                    Some(index) => r matches Ok(g) && g.index@ == index@ && g.id@ == self.id@,
                    None => is_missing_field(r, "index"@),
                },
            },
    {
        if self.internal_shard_id_present {
            return Err(
                TransportActionWireError::UnsupportedWireShape {
                    shape: "get request internal shard id",
                    reason: "explicit shard ids cannot be mapped onto the current get engine request",
                },
            );
        }
        if self.routing.is_some() {
            return Err(
                TransportActionWireError::UnsupportedWireShape {
                    shape: "get request routing",
                    reason: "routing cannot be mapped onto the current get engine request",
                },
            );
        }
        if self.preference.is_some() {
            return Err(
                TransportActionWireError::UnsupportedWireShape {
                    shape: "get request preference",
                    reason: "preference cannot be mapped onto the current get engine request",
                },
            );
        }
        if self.refresh {
            return Err(
                TransportActionWireError::UnsupportedWireShape {
                    shape: "get request refresh",
                    reason: "pre-get refresh is not part of the current get adapter subset",
                },
            );
        }
        if self.stored_fields.is_some() {
            return Err(
                TransportActionWireError::UnsupportedWireShape {
                    shape: "get request stored fields",
                    reason: "stored fields cannot be mapped onto the current get engine request",
                },
            );
        }
        if !self.realtime {
            return Err(
                TransportActionWireError::UnsupportedWireShape {
                    shape: "get request realtime flag",
                    reason: "non-realtime get cannot be mapped onto the current get engine request",
                },
            );
        }
        if self.version_type != OPENSEARCH_VERSION_TYPE_INTERNAL || self.version != OPENSEARCH_MATCH_ANY_VERSION {
            return Err(
                TransportActionWireError::UnsupportedWireShape {
                    shape: "get request versioning",
                    reason: "versioned get cannot be mapped onto the current get engine request",
                },
            );
        }
        if self.fetch_source_context_present {
            return Err(
                TransportActionWireError::UnsupportedWireShape {
                    shape: "get request fetch source context",
                    reason: "fetch source filtering cannot be mapped onto the current get engine request",
                },
            );
        }
        match &self.index {
            Some(index) => Ok(GetDocumentRequest { index: index.clone(), id: self.id.clone() }),
            None => Err(TransportActionWireError::MissingRequiredField { field: "index" }),
        }
    }
}

impl OpenSearchMultiGetItemRequestWire {
    /// The first shape of this item that the engine does not serve, with the
    /// reason, or `None` when it serves every one.
    pub open spec fn engine_unserved_shape(&self) -> Option<(Seq<char>, Seq<char>)> {
        if self.routing is Some {
            Some(("multi-get request item routing"@, "routing cannot be mapped onto the current get engine request"@))
        } else if self.stored_fields is Some {
            Some(("multi-get request item stored fields"@, "stored fields cannot be mapped onto the current get engine request"@))
        } else if self.version_type != OPENSEARCH_VERSION_TYPE_INTERNAL || self.version != OPENSEARCH_MATCH_ANY_VERSION {
            Some(("multi-get request item versioning"@, "versioned reads cannot be mapped onto the current get engine request"@))
        } else if self.fetch_source_context_present {
            Some(("multi-get request item fetch source context"@, "fetch source filtering cannot be mapped onto the current get engine request"@))
        } else {
            None
        }
    }

    /// The engine's read of the item's document, refused for the first
    /// unserved shape.
    pub fn to_engine_request(&self) -> (r: Result<GetDocumentRequest, TransportActionWireError>)
        ensures
            match self.engine_unserved_shape() {
                Some((shape, reason)) => is_unsupported(r, shape, reason),
                None => r matches Ok(g) && g.index@ == self.index@ && g.id@ == self.id@,
            },
    {
        if self.routing.is_some() {
            return Err(
                TransportActionWireError::UnsupportedWireShape {
                    shape: "multi-get request item routing",
                    reason: "routing cannot be mapped onto the current get engine request",
                },
            );
        }
        if self.stored_fields.is_some() {
            return Err(
                TransportActionWireError::UnsupportedWireShape {
                    shape: "multi-get request item stored fields",
                    reason: "stored fields cannot be mapped onto the current get engine request",
                },
            );
        }
        if self.version_type != OPENSEARCH_VERSION_TYPE_INTERNAL || self.version != OPENSEARCH_MATCH_ANY_VERSION {
            return Err(
                TransportActionWireError::UnsupportedWireShape {
                    shape: "multi-get request item versioning",
                    reason: "versioned reads cannot be mapped onto the current get engine request",
                },
            );
        }
        if self.fetch_source_context_present {
            return Err(
                TransportActionWireError::UnsupportedWireShape {
                    shape: "multi-get request item fetch source context",
                    reason: "fetch source filtering cannot be mapped onto the current get engine request",
                },
            );
        }
        Ok(GetDocumentRequest { index: self.index.clone(), id: self.id.clone() })
    }
}

/// The index of the first item the engine does not serve, if any.
pub open spec fn first_unserved_item(items: Seq<OpenSearchMultiGetItemRequestWire>) -> Option<int> {
    if exists|i: int| 0 <= i < items.len() && (#[trigger] items[i]).engine_unserved_shape() is Some {
        Some(choose|i: int| 0 <= i < items.len() && (#[trigger] items[i]).engine_unserved_shape() is Some
            && forall|j: int| 0 <= j < i ==> (#[trigger] items[j]).engine_unserved_shape() is None)
    } else {
        None
    }
}

impl OpenSearchMultiGetRequestWire {
    /// The first shape of this multi-get, apart from its items, that the
    /// engine does not serve, with the reason, or `None`.
    pub open spec fn engine_unserved_shape(&self) -> Option<(Seq<char>, Seq<char>)> {
        if self.preference is Some {
            Some(("multi-get request preference"@, "preference cannot be mapped onto the current get engine request"@))
        } else if self.refresh {
            Some(("multi-get request refresh"@, "pre-get refresh is not part of the current multi-get adapter subset"@))
        } else if !self.realtime {
            Some(("multi-get request realtime flag"@, "non-realtime multi-get cannot be mapped onto the current get engine request"@))
        } else {
            None
        }
    }

    /// The engine's reads of the items, in order: refused for the first
    /// unserved shape of the request, else for that of the first item that
    /// has one.
    pub fn to_engine_requests(&self) -> (r: Result<Vec<GetDocumentRequest>, TransportActionWireError>)
        ensures
            match self.engine_unserved_shape() {
                Some((shape, reason)) => is_unsupported(r, shape, reason),
                None => {
                    let items = self.items@;
                    match first_unserved_item(items) {
                        Some(i) => {
                            &&& 0 <= i < items.len()
                            &&& forall|j: int| 0 <= j < i ==> (#[trigger] items[j]).engine_unserved_shape() is None
                            &&& items[i].engine_unserved_shape() matches Some((shape, reason))
                            &&& is_unsupported(r, shape, reason)
                        },
                        None => r matches Ok(v) && v@.len() == items.len() && forall|j: int|
                            0 <= j < items.len() ==> (#[trigger] v@[j]).index@ == items[j].index@ && v@[j].id@ == items[j].id@,
                    }
                },
            },
    {
        if self.preference.is_some() {
            return Err(
                TransportActionWireError::UnsupportedWireShape {
                    shape: "multi-get request preference",
                    reason: "preference cannot be mapped onto the current get engine request",
                },
            );
        }
        if self.refresh {
            return Err(
                TransportActionWireError::UnsupportedWireShape {
                    shape: "multi-get request refresh",
                    reason: "pre-get refresh is not part of the current multi-get adapter subset",
                },
            );
        }
        if !self.realtime {
            return Err(
                TransportActionWireError::UnsupportedWireShape {
                    shape: "multi-get request realtime flag",
                    reason: "non-realtime multi-get cannot be mapped onto the current get engine request",
                },
            );
        }
        let mut out: Vec<GetDocumentRequest> = Vec::new();
        let mut i: usize = 0;
        while i < self.items.len()
            invariant
                i <= self.items@.len(),
                self.engine_unserved_shape() is None,
                out@.len() == i,
                forall|j: int| 0 <= j < i ==> (#[trigger] self.items@[j]).engine_unserved_shape() is None,
                forall|j: int| 0 <= j < i ==> (#[trigger] out@[j]).index@ == self.items@[j].index@ && out@[j].id@ == self.items@[j].id@,
            decreases self.items@.len() - i,
        {
            match self.items[i].to_engine_request() {
                Ok(g) => {
                    out.push(g);
                },
                Err(e) => {
                    proof {
                        let items = self.items@;
                        let k = i as int;
                        assert(items[k].engine_unserved_shape() is Some);
                        assert(forall|j: int| 0 <= j < k ==> (#[trigger] items[j]).engine_unserved_shape() is None);
                        lemma_first_unserved_item(items, k);
                    }
                    return Err(e);
                },
            }
            i = i + 1;
        }
        proof {
            assert(forall|j: int| 0 <= j < self.items@.len() ==> (#[trigger] self.items@[j]).engine_unserved_shape() is None);
        }
        Ok(out)
    }
}

/// The first unserved item is the one before which every item is served.
proof fn lemma_first_unserved_item(items: Seq<OpenSearchMultiGetItemRequestWire>, k: int)
    requires
        0 <= k < items.len(),
        items[k].engine_unserved_shape() is Some,
        forall|j: int| 0 <= j < k ==> (#[trigger] items[j]).engine_unserved_shape() is None,
    ensures
        first_unserved_item(items) == Some(k),
{
    let c = choose|i: int| 0 <= i < items.len() && (#[trigger] items[i]).engine_unserved_shape() is Some
        && forall|j: int| 0 <= j < i ==> (#[trigger] items[j]).engine_unserved_shape() is None;
    assert(0 <= k < items.len() && items[k].engine_unserved_shape() is Some && forall|j: int| 0 <= j < k ==> (#[trigger] items[j]).engine_unserved_shape() is None);
    if c < k {
        assert(items[c].engine_unserved_shape() is None);
    } else if c > k {
        assert(items[k].engine_unserved_shape() is None);
    }
}

impl OpenSearchDeleteRequestWire {
    /// The first shape of this delete that the engine does not serve, with
    /// the reason, or `None` when it serves every one.
    pub open spec fn engine_unserved_shape(&self) -> Option<(Seq<char>, Seq<char>)> {
        if self.shard_id_present {
            Some(("delete request shard id"@, "explicit shard ids cannot be mapped onto the current delete engine request"@))
        } else if self.wait_for_active_shards != OPENSEARCH_ACTIVE_SHARD_COUNT_DEFAULT {
            Some(("delete request active shard count"@, "custom active-shard waits cannot be mapped onto the current delete engine request"@))
        } else if self.timeout.duration != 1 || self.timeout.time_unit_ordinal != TIME_UNIT_MINUTES {
            Some(("delete request timeout"@, "custom replication timeout cannot be mapped onto the current delete engine request"@))
        } else if self.routed_based_on_cluster_version != 0 {
            Some(("delete request routed cluster version"@, "routed cluster version cannot be mapped onto the current delete engine request"@))
        } else if self.refresh_policy != OPENSEARCH_REFRESH_POLICY_NONE {
            Some(("delete request refresh policy"@, "delete refresh policy cannot be mapped onto the current delete engine request"@))
        } else if self.routing is Some {
            Some(("delete request routing"@, "routing cannot be mapped onto the current delete engine request"@))
        } else if self.version_type != OPENSEARCH_VERSION_TYPE_INTERNAL || self.version != OPENSEARCH_MATCH_ANY_VERSION {
            Some(("delete request versioning"@, "versioned delete cannot be mapped onto the current delete engine request"@))
        } else if self.if_seq_no != OPENSEARCH_UNASSIGNED_SEQ_NO || self.if_primary_term != OPENSEARCH_UNASSIGNED_PRIMARY_TERM {
            Some(("delete request optimistic concurrency"@, "optimistic-concurrency delete cannot be mapped onto the current delete engine request"@))
        } else {
            None
        }
    }

    /// The engine's deletion of the document, refused for the first unserved
    /// shape.
    pub fn to_engine_request(&self) -> (r: Result<DeleteDocumentRequest, TransportActionWireError>)
        ensures
            match self.engine_unserved_shape() {
                Some((shape, reason)) => is_unsupported(r, shape, reason),
                None => r matches Ok(d) && d.index@ == self.index@ && d.id@ == self.id@,
            },
    {
        if self.shard_id_present {
            return Err(
                TransportActionWireError::UnsupportedWireShape {
                    shape: "delete request shard id",
                    reason: "explicit shard ids cannot be mapped onto the current delete engine request",
                },
            );
        }
        if self.wait_for_active_shards != OPENSEARCH_ACTIVE_SHARD_COUNT_DEFAULT {
            return Err(
                TransportActionWireError::UnsupportedWireShape {
                    shape: "delete request active shard count",
                    reason: "custom active-shard waits cannot be mapped onto the current delete engine request",
                },
            );
        }
        if self.timeout.duration != 1 || self.timeout.time_unit_ordinal != TIME_UNIT_MINUTES {
            return Err(
                TransportActionWireError::UnsupportedWireShape {
                    shape: "delete request timeout",
                    reason: "custom replication timeout cannot be mapped onto the current delete engine request",
                },
            );
        }
        if self.routed_based_on_cluster_version != 0 {
            return Err(
                TransportActionWireError::UnsupportedWireShape {
                    shape: "delete request routed cluster version",
                    reason: "routed cluster version cannot be mapped onto the current delete engine request",
                },
            );
        }
        if self.refresh_policy != OPENSEARCH_REFRESH_POLICY_NONE {
            return Err(
                TransportActionWireError::UnsupportedWireShape {
                    shape: "delete request refresh policy",
                    reason: "delete refresh policy cannot be mapped onto the current delete engine request",
                },
            );
        }
        if self.routing.is_some() {
            return Err(
                TransportActionWireError::UnsupportedWireShape {
                    shape: "delete request routing",
                    reason: "routing cannot be mapped onto the current delete engine request",
                },
            );
        }
        if self.version_type != OPENSEARCH_VERSION_TYPE_INTERNAL || self.version != OPENSEARCH_MATCH_ANY_VERSION {
            return Err(
                TransportActionWireError::UnsupportedWireShape {
                    shape: "delete request versioning",
                    reason: "versioned delete cannot be mapped onto the current delete engine request",
                },
            );
        }
        if self.if_seq_no != OPENSEARCH_UNASSIGNED_SEQ_NO || self.if_primary_term != OPENSEARCH_UNASSIGNED_PRIMARY_TERM {
            return Err(
                TransportActionWireError::UnsupportedWireShape {
                    shape: "delete request optimistic concurrency",
                    reason: "optimistic-concurrency delete cannot be mapped onto the current delete engine request",
                },
            );
        }
        Ok(DeleteDocumentRequest { index: self.index.clone(), id: self.id.clone() })
    }
}

impl OpenSearchIndexRequestWire {
    /// The first shape of this index request that the engine does not serve,
    /// with the reason, or `None` when it serves every one.
    pub open spec fn engine_unserved_shape(&self) -> Option<(Seq<char>, Seq<char>)> {
        if self.shard_id_present {
            Some(("index request shard id"@, "explicit shard ids cannot be mapped onto the current index engine request"@))
        } else if self.wait_for_active_shards != OPENSEARCH_ACTIVE_SHARD_COUNT_DEFAULT {
            Some(("index request active shard count"@, "custom active-shard waits cannot be mapped onto the current index engine request"@))
        } else if self.timeout.duration != 1 || self.timeout.time_unit_ordinal != TIME_UNIT_MINUTES {
            Some(("index request timeout"@, "custom replication timeout cannot be mapped onto the current index engine request"@))
        } else if self.routed_based_on_cluster_version != 0 {
            Some(("index request routed cluster version"@, "routed cluster version cannot be mapped onto the current index engine request"@))
        } else if self.refresh_policy != OPENSEARCH_REFRESH_POLICY_NONE {
            Some(("index request refresh policy"@, "index refresh policy cannot be mapped onto the current index engine request"@))
        } else if self.routing is Some {
            Some(("index request routing"@, "routing cannot be mapped onto the current index engine request"@))
        } else if self.extra_field_values_present {
            Some(("index request extra field values"@, "extra field values cannot be mapped onto the current index engine request"@))
        } else if self.op_type != OPENSEARCH_DOC_WRITE_OP_TYPE_INDEX {
            Some(("index request op type"@, "create op type cannot be mapped onto the current index engine request"@))
        } else if self.version_type != OPENSEARCH_VERSION_TYPE_INTERNAL || self.version != OPENSEARCH_MATCH_ANY_VERSION {
            Some(("index request versioning"@, "versioned index cannot be mapped onto the current index engine request"@))
        } else if self.pipeline is Some || self.final_pipeline is Some || self.system_ingest_pipeline is Some || self.pipeline_resolved {
            Some(("index request pipeline"@, "ingest pipelines cannot be mapped onto the current index engine request"@))
        } else if self.retry {
            Some(("index request retry flag"@, "retry state cannot be mapped onto the current index engine request"@))
        } else if self.auto_generated_timestamp != OPENSEARCH_UNSET_AUTO_GENERATED_TIMESTAMP {
            Some(("index request auto generated timestamp"@, "auto-generated ids cannot be mapped onto the current index engine request"@))
        } else if !(self.content_type matches Some(c) && c@ == OPENSEARCH_JSON_MEDIA_TYPE@) {
            Some(("index request content type"@, "only JSON index sources are mapped onto the current index engine request"@))
        } else if self.if_seq_no != OPENSEARCH_UNASSIGNED_SEQ_NO || self.if_primary_term != OPENSEARCH_UNASSIGNED_PRIMARY_TERM {
            Some(("index request optimistic concurrency"@, "optimistic-concurrency index cannot be mapped onto the current index engine request"@))
        } else if self.require_alias {
            Some(("index request require alias"@, "require-alias writes cannot be mapped onto the current index engine request"@))
        } else {
            None
        }
    }

    /// The engine's write of the document: refused for the first unserved
    /// shape, or when no id is given.
    pub fn to_engine_request(&self) -> (r: Result<IndexDocumentRequest, TransportActionWireError>)
        ensures
            match self.engine_unserved_shape() {
                Some((shape, reason)) => is_unsupported(r, shape, reason),
                None => match self.id {
                    Some(id) => r matches Ok(x) && x.index@ == self.index@ && x.id@ == id@ && x.source@ == self.source@,
                    None => is_missing_field(r, "id"@),
                },
            },
    {
        if self.shard_id_present {
            return Err(
                TransportActionWireError::UnsupportedWireShape {
                    shape: "index request shard id",
                    reason: "explicit shard ids cannot be mapped onto the current index engine request",
                },
            );
        }
        if self.wait_for_active_shards != OPENSEARCH_ACTIVE_SHARD_COUNT_DEFAULT {
            return Err(
                TransportActionWireError::UnsupportedWireShape {
                    shape: "index request active shard count",
                    reason: "custom active-shard waits cannot be mapped onto the current index engine request",
                },
            );
        }
        if self.timeout.duration != 1 || self.timeout.time_unit_ordinal != TIME_UNIT_MINUTES {
            return Err(
                TransportActionWireError::UnsupportedWireShape {
                    shape: "index request timeout",
                    reason: "custom replication timeout cannot be mapped onto the current index engine request",
                },
            );
        }
        if self.routed_based_on_cluster_version != 0 {
            return Err(
                TransportActionWireError::UnsupportedWireShape {
                    shape: "index request routed cluster version",
                    reason: "routed cluster version cannot be mapped onto the current index engine request",
                },
            );
        }
        if self.refresh_policy != OPENSEARCH_REFRESH_POLICY_NONE {
            return Err(
                TransportActionWireError::UnsupportedWireShape {
                    shape: "index request refresh policy",
                    reason: "index refresh policy cannot be mapped onto the current index engine request",
                },
            );
        }
        if self.routing.is_some() {
            return Err(
                TransportActionWireError::UnsupportedWireShape {
                    shape: "index request routing",
                    reason: "routing cannot be mapped onto the current index engine request",
                },
            );
        }
        if self.extra_field_values_present {
            return Err(
                TransportActionWireError::UnsupportedWireShape {
                    shape: "index request extra field values",
                    reason: "extra field values cannot be mapped onto the current index engine request",
                },
            );
        }
        if self.op_type != OPENSEARCH_DOC_WRITE_OP_TYPE_INDEX {
            return Err(
                TransportActionWireError::UnsupportedWireShape {
                    shape: "index request op type",
                    reason: "create op type cannot be mapped onto the current index engine request",
                },
            );
        }
        if self.version_type != OPENSEARCH_VERSION_TYPE_INTERNAL || self.version != OPENSEARCH_MATCH_ANY_VERSION {
            return Err(
                TransportActionWireError::UnsupportedWireShape {
                    shape: "index request versioning",
                    reason: "versioned index cannot be mapped onto the current index engine request",
                },
            );
        }
        if self.pipeline.is_some() || self.final_pipeline.is_some() || self.system_ingest_pipeline.is_some() || self.pipeline_resolved {
            return Err(
                TransportActionWireError::UnsupportedWireShape {
                    shape: "index request pipeline",
                    reason: "ingest pipelines cannot be mapped onto the current index engine request",
                },
            );
        }
        if self.retry {
            return Err(
                TransportActionWireError::UnsupportedWireShape {
                    shape: "index request retry flag",
                    reason: "retry state cannot be mapped onto the current index engine request",
                },
            );
        }
        if self.auto_generated_timestamp != OPENSEARCH_UNSET_AUTO_GENERATED_TIMESTAMP {
            return Err(
                TransportActionWireError::UnsupportedWireShape {
                    shape: "index request auto generated timestamp",
                    reason: "auto-generated ids cannot be mapped onto the current index engine request",
                },
            );
        }
        if !is_json_media_type(&self.content_type) {
            return Err(
                TransportActionWireError::UnsupportedWireShape {
                    shape: "index request content type",
                    reason: "only JSON index sources are mapped onto the current index engine request",
                },
            );
        }
        if self.if_seq_no != OPENSEARCH_UNASSIGNED_SEQ_NO || self.if_primary_term != OPENSEARCH_UNASSIGNED_PRIMARY_TERM {
            return Err(
                TransportActionWireError::UnsupportedWireShape {
                    shape: "index request optimistic concurrency",
                    reason: "optimistic-concurrency index cannot be mapped onto the current index engine request",
                },
            );
        }
        if self.require_alias {
            return Err(
                TransportActionWireError::UnsupportedWireShape {
                    shape: "index request require alias",
                    reason: "require-alias writes cannot be mapped onto the current index engine request",
                },
            );
        }
        match &self.id {
            Some(id) => Ok(IndexDocumentRequest { index: self.index.clone(), id: id.clone(), source: self.source.clone() }),
            None => Err(TransportActionWireError::MissingRequiredField { field: "id" }),
        }
    }
}

impl OpenSearchUpdateRequestWire {
    /// The first shape of this update, apart from its nested document, that
    /// the engine does not serve, with the reason, or `None`.
    pub open spec fn engine_unserved_shape(&self) -> Option<(Seq<char>, Seq<char>)> {
        if self.shard_id_present {
            Some(("update request shard id"@, "explicit shard ids cannot be mapped onto the current update engine request"@))
        } else if self.timeout.duration != 1 || self.timeout.time_unit_ordinal != TIME_UNIT_MINUTES {
            Some(("update request timeout"@, "custom timeout cannot be mapped onto the current update engine request"@))
        } else if self.concrete_index is Some {
            Some(("update request concrete index"@, "concrete index override cannot be mapped onto the current update engine request"@))
        } else if self.wait_for_active_shards != OPENSEARCH_ACTIVE_SHARD_COUNT_DEFAULT {
            Some(("update request active shard count"@, "custom active-shard waits cannot be mapped onto the current update engine request"@))
        } else if self.routing is Some {
            Some(("update request routing"@, "routing cannot be mapped onto the current update engine request"@))
        } else if self.script_present {
            Some(("update request script"@, "scripted updates cannot be mapped onto the current update engine request"@))
        } else if self.retry_on_conflict != 0 {
            Some(("update request retry on conflict"@, "retry-on-conflict cannot be mapped onto the current update engine request"@))
        } else if self.refresh_policy != OPENSEARCH_REFRESH_POLICY_NONE {
            Some(("update request refresh policy"@, "update refresh policy cannot be mapped onto the current update engine request"@))
        } else if self.fetch_source_context_present {
            Some(("update request fetch source context"@, "fetch source cannot be mapped onto the current update engine request"@))
        } else if self.upsert is Some {
            Some(("update request upsert"@, "explicit upsert cannot be mapped onto the current update engine request"@))
        } else if self.if_seq_no != OPENSEARCH_UNASSIGNED_SEQ_NO || self.if_primary_term != OPENSEARCH_UNASSIGNED_PRIMARY_TERM {
            Some(("update request optimistic concurrency"@, "optimistic-concurrency update cannot be mapped onto the current update engine request"@))
        } else if !self.detect_noop {
            Some(("update request detect noop"@, "detect_noop=false cannot be mapped onto the current update engine request"@))
        } else if self.scripted_upsert {
            Some(("update request scripted upsert"@, "scripted upsert cannot be mapped onto the current update engine request"@))
        } else if self.require_alias {
            Some(("update request require alias"@, "require-alias updates cannot be mapped onto the current update engine request"@))
        } else {
            None
        }
    }

    /// The engine's update of the document: refused for the first unserved
    /// shape of the update, when no nested document is given, as the nested
    /// document's own mapping refuses, or when the nested document names
    /// another document.
    pub fn to_engine_request(&self) -> (r: Result<UpdateDocumentRequest, TransportActionWireError>)
        ensures
            match self.engine_unserved_shape() {
                Some((shape, reason)) => is_unsupported(r, shape, reason),
                None => match self.doc {
                    None => is_missing_field(r, "doc"@),
                    Some(d) => match d.engine_unserved_shape() {
                        Some((shape, reason)) => is_unsupported(r, shape, reason),
                        None => match d.id {
                            None => is_missing_field(r, "id"@),
                            Some(doc_id) => if d.index@ != self.index@ || doc_id@ != self.id@ {
                                is_unsupported(
                                    r,
                                    "update request doc identity"@,
                                    "nested update doc identity must match the update request identity"@,
                                )
                            } else {
                                r matches Ok(u) && u.index@ == self.index@ && u.id@ == self.id@ && u.doc@ == d.source@
                                    && u.doc_as_upsert == self.doc_as_upsert
                            },
                        },
                    },
                },
            },
    {
        if self.shard_id_present {
            return Err(
                TransportActionWireError::UnsupportedWireShape {
                    shape: "update request shard id",
                    reason: "explicit shard ids cannot be mapped onto the current update engine request",
                },
            );
        }
        if self.timeout.duration != 1 || self.timeout.time_unit_ordinal != TIME_UNIT_MINUTES {
            return Err(
                TransportActionWireError::UnsupportedWireShape {
                    shape: "update request timeout",
                    reason: "custom timeout cannot be mapped onto the current update engine request",
                },
            );
        }
        if self.concrete_index.is_some() {
            return Err(
                TransportActionWireError::UnsupportedWireShape {
                    shape: "update request concrete index",
                    reason: "concrete index override cannot be mapped onto the current update engine request",
                },
            );
        }
        if self.wait_for_active_shards != OPENSEARCH_ACTIVE_SHARD_COUNT_DEFAULT {
            return Err(
                TransportActionWireError::UnsupportedWireShape {
                    shape: "update request active shard count",
                    reason: "custom active-shard waits cannot be mapped onto the current update engine request",
                },
            );
        }
        if self.routing.is_some() {
            return Err(
                TransportActionWireError::UnsupportedWireShape {
                    shape: "update request routing",
                    reason: "routing cannot be mapped onto the current update engine request",
                },
            );
        }
        if self.script_present {
            return Err(
                TransportActionWireError::UnsupportedWireShape {
                    shape: "update request script",
                    reason: "scripted updates cannot be mapped onto the current update engine request",
                },
            );
        }
        if self.retry_on_conflict != 0 {
            return Err(
                TransportActionWireError::UnsupportedWireShape {
                    shape: "update request retry on conflict",
                    reason: "retry-on-conflict cannot be mapped onto the current update engine request",
                },
            );
        }
        if self.refresh_policy != OPENSEARCH_REFRESH_POLICY_NONE {
            return Err(
                TransportActionWireError::UnsupportedWireShape {
                    shape: "update request refresh policy",
                    reason: "update refresh policy cannot be mapped onto the current update engine request",
                },
            );
        }
        if self.fetch_source_context_present {
            return Err(
                TransportActionWireError::UnsupportedWireShape {
                    shape: "update request fetch source context",
                    reason: "fetch source cannot be mapped onto the current update engine request",
                },
            );
        }
        if self.upsert.is_some() {
            return Err(
                TransportActionWireError::UnsupportedWireShape {
                    shape: "update request upsert",
                    reason: "explicit upsert cannot be mapped onto the current update engine request",
                },
            );
        }
        if self.if_seq_no != OPENSEARCH_UNASSIGNED_SEQ_NO || self.if_primary_term != OPENSEARCH_UNASSIGNED_PRIMARY_TERM {
            return Err(
                TransportActionWireError::UnsupportedWireShape {
                    shape: "update request optimistic concurrency",
                    reason: "optimistic-concurrency update cannot be mapped onto the current update engine request",
                },
            );
        }
        if !self.detect_noop {
            return Err(
                TransportActionWireError::UnsupportedWireShape {
                    shape: "update request detect noop",
                    reason: "detect_noop=false cannot be mapped onto the current update engine request",
                },
            );
        }
        if self.scripted_upsert {
            return Err(
                TransportActionWireError::UnsupportedWireShape {
                    shape: "update request scripted upsert",
                    reason: "scripted upsert cannot be mapped onto the current update engine request",
                },
            );
        }
        if self.require_alias {
            return Err(
                TransportActionWireError::UnsupportedWireShape {
                    shape: "update request require alias",
                    reason: "require-alias updates cannot be mapped onto the current update engine request",
                },
            );
        }
        let doc = match &self.doc {
            Some(d) => d,
            None => return Err(TransportActionWireError::MissingRequiredField { field: "doc" }),
        };
        let doc_request = doc.to_engine_request()?;
        if !str_eq(doc_request.index.as_str(), self.index.as_str()) || !str_eq(doc_request.id.as_str(), self.id.as_str()) {
            return Err(
                TransportActionWireError::UnsupportedWireShape {
                    shape: "update request doc identity",
                    reason: "nested update doc identity must match the update request identity",
                },
            );
        }
        Ok(
            UpdateDocumentRequest {
                index: self.index.clone(),
                id: self.id.clone(),
                doc: doc_request.source,
                doc_as_upsert: self.doc_as_upsert,
            },
        )
    }
}

/// One write of a bulk request, as the storage engine takes it.
#[derive(Clone, Debug, PartialEq, Eq)]
pub enum BulkWriteOperation {
    Index(IndexDocumentRequest),
    Delete(DeleteDocumentRequest),
}

/// The writes of a bulk request, in order, as the storage engine takes them.
#[derive(Clone, Debug, PartialEq, Eq)]
pub struct BulkWriteRequest {
    pub operations: Vec<BulkWriteOperation>,
}

/// Whether the engine refuses to take this bulk write: an index write whose
/// shape it does not serve or that names no id, or a delete it does not
/// serve.
pub open spec fn bulk_item_engine_fails(item: OpenSearchBulkRequestItemWire) -> bool {
    match item {
        OpenSearchBulkRequestItemWire::Index(x) => x.engine_unserved_shape() is Some || x.id is None,
        OpenSearchBulkRequestItemWire::Delete(x) => x.engine_unserved_shape() is Some,
    }
}

/// Whether `r` is the refusal that the engine mapping of `item` gives.
pub open spec fn bulk_item_engine_refusal<T>(item: OpenSearchBulkRequestItemWire, r: Result<T, TransportActionWireError>) -> bool {
    match item {
        OpenSearchBulkRequestItemWire::Index(x) => match x.engine_unserved_shape() {
            Some((shape, reason)) => is_unsupported(r, shape, reason),
            None => is_missing_field(r, "id"@),
        },
        OpenSearchBulkRequestItemWire::Delete(x) => match x.engine_unserved_shape() {
            Some((shape, reason)) => is_unsupported(r, shape, reason),
            None => false,
        },
    }
}

/// Whether `op` is the engine's form of `item`.
pub open spec fn bulk_item_maps_to(item: OpenSearchBulkRequestItemWire, op: BulkWriteOperation) -> bool {
    match item {
        OpenSearchBulkRequestItemWire::Index(x) => op matches BulkWriteOperation::Index(o) && x.id matches Some(id)
            && o.index@ == x.index@ && o.id@ == id@ && o.source@ == x.source@,
        OpenSearchBulkRequestItemWire::Delete(x) => op matches BulkWriteOperation::Delete(o) && o.index@ == x.index@
            && o.id@ == x.id@,
    }
}

/// The index of the first bulk write the engine refuses, if any.
pub open spec fn first_failing_bulk_item(items: Seq<OpenSearchBulkRequestItemWire>) -> Option<int> {
    if exists|i: int| 0 <= i < items.len() && bulk_item_engine_fails(#[trigger] items[i]) {
        Some(choose|i: int| 0 <= i < items.len() && bulk_item_engine_fails(#[trigger] items[i])
            && forall|j: int| 0 <= j < i ==> !bulk_item_engine_fails(#[trigger] items[j]))
    } else {
        None
    }
}

/// The first failing bulk write is the one before which every write maps.
proof fn lemma_first_failing_bulk_item(items: Seq<OpenSearchBulkRequestItemWire>, k: int)
    requires
        0 <= k < items.len(),
        bulk_item_engine_fails(items[k]),
        forall|j: int| 0 <= j < k ==> !bulk_item_engine_fails(#[trigger] items[j]),
    ensures
        first_failing_bulk_item(items) == Some(k),
{
    let c = choose|i: int| 0 <= i < items.len() && bulk_item_engine_fails(#[trigger] items[i])
        && forall|j: int| 0 <= j < i ==> !bulk_item_engine_fails(#[trigger] items[j]);
    assert(0 <= k < items.len() && bulk_item_engine_fails(items[k]) && forall|j: int| 0 <= j < k ==> !bulk_item_engine_fails(#[trigger] items[j]));
    if c < k {
        assert(!bulk_item_engine_fails(items[c]));
    } else if c > k {
        assert(!bulk_item_engine_fails(items[k]));
    }
}

impl OpenSearchBulkRequestItemWire {
    /// The engine's form of this write, refused as its request's own mapping
    /// refuses.
    pub fn to_engine_operation(&self) -> (r: Result<BulkWriteOperation, TransportActionWireError>)
        ensures
            bulk_item_engine_fails(*self) ==> bulk_item_engine_refusal(*self, r),
            !bulk_item_engine_fails(*self) ==> (r matches Ok(op) && bulk_item_maps_to(*self, op)),
    {
        match self {
            OpenSearchBulkRequestItemWire::Index(x) => {
                let o = x.to_engine_request()?;
                Ok(BulkWriteOperation::Index(o))
            },
            OpenSearchBulkRequestItemWire::Delete(x) => {
                let o = x.to_engine_request()?;
                Ok(BulkWriteOperation::Delete(o))
            },
        }
    }
}

impl OpenSearchBulkRequestWire {
    /// The first shape of this bulk request, apart from its writes, that the
    /// engine does not serve, with the reason, or `None`.
    pub open spec fn engine_unserved_shape(&self) -> Option<(Seq<char>, Seq<char>)> {
        if self.wait_for_active_shards != OPENSEARCH_ACTIVE_SHARD_COUNT_DEFAULT {
            Some(("bulk request active shard count"@, "custom active-shard waits cannot be mapped onto the current bulk engine request"@))
        } else if self.refresh_policy != OPENSEARCH_REFRESH_POLICY_NONE {
            Some(("bulk request refresh policy"@, "bulk refresh policy cannot be mapped onto the current bulk engine request"@))
        } else if self.timeout.duration != 1 || self.timeout.time_unit_ordinal != TIME_UNIT_MINUTES {
            Some(("bulk request timeout"@, "custom replication timeout cannot be mapped onto the current bulk engine request"@))
        } else {
            None
        }
    }

    /// The engine's bulk write: refused for the first unserved shape of the
    /// request, else as the first write that the engine refuses; otherwise
    /// every write's engine form, in order.
    pub fn to_engine_request(&self) -> (r: Result<BulkWriteRequest, TransportActionWireError>)
        ensures
            match self.engine_unserved_shape() {
                Some((shape, reason)) => is_unsupported(r, shape, reason),
                None => {
                    let items = self.items@;
                    match first_failing_bulk_item(items) {
                        Some(i) => {
                            &&& 0 <= i < items.len()
                            &&& forall|j: int| 0 <= j < i ==> !bulk_item_engine_fails(#[trigger] items[j])
                            &&& bulk_item_engine_refusal(items[i], r)
                        },
                        None => r matches Ok(b) && b.operations@.len() == items.len() && forall|j: int|
                            0 <= j < items.len() ==> bulk_item_maps_to(#[trigger] items[j], b.operations@[j]),
                    }
                },
            },
    {
        if self.wait_for_active_shards != OPENSEARCH_ACTIVE_SHARD_COUNT_DEFAULT {
            return Err(
                TransportActionWireError::UnsupportedWireShape {
                    shape: "bulk request active shard count",
                    reason: "custom active-shard waits cannot be mapped onto the current bulk engine request",
                },
            );
        }
        if self.refresh_policy != OPENSEARCH_REFRESH_POLICY_NONE {
            return Err(
                TransportActionWireError::UnsupportedWireShape {
                    shape: "bulk request refresh policy",
                    reason: "bulk refresh policy cannot be mapped onto the current bulk engine request",
                },
            );
        }
        if self.timeout.duration != 1 || self.timeout.time_unit_ordinal != TIME_UNIT_MINUTES {
            return Err(
                TransportActionWireError::UnsupportedWireShape {
                    shape: "bulk request timeout",
                    reason: "custom replication timeout cannot be mapped onto the current bulk engine request",
                },
            );
        }
        let mut operations: Vec<BulkWriteOperation> = Vec::new();
        let mut i: usize = 0;
        while i < self.items.len()
            invariant
                i <= self.items@.len(),
                self.engine_unserved_shape() is None,
                operations@.len() == i,
                forall|j: int| 0 <= j < i ==> !bulk_item_engine_fails(#[trigger] self.items@[j]),
                forall|j: int| 0 <= j < i ==> bulk_item_maps_to(#[trigger] self.items@[j], operations@[j]),
            decreases self.items@.len() - i,
        {
            match self.items[i].to_engine_operation() {
                Ok(op) => {
                    proof {
                        if bulk_item_engine_fails(self.items@[i as int]) {
                            assert(bulk_item_engine_refusal(self.items@[i as int], Ok::<BulkWriteOperation, TransportActionWireError>(op)));
                        }
                    }
                    operations.push(op);
                },
                Err(e) => {
                    proof {
                        let items = self.items@;
                        let k = i as int;
                        assert(bulk_item_engine_fails(items[k]));
                        lemma_first_failing_bulk_item(items, k);
                    }
                    return Err(e);
                },
            }
            i = i + 1;
        }
        Ok(BulkWriteRequest { operations })
    }
}

/// A refresh of indices, as the storage engine takes it.
#[derive(Clone, Debug, PartialEq, Eq)]
pub struct RefreshRequest {
    pub indices: Vec<String>,
}

/// The engine's answer to a refresh: whether every shard refreshed.
#[derive(Clone, Copy, Debug, PartialEq, Eq)]
pub struct RefreshResponse {
    pub refreshed: bool,
}

impl OpenSearchRefreshRequestWire {
    /// The engine's refresh of the same indices.
    pub fn to_engine_request(&self) -> (r: RefreshRequest)
        ensures
            r.indices@.len() == self.indices@.len(),
            forall|i: int| 0 <= i < self.indices@.len() ==> (#[trigger] r.indices@[i])@ == self.indices@[i]@,
    {
        let mut indices: Vec<String> = Vec::new();
        let mut i: usize = 0;
        while i < self.indices.len()
            invariant
                i <= self.indices@.len(),
                indices@.len() == i,
                forall|j: int| 0 <= j < i ==> (#[trigger] indices@[j])@ == self.indices@[j]@,
            decreases self.indices@.len() - i,
        {
            indices.push(self.indices[i].clone());
            i = i + 1;
        }
        RefreshRequest { indices }
    }
}

impl OpenSearchRefreshResponseWire {
    /// The engine's view of a refresh answer: refreshed when no shard failed.
    pub fn to_engine_response(&self) -> (r: RefreshResponse)
        ensures
            r.refreshed == (self.failed_shards == 0),
    {
        RefreshResponse { refreshed: self.failed_shards == 0 }
    }
}

} // verus!
