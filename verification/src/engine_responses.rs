//! The answers of the storage engine, and the document responses written
//! back on the wire for them.
use vstd::prelude::*;
use crate::action_wire::{is_unsupported, TransportActionWireError};
use crate::document_requests::{
    OpenSearchDeleteResponseWire, OpenSearchIndexResponseWire, OpenSearchUpdateResponseWire,
    OPENSEARCH_DOC_WRITE_RESULT_CREATED, OPENSEARCH_DOC_WRITE_RESULT_DELETED, OPENSEARCH_DOC_WRITE_RESULT_UPDATED,
    OPENSEARCH_NOT_FOUND_VERSION, OPENSEARCH_UNASSIGNED_PRIMARY_TERM, OPENSEARCH_UNASSIGNED_SEQ_NO,
    OPENSEARCH_UNKNOWN_INDEX_UUID,
};
use crate::get_response::OpenSearchGetResponseWire;
use crate::engine_requests::is_missing_field;
use crate::document_requests::{
    OpenSearchBulkItemResponseBodyWire, OpenSearchBulkItemResponseWire, OpenSearchBulkResponseWire,
    OPENSEARCH_DOC_WRITE_OP_TYPE_DELETE, OPENSEARCH_DOC_WRITE_OP_TYPE_INDEX, OPENSEARCH_NO_INGEST_TOOK,
};
use crate::text::owned;

verus! {

/// A document's identity and versions, as the engine reports them.
#[derive(Clone, Debug, PartialEq, Eq)]
pub struct DocumentMetadata {
    pub id: String,
    pub version: u64,
    pub seq_no: i64,
    pub primary_term: u64,
}

/// What a write did to its document.
#[derive(Clone, Copy, Debug, PartialEq, Eq, Structural)]
pub enum WriteResult {
    Created,
    Updated,
    Deleted,
}

/// The engine's answer to a write of one document.
#[derive(Clone, Debug, PartialEq, Eq)]
pub struct IndexDocumentResponse {
    pub index: String,
    pub metadata: DocumentMetadata,
    pub result: WriteResult,
}

/// The engine's answer to a read of one document that exists; `source` is
/// its JSON text.
#[derive(Clone, Debug, PartialEq, Eq)]
pub struct GetDocumentResponse {
    pub index: String,
    pub metadata: DocumentMetadata,
    pub source: Vec<u8>,
    pub found: bool,
}

/// Whether a written document's response carries `index`, the metadata's
/// identity and versions (reinterpreted as signed numbers), and `result`,
/// from one successful shard of an index whose uuid is unknown.
pub open spec fn reports_metadata(
    shard_total: i32,
    index_uuid: Seq<char>,
    shard_id: i32,
    id: Seq<char>,
    version: i64,
    seq_no: i64,
    primary_term: i64,
    forced_refresh: bool,
    metadata: DocumentMetadata,
) -> bool {
    &&& shard_total == 1
    &&& index_uuid == OPENSEARCH_UNKNOWN_INDEX_UUID@
    &&& shard_id == 0
    &&& id == metadata.id@
    &&& version == metadata.version as i64
    &&& seq_no == metadata.seq_no
    &&& primary_term == metadata.primary_term as i64
    &&& !forced_refresh
}

impl OpenSearchIndexResponseWire {
    /// The response for a write with result `result`.
    fn from_metadata(index: String, metadata: DocumentMetadata, result: u8) -> (r: Self)
        ensures
            r.shard_successful == 1,
            r.index@ == index@,
            r.result == result,
            reports_metadata(r.shard_total, r.index_uuid@, r.shard_id, r.id@, r.version, r.seq_no, r.primary_term, r.forced_refresh, metadata),
    {
        OpenSearchIndexResponseWire {
            shard_total: 1,
            shard_successful: 1,
            index,
            index_uuid: owned(OPENSEARCH_UNKNOWN_INDEX_UUID),
            shard_id: 0,
            id: metadata.id,
            version: metadata.version as i64,
            seq_no: metadata.seq_no,
            primary_term: metadata.primary_term as i64,
            forced_refresh: false,
            result,
        }
    }

    /// The response for a document that was created.
    pub fn created(index: String, metadata: DocumentMetadata) -> (r: Self)
        ensures
            r.shard_successful == 1,
            r.index@ == index@,
            r.result == OPENSEARCH_DOC_WRITE_RESULT_CREATED,
            reports_metadata(r.shard_total, r.index_uuid@, r.shard_id, r.id@, r.version, r.seq_no, r.primary_term, r.forced_refresh, metadata),
    {
        Self::from_metadata(index, metadata, OPENSEARCH_DOC_WRITE_RESULT_CREATED)
    }

    /// The response for a document that was replaced.
    pub fn updated(index: String, metadata: DocumentMetadata) -> (r: Self)
        ensures
            r.shard_successful == 1,
            r.index@ == index@,
            r.result == OPENSEARCH_DOC_WRITE_RESULT_UPDATED,
            reports_metadata(r.shard_total, r.index_uuid@, r.shard_id, r.id@, r.version, r.seq_no, r.primary_term, r.forced_refresh, metadata),
    {
        Self::from_metadata(index, metadata, OPENSEARCH_DOC_WRITE_RESULT_UPDATED)
    }

    /// The response for the engine's answer to an index write; a deletion
    /// has no index response.
    pub fn from_engine_response(response: IndexDocumentResponse) -> (r: Result<Self, TransportActionWireError>)
        ensures
            response.result == WriteResult::Deleted ==> is_unsupported(
                r,
                "index response write result"@,
                "deleted engine responses cannot be encoded as IndexResponse"@,
            ),
            response.result != WriteResult::Deleted ==> (r matches Ok(x) && x.shard_successful == 1 && x.index@
                == response.index@ && x.result == (if response.result == WriteResult::Created {
                OPENSEARCH_DOC_WRITE_RESULT_CREATED
            } else {
                OPENSEARCH_DOC_WRITE_RESULT_UPDATED
            }) && reports_metadata(
                x.shard_total,
                x.index_uuid@,
                x.shard_id,
                x.id@,
                x.version,
                x.seq_no,
                x.primary_term,
                x.forced_refresh,
                response.metadata,
            )),
    {
        match response.result {
            WriteResult::Created => Ok(Self::created(response.index, response.metadata)),
            WriteResult::Updated => Ok(Self::updated(response.index, response.metadata)),
            WriteResult::Deleted => Err(
                TransportActionWireError::UnsupportedWireShape {
                    shape: "index response write result",
                    reason: "deleted engine responses cannot be encoded as IndexResponse",
                },
            ),
        }
    }
}

impl OpenSearchUpdateResponseWire {
    /// The response for an update with result `result`.
    fn from_metadata(index: String, metadata: DocumentMetadata, result: u8) -> (r: Self)
        ensures
            r.shard_successful == 1,
            r.index@ == index@,
            r.result == result,
            !r.get_result_present,
            reports_metadata(r.shard_total, r.index_uuid@, r.shard_id, r.id@, r.version, r.seq_no, r.primary_term, r.forced_refresh, metadata),
    {
        OpenSearchUpdateResponseWire {
            shard_total: 1,
            shard_successful: 1,
            index,
            index_uuid: owned(OPENSEARCH_UNKNOWN_INDEX_UUID),
            shard_id: 0,
            id: metadata.id,
            version: metadata.version as i64,
            seq_no: metadata.seq_no,
            primary_term: metadata.primary_term as i64,
            forced_refresh: false,
            result,
            get_result_present: false,
        }
    }

    /// The response for a document that an update changed.
    pub fn updated(index: String, metadata: DocumentMetadata) -> (r: Self)
        ensures
            r.shard_successful == 1,
            r.index@ == index@,
            r.result == OPENSEARCH_DOC_WRITE_RESULT_UPDATED,
            !r.get_result_present,
            reports_metadata(r.shard_total, r.index_uuid@, r.shard_id, r.id@, r.version, r.seq_no, r.primary_term, r.forced_refresh, metadata),
    {
        Self::from_metadata(index, metadata, OPENSEARCH_DOC_WRITE_RESULT_UPDATED)
    }

    /// The response for a document that an update created.
    pub fn created(index: String, metadata: DocumentMetadata) -> (r: Self)
        ensures
            r.shard_successful == 1,
            r.index@ == index@,
            r.result == OPENSEARCH_DOC_WRITE_RESULT_CREATED,
            !r.get_result_present,
            reports_metadata(r.shard_total, r.index_uuid@, r.shard_id, r.id@, r.version, r.seq_no, r.primary_term, r.forced_refresh, metadata),
    {
        Self::from_metadata(index, metadata, OPENSEARCH_DOC_WRITE_RESULT_CREATED)
    }

    /// The response for the engine's answer to an update; a deletion has no
    /// update response.
    pub fn from_engine_response(response: IndexDocumentResponse) -> (r: Result<Self, TransportActionWireError>)
        ensures
            response.result == WriteResult::Deleted ==> is_unsupported(
                r,
                "update response write result"@,
                "deleted engine responses cannot be encoded as UpdateResponse"@,
            ),
            response.result != WriteResult::Deleted ==> (r matches Ok(x) && x.shard_successful == 1 && x.index@
                == response.index@ && !x.get_result_present && x.result == (if response.result
                == WriteResult::Created {
                OPENSEARCH_DOC_WRITE_RESULT_CREATED
            } else {
                OPENSEARCH_DOC_WRITE_RESULT_UPDATED
            }) && reports_metadata(
                x.shard_total,
                x.index_uuid@,
                x.shard_id,
                x.id@,
                x.version,
                x.seq_no,
                x.primary_term,
                x.forced_refresh,
                response.metadata,
            )),
    {
        match response.result {
            WriteResult::Created => Ok(Self::created(response.index, response.metadata)),
            WriteResult::Updated => Ok(Self::updated(response.index, response.metadata)),
            WriteResult::Deleted => Err(
                TransportActionWireError::UnsupportedWireShape {
                    shape: "update response write result",
                    reason: "deleted engine responses cannot be encoded as UpdateResponse",
                },
            ),
        }
    }
}

impl OpenSearchDeleteResponseWire {
    /// The response for a document that was deleted.
    pub fn deleted(index: String, metadata: DocumentMetadata) -> (r: Self)
        ensures
            r.shard_successful == 1,
            r.index@ == index@,
            r.result == OPENSEARCH_DOC_WRITE_RESULT_DELETED,
            reports_metadata(r.shard_total, r.index_uuid@, r.shard_id, r.id@, r.version, r.seq_no, r.primary_term, r.forced_refresh, metadata),
    {
        OpenSearchDeleteResponseWire {
            shard_total: 1,
            shard_successful: 1,
            index,
            index_uuid: owned(OPENSEARCH_UNKNOWN_INDEX_UUID),
            shard_id: 0,
            id: metadata.id,
            version: metadata.version as i64,
            seq_no: metadata.seq_no,
            primary_term: metadata.primary_term as i64,
            forced_refresh: false,
            result: OPENSEARCH_DOC_WRITE_RESULT_DELETED,
        }
    }

    /// The response for the engine's answer to a delete; only a deletion
    /// has a delete response.
    pub fn from_engine_response(response: IndexDocumentResponse) -> (r: Result<Self, TransportActionWireError>)
        ensures
            response.result != WriteResult::Deleted ==> is_unsupported(
                r,
                "delete response write result"@,
                "only deleted engine responses can be encoded as DeleteResponse"@,
            ),
            response.result == WriteResult::Deleted ==> (r matches Ok(x) && x.shard_successful == 1 && x.index@
                == response.index@ && x.result == OPENSEARCH_DOC_WRITE_RESULT_DELETED && reports_metadata(
                x.shard_total,
                x.index_uuid@,
                x.shard_id,
                x.id@,
                x.version,
                x.seq_no,
                x.primary_term,
                x.forced_refresh,
                response.metadata,
            )),
    {
        if response.result != WriteResult::Deleted {
            return Err(
                TransportActionWireError::UnsupportedWireShape {
                    shape: "delete response write result",
                    reason: "only deleted engine responses can be encoded as DeleteResponse",
                },
            );
        }
        Ok(Self::deleted(response.index, response.metadata))
    }
}

impl OpenSearchGetResponseWire {
    /// A found document: its identity and versions (reinterpreted as signed
    /// numbers) and its JSON source.
    pub fn found(index: String, metadata: DocumentMetadata, source: Vec<u8>) -> (r: Self)
        ensures
            r.found,
            r.index@ == index@,
            r.id@ == metadata.id@,
            r.seq_no == metadata.seq_no,
            r.primary_term == metadata.primary_term as i64,
            r.version == metadata.version as i64,
            r.source matches Some(s) && s@ == source@,
    {
        OpenSearchGetResponseWire {
            index,
            id: metadata.id,
            seq_no: metadata.seq_no,
            primary_term: metadata.primary_term as i64,
            version: metadata.version as i64,
            found: true,
            source: Some(source),
        }
    }

    /// The get answer for the engine's read: the document found, or, when
    /// the engine found none, a missing document named by `index` and `id`.
    pub fn from_engine_response(index: String, id: String, response: Option<GetDocumentResponse>) -> (r: Self)
        ensures
            match response {
                Some(g) => r.found && r.index@ == g.index@ && r.id@ == g.metadata.id@ && r.seq_no == g.metadata.seq_no
                    && r.primary_term == g.metadata.primary_term as i64 && r.version == g.metadata.version as i64
                    && (r.source matches Some(s) && s@ == g.source@),
                None => !r.found && r.source is None && r.index@ == index@ && r.id@ == id@ && r.seq_no
                    == OPENSEARCH_UNASSIGNED_SEQ_NO && r.primary_term == OPENSEARCH_UNASSIGNED_PRIMARY_TERM && r.version
                    == OPENSEARCH_NOT_FOUND_VERSION,
            },
    {
        match response {
            Some(g) => OpenSearchGetResponseWire::found(g.index, g.metadata, g.source),
            None => OpenSearchGetResponseWire::not_found(index, id),
        }
    }

    /// The engine's view of a get answer: nothing for a missing document;
    /// for a found one its identity, versions (reinterpreted as unsigned
    /// numbers) and source, where a missing source is the JSON `null`.
    pub fn into_engine_response(self) -> (r: Option<GetDocumentResponse>)
        ensures
            !self.found ==> r is None,
            self.found ==> (r matches Some(g) && g.found && g.index@ == self.index@ && g.metadata.id@ == self.id@
                && g.metadata.version == self.version as u64 && g.metadata.seq_no == self.seq_no
                && g.metadata.primary_term == self.primary_term as u64 && g.source@ == match self.source {
                Some(s) => s@,
                None => seq![110u8, 117u8, 108u8, 108u8],
            }),
    {
        if !self.found {
            return None;
        }
        let source = match self.source {
            Some(s) => s,
            None => vec![110u8, 117u8, 108u8, 108u8],
        };
        Some(
            GetDocumentResponse {
                index: self.index,
                metadata: DocumentMetadata {
                    id: self.id,
                    version: self.version as u64,
                    seq_no: self.seq_no,
                    primary_term: self.primary_term as u64,
                },
                source,
                found: true,
            },
        )
    }
}

/// The kind of a write the engine carried out in a bulk request.
#[derive(Clone, Copy, Debug, PartialEq, Eq, Structural)]
pub enum WriteOperationKind {
    Index,
    Create,
    Update,
    Delete,
    Replay,
}

/// The engine's answer to one write of a bulk request.
#[derive(Clone, Debug, PartialEq, Eq)]
pub struct BulkWriteItemResponse {
    pub operation: WriteOperationKind,
    pub index: String,
    pub id: String,
    pub status: u16,
    pub result: Option<WriteResult>,
    pub metadata: Option<DocumentMetadata>,
    pub error_type: Option<String>,
    pub reason: Option<String>,
}

/// The engine's answer to a bulk request.
#[derive(Clone, Debug, PartialEq, Eq)]
pub struct BulkWriteResponse {
    pub errors: bool,
    pub items: Vec<BulkWriteItemResponse>,
}

/// Whether the engine's answer to one write has no bulk item answer: a
/// failure, a missing metadata or result, a result its kind cannot carry, or
/// a kind other than index and delete.
pub open spec fn bulk_engine_item_fails(item: BulkWriteItemResponse) -> bool {
    ||| item.error_type is Some
    ||| item.metadata is None
    ||| item.result is None
    ||| item.operation == WriteOperationKind::Index && item.result == Some(WriteResult::Deleted)
    ||| item.operation == WriteOperationKind::Delete && item.result != Some(WriteResult::Deleted)
    ||| item.operation != WriteOperationKind::Index && item.operation != WriteOperationKind::Delete
}

/// Whether `r` is the refusal for the engine's answer to one write, checked
/// in this order: a failure, a missing metadata, a missing result, then the
/// write's kind and result.
pub open spec fn bulk_engine_item_refusal<T>(item: BulkWriteItemResponse, r: Result<T, TransportActionWireError>) -> bool {
    if item.error_type is Some {
        is_unsupported(
            r,
            "bulk response failure item"@,
            "failure bulk item responses are not encoded by the bulk adapter yet"@,
        )
    } else if item.metadata is None {
        is_missing_field(r, "metadata"@)
    } else if item.result is None {
        is_missing_field(r, "result"@)
    } else if item.operation == WriteOperationKind::Index {
        is_unsupported(r, "index response write result"@, "deleted engine responses cannot be encoded as IndexResponse"@)
    } else if item.operation == WriteOperationKind::Delete {
        is_unsupported(r, "delete response write result"@, "only deleted engine responses can be encoded as DeleteResponse"@)
    } else {
        is_unsupported(
            r,
            "bulk response operation kind"@,
            "only index and delete bulk item responses are encoded by the bulk adapter yet"@,
        )
    }
}

/// Whether `x` is the bulk item answer, at position `item_id`, for the
/// engine's answer to one write.
pub open spec fn bulk_engine_item_maps_to(item_id: i32, item: BulkWriteItemResponse, x: OpenSearchBulkItemResponseWire) -> bool {
    &&& x.item_id == item_id
    &&& item.metadata matches Some(metadata)
    &&& item.operation == WriteOperationKind::Index ==> {
        &&& x.op_type == OPENSEARCH_DOC_WRITE_OP_TYPE_INDEX
        &&& x.response matches OpenSearchBulkItemResponseBodyWire::Index(w)
        &&& w.shard_successful == 1
        &&& w.index@ == item.index@
        &&& w.result == if item.result == Some(WriteResult::Created) {
            OPENSEARCH_DOC_WRITE_RESULT_CREATED
        } else {
            OPENSEARCH_DOC_WRITE_RESULT_UPDATED
        }
        &&& reports_metadata(w.shard_total, w.index_uuid@, w.shard_id, w.id@, w.version, w.seq_no, w.primary_term, w.forced_refresh, metadata)
    }
    &&& item.operation == WriteOperationKind::Delete ==> {
        &&& x.op_type == OPENSEARCH_DOC_WRITE_OP_TYPE_DELETE
        &&& x.response matches OpenSearchBulkItemResponseBodyWire::Delete(w)
        &&& w.shard_successful == 1
        &&& w.index@ == item.index@
        &&& w.result == OPENSEARCH_DOC_WRITE_RESULT_DELETED
        &&& reports_metadata(w.shard_total, w.index_uuid@, w.shard_id, w.id@, w.version, w.seq_no, w.primary_term, w.forced_refresh, metadata)
    }
}

/// The position of the first engine answer that has no bulk item answer.
pub open spec fn first_failing_engine_item(items: Seq<BulkWriteItemResponse>) -> Option<int> {
    if exists|i: int| 0 <= i < items.len() && bulk_engine_item_fails(#[trigger] items[i]) {
        Some(choose|i: int| 0 <= i < items.len() && bulk_engine_item_fails(#[trigger] items[i])
            && forall|j: int| 0 <= j < i ==> !bulk_engine_item_fails(#[trigger] items[j]))
    } else {
        None
    }
}

proof fn lemma_first_failing_engine_item(items: Seq<BulkWriteItemResponse>, k: int)
    requires
        0 <= k < items.len(),
        bulk_engine_item_fails(items[k]),
        forall|j: int| 0 <= j < k ==> !bulk_engine_item_fails(#[trigger] items[j]),
    ensures
        first_failing_engine_item(items) == Some(k),
{
    let c = choose|i: int| 0 <= i < items.len() && bulk_engine_item_fails(#[trigger] items[i])
        && forall|j: int| 0 <= j < i ==> !bulk_engine_item_fails(#[trigger] items[j]);
    assert(0 <= k < items.len() && bulk_engine_item_fails(items[k]) && forall|j: int| 0 <= j < k ==> !bulk_engine_item_fails(#[trigger] items[j]));
    if c < k {
        assert(!bulk_engine_item_fails(items[c]));
    } else if c > k {
        assert(!bulk_engine_item_fails(items[k]));
    }
}

impl OpenSearchBulkItemResponseWire {
    /// The bulk item answer at position `item_id` for the engine's answer to
    /// one write.
    fn from_engine_item(item_id: i32, item: BulkWriteItemResponse) -> (r: Result<Self, TransportActionWireError>)
        ensures
            bulk_engine_item_fails(item) ==> bulk_engine_item_refusal(item, r),
            !bulk_engine_item_fails(item) ==> (r matches Ok(x) && bulk_engine_item_maps_to(item_id, item, x)),
    {
        if item.error_type.is_some() {
            return Err(
                TransportActionWireError::UnsupportedWireShape {
                    shape: "bulk response failure item",
                    reason: "failure bulk item responses are not encoded by the bulk adapter yet",
                },
            );
        }
        let metadata = match item.metadata {
            Some(m) => m,
            None => return Err(TransportActionWireError::MissingRequiredField { field: "metadata" }),
        };
        let result = match item.result {
            Some(w) => w,
            None => return Err(TransportActionWireError::MissingRequiredField { field: "result" }),
        };
        let response = IndexDocumentResponse { index: item.index, metadata, result };
        match item.operation {
            WriteOperationKind::Index => {
                let w = OpenSearchIndexResponseWire::from_engine_response(response)?;
                Ok(OpenSearchBulkItemResponseWire::index(item_id, w))
            },
            WriteOperationKind::Delete => {
                let w = OpenSearchDeleteResponseWire::from_engine_response(response)?;
                Ok(OpenSearchBulkItemResponseWire::delete(item_id, w))
            },
            _ => Err(
                TransportActionWireError::UnsupportedWireShape {
                    shape: "bulk response operation kind",
                    reason: "only index and delete bulk item responses are encoded by the bulk adapter yet",
                },
            ),
        }
    }
}

impl OpenSearchBulkResponseWire {
    /// The bulk answer for the engine's answer: refused as the first write
    /// that has no bulk item answer; otherwise each write's answer in order,
    /// numbered by position, taking no time and with no ingest.
    pub fn from_engine_response(response: BulkWriteResponse) -> (r: Result<Self, TransportActionWireError>)
        ensures
            ({
                let items = response.items@;
                match first_failing_engine_item(items) {
                    Some(i) => {
                        &&& 0 <= i < items.len()
                        &&& forall|j: int| 0 <= j < i ==> !bulk_engine_item_fails(#[trigger] items[j])
                        &&& bulk_engine_item_refusal(items[i], r)
                    },
                    None => r matches Ok(x) && x.took_millis == 0 && x.ingest_took_millis == OPENSEARCH_NO_INGEST_TOOK
                        && x.items@.len() == items.len() && forall|j: int|
                        0 <= j < items.len() ==> bulk_engine_item_maps_to(j as i32, #[trigger] items[j], x.items@[j]),
                }
            }),
    {
        let ghost all = response.items@;
        let mut pending = response.items;
        let total: usize = pending.len();
        let mut out: Vec<OpenSearchBulkItemResponseWire> = Vec::new();
        let mut i: usize = 0;
        assert(all.skip(0) =~= all);
        while pending.len() > 0
            invariant
                i <= all.len(),
                pending@ == all.skip(i as int),
                all == response.items@,
                all.len() == total,
                out@.len() == i,
                forall|j: int| 0 <= j < i ==> !bulk_engine_item_fails(#[trigger] all[j]),
                forall|j: int| 0 <= j < i ==> bulk_engine_item_maps_to(j as i32, #[trigger] all[j], out@[j]),
            decreases all.len() - i,
        {
            assert(i < all.len());
            let item = pending.remove(0);
            assert(item == all[i as int]);
            assert(pending@ =~= all.skip(i + 1));
            match OpenSearchBulkItemResponseWire::from_engine_item(i as i32, item) {
                Ok(x) => {
                    proof {
                        if bulk_engine_item_fails(all[i as int]) {
                            assert(bulk_engine_item_refusal(all[i as int], Ok::<OpenSearchBulkItemResponseWire, TransportActionWireError>(x)));
                        }
                    }
                    out.push(x);
                },
                Err(e) => {
                    proof {
                        assert(bulk_engine_item_fails(all[i as int]));
                        lemma_first_failing_engine_item(all, i as int);
                    }
                    return Err(e);
                },
            }
            i = i + 1;
        }
        assert(i == all.len());
        Ok(OpenSearchBulkResponseWire::success(out))
    }
}

} // verus!
