//! Node versions as carried on the wire: a single integer identifier.
use vstd::prelude::*;

verus! {

/// A transport version, identified by its wire id.
#[derive(Clone, Copy, Debug, PartialEq, Eq, Structural)]
pub struct Version {
    pub id: i32,
}

impl Version {
    /// The version with wire id `id`.
    pub fn from_id(id: i32) -> (v: Self)
        ensures
            v.id == id,
    {
        Version { id }
    }

    /// The wire id of this version.
    pub fn id(&self) -> (id: i32)
        ensures
            id == self.id,
    {
        self.id
    }
}

/// Wire id of OpenSearch 3.0.0 (3000099 with the OpenSearch marker bit).
pub const OPENSEARCH_3_0_0_ID: i32 = 137217827;

/// Wire id of OpenSearch 3.2.0, from which discovery nodes carry a stream address.
pub const OPENSEARCH_3_2_0_ID: i32 = 137237827;

/// Wire id of OpenSearch 3.7.0, the transport version this library speaks.
pub const OPENSEARCH_3_7_0_ID: i32 = 137287827;

/// OpenSearch 3.0.0.
pub fn opensearch_3_0_0() -> (v: Version)
    ensures
        v.id == OPENSEARCH_3_0_0_ID,
{
    Version { id: OPENSEARCH_3_0_0_ID }
}

/// OpenSearch 3.7.0.
pub fn opensearch_3_7_0_transport() -> (v: Version)
    ensures
        v.id == OPENSEARCH_3_7_0_ID,
{
    Version { id: OPENSEARCH_3_7_0_ID }
}

} // verus!
