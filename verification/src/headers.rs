//! Names of the request headers that the options of this crate set.

use vstd::prelude::*;

verus! {

/// Whether a query may fan out over every partition of a collection.
pub const HEADER_DOCUMENTDB_QUERY_ENABLECROSSPARTITION: &'static str = "enable-cross-partition-query";

/// Whether a cross-partition query may run on the partitions in parallel.
pub const HEADER_DOCUMENTDB_QUERY_PARALLELIZECROSSPARTITIONQUERY: &'static str =
    "parallelize-cross-partition-query";

/// Whether a create replaces a document that already has the same id.
pub const HEADER_DOCUMENTDB_IS_UPSERT: &'static str = "is-upsert";

/// Instance manipulation; asks for the change feed.
pub const HEADER_A_IM: &'static str = "A-IM";

/// Whether writes may go to any write region.
pub const HEADER_ALLOW_MULTIPLE_WRITES: &'static str = "allow-multiple-writes";

/// The partition key range that a request is routed to.
pub const HEADER_DOCUMENTDB_PARTITIONRANGEID: &'static str = "partition-range-id";

} // verus!
