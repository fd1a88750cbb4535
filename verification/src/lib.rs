//! Documents of a document database and the request options that travel as
//! HTTP headers.

pub mod document;
pub mod document_attributes;
pub mod headers;
pub mod json;
pub mod options;
pub mod request_headers;
pub mod resource;

pub use document::{Document, MetadataField, ParseError};
pub use document_attributes::DocumentAttributes;
pub use json::JsonObject;
pub use options::{
    ChangeFeed, IsUpsert, ParallelizeCrossPartition, PartitionRangeId, QueryCrossPartition,
    TenativeWritesAllowance,
};
pub use resource::Resource;
