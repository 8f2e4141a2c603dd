//! Verified core of a command-driven cloud client: projection and aggregation
//! of object-storage listings, cache-cluster record views with optional
//! fields, request validation, and the table/document layout used by the
//! report builder. Network transport, the local filesystem, and the actual
//! PDF rasteriser live outside this crate; they exchange plain values with
//! the functions here.

pub mod memorydb_ops;
pub mod pdf_writer;
pub mod s3_ops;
pub mod text;
