//! Verified core of a link-extraction-and-batch-download tool: URL scheme
//! validation, anchor filtering by file type, link resolution, output-path
//! derivation, and failure aggregation for a batch of downloads.

pub mod download;
pub mod errors;
pub mod extract;
pub mod filetype;
pub mod strings;
pub mod validate;
