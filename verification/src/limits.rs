//! Memory management constants for document processing.
use vstd::prelude::*;

verus! {

/// Maximum file size allowed for processing (50MB).
pub const MAX_DOCUMENT_SIZE: usize = 50 * 1024 * 1024;

/// Maximum extracted text size to prevent memory exhaustion (10MB).
pub const MAX_TEXT_SIZE: usize = 10 * 1024 * 1024;

/// Processing chunk size for streaming operations (64KB).
pub const CHUNK_SIZE: usize = 64 * 1024;

/// Warning threshold for large documents (10MB).
pub const LARGE_DOCUMENT_WARNING: usize = 10 * 1024 * 1024;

/// Memory pool maximum buffer size (1MB).
pub const MAX_POOL_BUFFER_SIZE: usize = 1024 * 1024;

/// Maximum concurrent document processing.
pub const MAX_CONCURRENT_DOCUMENTS: usize = 3;

} // verus!
