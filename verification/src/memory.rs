//! What a memory store keeps and how it is asked.
use vstd::prelude::*;

verus! {

/// A remembered event; `metadata` is JSON text.
#[derive(Debug, Clone)]
pub struct MemoryEvent {
    pub content: String,
    pub timestamp: u64,
    pub metadata: String,
}

/// A request for at most `limit` memories related to `text`.
#[derive(Debug, Clone)]
pub struct MemoryQuery {
    pub text: String,
    pub limit: usize,
}

} // verus!
