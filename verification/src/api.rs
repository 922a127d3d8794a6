//! Decisions of the REST adapter: request authentication and the data
//! threshold of the drift report.
use vstd::prelude::*;
use vstd::string::*;
use crate::text::same_text;

verus! {

/// Name of the header that carries the API key.
pub const API_KEY_HEADER: &'static str = "x-api-key";

/// Largest accepted body of an analysis request: 2 MiB.
pub const MAX_ANALYZE_BODY_BYTES: usize = 2 * 1024 * 1024;

/// Body of an analysis request.
#[derive(Debug)]
pub struct AnalyzeRequest {
    pub code: String,
}

/// Answer to a submitted proposal.
#[derive(Debug)]
pub struct ProposalResponse {
    pub id: String,
    pub status: String,
}

/// Body of an approval.
#[derive(Debug)]
pub struct ApproveRequest {
    pub by: String,
    pub note: String,
}

/// Answer to a health check.
#[derive(Debug)]
pub struct HealthResponse {
    pub status: String,
    pub memory_nodes: usize,
    pub pending_proposals: usize,
    pub version: String,
}

impl ProposalResponse {
    /// A freshly submitted proposal, which is pending.
    pub fn pending(id: String) -> (r: Self)
        ensures
            r.id == id,
            r.status@ == "Pending"@,
    {
        ProposalResponse { id, status: String::from_str("Pending") }
    }
}

impl HealthResponse {
    /// A healthy server's answer.
    pub fn healthy(memory_nodes: usize, pending_proposals: usize, version: &str) -> (r: Self)
        ensures
            r.status@ == "ok"@,
            r.memory_nodes == memory_nodes,
            r.pending_proposals == pending_proposals,
            r.version@ == version@,
    {
        HealthResponse {
            status: String::from_str("ok"),
            memory_nodes,
            pending_proposals,
            version: String::from_str(version),
        }
    }
}

/// Whether a request that presented `provided` (if anything) under
/// `API_KEY_HEADER` is let through, the server's key being `expected`.
pub fn is_authorized(provided: Option<&str>, expected: &str) -> (b: bool)
    ensures
        b == match provided {
            Some(key) => key@ == expected@,
            None => false,
        },
{
    match provided {
        Some(key) => same_text(key, expected),
        None => false,
    }
}

/// Whether a memory of `nodes` decisions holds enough history for a drift
/// report over a baseline of `baseline` decisions and a window of `window`.
pub fn enough_history(nodes: usize, baseline: usize, window: usize) -> (b: bool)
    ensures
        b == (nodes >= baseline + window),
{
    baseline <= nodes && window <= nodes - baseline
}

} // verus!
