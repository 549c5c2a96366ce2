//! Data model: configuration, authors, merge requests, and the failure type
//! of the enrichment pipeline.

use vstd::prelude::*;

verus! {

/// Validated process configuration, handed to the core as plain data.
pub struct GMMConfig {
    pub api_token: String,
    pub author_ids: Vec<i64>,
    pub gitlab_base: String,
    pub project_id: i64,
}

impl Default for GMMConfig {
    fn default() -> (c: GMMConfig)
        ensures
            c.api_token@ == Seq::<char>::empty(),
            c.author_ids@ == Seq::<i64>::empty(),
            c.gitlab_base@ == Seq::<char>::empty(),
            c.project_id == 0,
    {
        GMMConfig {
            api_token: String::new(),
            author_ids: Vec::new(),
            gitlab_base: String::new(),
            project_id: 0,
        }
    }
}

/// Author of a merge request; identity is the numeric id.
pub struct Author {
    pub id: i64,
    pub name: String,
    pub username: String,
}

/// Server-side mergeability status. Only the two "cannot be merged"
/// variants are blocking conditions for this system.
#[derive(Clone, Copy, Debug, PartialEq, Eq, Structural)]
pub enum MergeStatus {
    Unchecked,
    Checking,
    CanBeMerged,
    CannotBeMerged,
    CannotBeMergedRecheck,
}

/// Lifecycle state of a merge request; carried through, not interpreted.
#[derive(Clone, Copy, Debug, PartialEq, Eq, Structural)]
pub enum MRState {
    Opened,
    Closed,
    Merged,
}

/// A merge request as fetched from the list endpoint. `approvals_needed`
/// defaults to zero until the enrichment step overwrites it; zero after
/// enrichment means "no outstanding approval requirement".
pub struct MergeRequest {
    pub approvals_needed: i64,
    pub author: Author,
    pub blocking_discussions_resolved: bool,
    pub draft: bool,
    pub has_conflicts: bool,
    pub iid: i64,
    pub labels: Vec<String>,
    pub merge_status: MergeStatus,
    pub source_branch: String,
    pub state: MRState,
    pub title: String,
    pub web_url: String,
    pub work_in_progress: bool,
}

/// Failure of the enrichment pipeline. All three variants abort the whole
/// call; no partial result is ever returned.
#[derive(Debug)]
pub enum FetchError {
    /// The network layer reported a failure; carries its message.
    Transport(String),
    /// A response body was not a well-formed document; carries the
    /// parser's message.
    Deserialization(String),
    /// A well-formed response lacked an integer approvals field.
    MissingData,
}

impl FetchError {
    /// Fixed description of the error category, for display at the
    /// process boundary.
    pub fn category(&self) -> (r: &'static str)
        ensures
            (*self is Transport ==> r@ == "transport error"@),
            (*self is Deserialization ==> r@ == "deserialization error"@),
            (*self is MissingData ==> r@ == "no approval data"@),
    {
        match self {
            FetchError::Transport(_) => "transport error",
            FetchError::Deserialization(_) => "deserialization error",
            FetchError::MissingData => "no approval data",
        }
    }
}

} // verus!
