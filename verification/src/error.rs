//! The failures of a request, by kind.

use crate::http::{is_success, Reply};
use vstd::prelude::*;
use vstd::string::StringExecFns;

verus! {

/// The three kinds of failure. A missing configuration is known before anything is
/// sent; a transport failure is a status that is no success, or no reply at all; a
/// parse failure is a body that does not read as what was asked for.
#[derive(Debug, Clone, Copy, PartialEq, Eq, Structural)]
pub enum ErrorKind {
    ConfigMissing,
    TransportFailure,
    ParseFailure,
}

/// Why an ingestion gave no episodes.
#[derive(Debug, Clone, PartialEq)]
pub enum IngestError {
    /// No credential is configured. Known before anything is sent.
    ConfigMissing,
    /// The transport failed; the text describes the status.
    FetchFailed(String),
    /// The body is no feed document.
    FeedParseFailed,
}

impl IngestError {
    pub open spec fn kind_spec(self) -> ErrorKind {
        match self {
            IngestError::ConfigMissing => ErrorKind::ConfigMissing,
            IngestError::FetchFailed(_) => ErrorKind::TransportFailure,
            IngestError::FeedParseFailed => ErrorKind::ParseFailure,
        }
    }

    /// The text that describes the failure to the user.
    pub open spec fn message_spec(self) -> Seq<char> {
        match self {
            IngestError::ConfigMissing => "API key is missing"@,
            IngestError::FetchFailed(text) => text@,
            IngestError::FeedParseFailed => "The feed could not be read"@,
        }
    }

    /// The kind of this failure.
    pub fn kind(&self) -> (r: ErrorKind)
        ensures
            r == self.kind_spec(),
    {
        match self {
            IngestError::ConfigMissing => ErrorKind::ConfigMissing,
            IngestError::FetchFailed(_) => ErrorKind::TransportFailure,
            IngestError::FeedParseFailed => ErrorKind::ParseFailure,
        }
    }

    /// The text that describes the failure to the user.
    pub fn message(&self) -> (r: String)
        ensures
            r@ == self.message_spec(),
    {
        match self {
            IngestError::ConfigMissing => "API key is missing".to_owned(),
            IngestError::FetchFailed(text) => text.clone(),
            IngestError::FeedParseFailed => "The feed could not be read".to_owned(),
        }
    }
}

/// Why a search gave no result. Each failure carries the text that describes it.
#[derive(Debug, Clone, PartialEq)]
pub enum SearchError {
    /// No endpoint or credential is configured. Known before anything is sent.
    ConfigMissing(String),
    /// The transport failed: the status was no success, or there was no reply.
    TransportFailure(String),
    /// The body did not read as a search reply.
    ParseFailure(String),
}

/// `SearchError` as a mathematical value: every text a sequence of characters.
pub struct SearchErrorView {
    pub kind: ErrorKind,
    pub message: Seq<char>,
}

impl DeepView for SearchError {
    type V = SearchErrorView;

    open spec fn deep_view(&self) -> SearchErrorView {
        SearchErrorView { kind: self.kind_spec(), message: self.message_spec() }
    }
}

impl SearchError {
    pub open spec fn kind_spec(self) -> ErrorKind {
        match self {
            SearchError::ConfigMissing(_) => ErrorKind::ConfigMissing,
            SearchError::TransportFailure(_) => ErrorKind::TransportFailure,
            SearchError::ParseFailure(_) => ErrorKind::ParseFailure,
        }
    }

    pub open spec fn message_spec(self) -> Seq<char> {
        match self {
            SearchError::ConfigMissing(text) => text@,
            SearchError::TransportFailure(text) => text@,
            SearchError::ParseFailure(text) => text@,
        }
    }

    /// The kind of this failure.
    pub fn kind(&self) -> (r: ErrorKind)
        ensures
            r == self.kind_spec(),
    {
        match self {
            SearchError::ConfigMissing(_) => ErrorKind::ConfigMissing,
            SearchError::TransportFailure(_) => ErrorKind::TransportFailure,
            SearchError::ParseFailure(_) => ErrorKind::ParseFailure,
        }
    }

    /// The text that describes the failure to the user.
    pub fn message(&self) -> (r: String)
        ensures
            r@ == self.message_spec(),
    {
        match self {
            SearchError::ConfigMissing(text) => text.clone(),
            SearchError::TransportFailure(text) => text.clone(),
            SearchError::ParseFailure(text) => text.clone(),
        }
    }
}

/// A transport failure whose text is `prefix` followed by the status text.
pub fn transport_failure(prefix: &str, status_text: &str) -> (r: SearchError)
    ensures
        r matches SearchError::TransportFailure(text) && text@ == prefix@ + status_text@,
{
    let mut text = prefix.to_owned();
    text.append(status_text);
    SearchError::TransportFailure(text)
}

/// How the status of a reply is judged: success for 200 to 299; for every other
/// status a transport failure whose text is `prefix` followed by the status text.
pub open spec fn status_outcome(reply: Reply, prefix: Seq<char>, r: Result<(), SearchError>)
    -> bool {
    match r {
        Ok(_) => is_success(reply.status),
        Err(SearchError::TransportFailure(text)) => !is_success(reply.status) && text@ == prefix
            + reply.status_text@,
        Err(_) => false,
    }
}

/// Judges the status of a reply. The body is not looked at.
pub fn check_status(reply: &Reply, prefix: &str) -> (r: Result<(), SearchError>)
    ensures
        status_outcome(*reply, prefix@, r),
{
    if reply.ok() {
        Ok(())
    } else {
        Err(transport_failure(prefix, reply.status_text.as_str()))
    }
}

} // verus!
