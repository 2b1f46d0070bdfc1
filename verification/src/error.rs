//! The failures that the library reports, and the four kinds they fall under.

use vstd::prelude::*;

verus! {

/// The kind of a failure.
#[derive(Clone, Copy, Debug, PartialEq, Eq, Structural)]
pub enum ErrorKind {
    /// A malformed URL, an unreadable reference or an unknown overwrite mode.
    InvalidInput,
    /// The remote could not be reached, refused the request or answered
    /// with something unreadable.
    TransportFailure,
    /// No pull request matches the reference.
    NotFound,
    /// Metadata could not be written to or read from a comment.
    SerializationFailure,
}

/// Why a repository URL does not yield repository coordinates.
#[derive(Clone, Copy, Debug, PartialEq, Eq, Structural)]
pub enum RepoUrlError {
    /// The URL has a query string or a fragment.
    QueryOrFragment,
    /// The URL has no path that splits into segments.
    NotHierarchical,
    /// The path is not an organization followed by a repository name.
    PathSegments,
    /// The URL has no host.
    NoHost,
    /// No API base URL could be derived from the URL.
    ApiUrl,
}

impl RepoUrlError {
    pub open spec fn spec_kind(&self) -> ErrorKind {
        ErrorKind::InvalidInput
    }

    /// The kind of this failure: always invalid input.
    pub fn kind(&self) -> (k: ErrorKind)
        ensures
            k == self.spec_kind(),
    {
        ErrorKind::InvalidInput
    }
}

/// Why no pull request number was found for a reference.
#[derive(Clone, Debug, PartialEq, Eq)]
pub enum FindPrError {
    /// The reference has the shape of a pull-request reference, but its
    /// number does not fit in 64 bits.
    NumberOutOfRange,
    /// The request that lists the open pull requests could not be formed
    /// from the API base URL.
    RequestUrl,
    /// Listing the open pull requests failed; the cause is attached.
    Transport(String),
    /// No open pull request has the reference as its head.
    NoMatchingPr,
}

impl FindPrError {
    pub open spec fn spec_kind(&self) -> ErrorKind {
        match self {
            FindPrError::NumberOutOfRange => ErrorKind::InvalidInput,
            FindPrError::RequestUrl => ErrorKind::InvalidInput,
            FindPrError::Transport(_) => ErrorKind::TransportFailure,
            FindPrError::NoMatchingPr => ErrorKind::NotFound,
        }
    }

    /// The kind of this failure.
    pub fn kind(&self) -> (k: ErrorKind)
        ensures
            k == self.spec_kind(),
    {
        match self {
            FindPrError::NumberOutOfRange => ErrorKind::InvalidInput,
            FindPrError::RequestUrl => ErrorKind::InvalidInput,
            FindPrError::Transport(_) => ErrorKind::TransportFailure,
            FindPrError::NoMatchingPr => ErrorKind::NotFound,
        }
    }
}

/// Why a comment was not published.
#[derive(Clone, Debug, PartialEq, Eq)]
pub enum CommentError {
    /// The request could not be formed from the API base URL.
    RequestUrl,
    /// The request failed before an answer came; the cause is attached.
    Transport(String),
    /// The remote answered with another status than the one that signals
    /// success; the raw response is attached.
    UnexpectedStatus { status: u16, response: String },
}

impl CommentError {
    pub open spec fn spec_kind(&self) -> ErrorKind {
        match self {
            CommentError::RequestUrl => ErrorKind::InvalidInput,
            CommentError::Transport(_) => ErrorKind::TransportFailure,
            CommentError::UnexpectedStatus { .. } => ErrorKind::TransportFailure,
        }
    }

    /// The kind of this failure.
    pub fn kind(&self) -> (k: ErrorKind)
        ensures
            k == self.spec_kind(),
    {
        match self {
            CommentError::RequestUrl => ErrorKind::InvalidInput,
            CommentError::Transport(_) => ErrorKind::TransportFailure,
            CommentError::UnexpectedStatus { .. } => ErrorKind::TransportFailure,
        }
    }
}

/// Why metadata could not be written to or read from a comment.
#[derive(Clone, Copy, Debug, PartialEq, Eq, Structural)]
pub enum MetadataError {
    /// The comment holds the prefix marker, but the suffix marker nowhere.
    NoSuffix,
    /// The leftmost suffix marker of the comment begins before the metadata
    /// that follows the prefix marker.
    SuffixBeforeMetadata,
    /// The value could not be written as JSON.
    Encode,
    /// The text between the markers is not the JSON of the expected value.
    Decode,
}

impl MetadataError {
    pub open spec fn spec_kind(&self) -> ErrorKind {
        ErrorKind::SerializationFailure
    }

    /// The kind of this failure: always a serialization failure.
    pub fn kind(&self) -> (k: ErrorKind)
        ensures
            k == self.spec_kind(),
    {
        ErrorKind::SerializationFailure
    }
}

} // verus!
