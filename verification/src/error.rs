//! Error kinds of the codec, the storage layer and the cache, each with the
//! mathematical view that the contracts speak of.

use crate::text::join2;
use vstd::prelude::*;

verus! {

/// Failures of the identifier codec.
#[derive(Debug, Clone, PartialEq, Eq)]
pub enum CoderError {
    /// The human-readable prefix is not well formed.
    InvalidHRP,
    /// The payload could not be encoded.
    EncodingError(String),
    /// The string is not a valid identifier.
    DecodingError(String),
}

/// View of a [`CoderError`].
pub enum CoderErrorView {
    InvalidHRP,
    EncodingError(Seq<char>),
    DecodingError(Seq<char>),
}

impl View for CoderError {
    type V = CoderErrorView;

    open spec fn view(&self) -> CoderErrorView {
        match self {
            CoderError::InvalidHRP => CoderErrorView::InvalidHRP,
            CoderError::EncodingError(m) => CoderErrorView::EncodingError(m@),
            CoderError::DecodingError(m) => CoderErrorView::DecodingError(m@),
        }
    }
}

/// Failures of the cache layer.
#[derive(Debug, Clone, PartialEq, Eq)]
pub enum CacheError {
    /// Synchronising with the remote store failed.
    SyncError,
    /// The document exists neither in the cache nor remotely.
    NotFound(String),
    /// The storage backend reported a fault.
    StorageError,
    /// The document content is not in the expected format.
    InvalidFormat,
}

/// View of a [`CacheError`].
pub enum CacheErrorView {
    SyncError,
    NotFound(Seq<char>),
    StorageError,
    InvalidFormat,
}

impl View for CacheError {
    type V = CacheErrorView;

    open spec fn view(&self) -> CacheErrorView {
        match self {
            CacheError::SyncError => CacheErrorView::SyncError,
            CacheError::NotFound(id) => CacheErrorView::NotFound(id@),
            CacheError::StorageError => CacheErrorView::StorageError,
            CacheError::InvalidFormat => CacheErrorView::InvalidFormat,
        }
    }
}

/// Failures reported by, or detected in the answers of, the remote repository.
#[derive(Debug, Clone, PartialEq, Eq)]
pub enum GitHubStorageError {
    /// A fault of the remote API that has no kind of its own.
    ApiError(String),
    /// An answer lacks data that the operation cannot do without.
    MissingData(String),
    /// The remote did not accept the credentials.
    AuthError,
    /// Stored content is not valid base64 or not valid UTF-8.
    EncodingError,
    /// The path does not exist remotely.
    NotFound,
    /// The credentials do not permit the operation.
    Forbidden,
    /// The remote refuses further requests for now.
    RateLimitExceeded,
}

/// View of a [`GitHubStorageError`].
pub enum GitHubStorageErrorView {
    ApiError(Seq<char>),
    MissingData(Seq<char>),
    AuthError,
    EncodingError,
    NotFound,
    Forbidden,
    RateLimitExceeded,
}

impl View for GitHubStorageError {
    type V = GitHubStorageErrorView;

    open spec fn view(&self) -> GitHubStorageErrorView {
        match self {
            GitHubStorageError::ApiError(m) => GitHubStorageErrorView::ApiError(m@),
            GitHubStorageError::MissingData(m) => GitHubStorageErrorView::MissingData(m@),
            GitHubStorageError::AuthError => GitHubStorageErrorView::AuthError,
            GitHubStorageError::EncodingError => GitHubStorageErrorView::EncodingError,
            GitHubStorageError::NotFound => GitHubStorageErrorView::NotFound,
            GitHubStorageError::Forbidden => GitHubStorageErrorView::Forbidden,
            GitHubStorageError::RateLimitExceeded => GitHubStorageErrorView::RateLimitExceeded,
        }
    }
}

/// Failures of the storage layer.
#[derive(Debug, Clone, PartialEq, Eq)]
pub enum StorageError {
    /// The remote repository failed.
    GitHub(GitHubStorageError),
    /// The path cannot name a file.
    InvalidPath(String),
    /// Nothing is stored under the path.
    NotFound(String),
    /// The caller may not touch the path.
    PermissionDenied(String),
    /// Too many requests.
    RateLimitExceeded,
    /// Reading or writing failed.
    IoError(String),
}

/// View of a [`StorageError`].
pub enum StorageErrorView {
    GitHub(GitHubStorageErrorView),
    InvalidPath(Seq<char>),
    NotFound(Seq<char>),
    PermissionDenied(Seq<char>),
    RateLimitExceeded,
    IoError(Seq<char>),
}

impl View for StorageError {
    type V = StorageErrorView;

    open spec fn view(&self) -> StorageErrorView {
        match self {
            StorageError::GitHub(e) => StorageErrorView::GitHub(e@),
            StorageError::InvalidPath(m) => StorageErrorView::InvalidPath(m@),
            StorageError::NotFound(m) => StorageErrorView::NotFound(m@),
            StorageError::PermissionDenied(m) => StorageErrorView::PermissionDenied(m@),
            StorageError::RateLimitExceeded => StorageErrorView::RateLimitExceeded,
            StorageError::IoError(m) => StorageErrorView::IoError(m@),
        }
    }
}

/// How a request to the remote API failed, as plain values.
#[derive(Debug, Clone, PartialEq, Eq)]
pub enum RemoteFailure {
    /// The API answered with an error status; `text` is the status as it is
    /// printed, code and reason.
    Status { code: u16, text: String },
    /// A header value could not be built.
    InvalidHeaderValue,
    /// The HTTP layer failed; the detail is its message.
    Http(String),
    /// The connection layer failed; the detail is its message.
    Hyper(String),
    /// Any other failure, with its message.
    Other(String),
}

/// The error kind that stands for a remote failure.
///
/// The statuses 404, 403, 401 and 429 have kinds of their own; every other
/// failure is an `ApiError` that says where it came from.
pub open spec fn error_of_failure(f: RemoteFailure) -> GitHubStorageErrorView {
    match f {
        RemoteFailure::Status { code, text } => if code == 404 {
            GitHubStorageErrorView::NotFound
        } else if code == 403 {
            GitHubStorageErrorView::Forbidden
        } else if code == 401 {
            GitHubStorageErrorView::AuthError
        } else if code == 429 {
            GitHubStorageErrorView::RateLimitExceeded
        } else {
            GitHubStorageErrorView::ApiError("Status code: "@ + text@)
        },
        RemoteFailure::InvalidHeaderValue => GitHubStorageErrorView::ApiError(
            "Invalid header value"@,
        ),
        RemoteFailure::Http(detail) => GitHubStorageErrorView::ApiError("HTTP error: "@ + detail@),
        RemoteFailure::Hyper(detail) => GitHubStorageErrorView::ApiError(
            "Hyper error: "@ + detail@,
        ),
        RemoteFailure::Other(detail) => GitHubStorageErrorView::ApiError(
            "Unknown error: "@ + detail@,
        ),
    }
}

impl GitHubStorageError {
    /// Classifies a remote failure.
    pub fn from(f: RemoteFailure) -> (e: GitHubStorageError)
        ensures
            e@ == error_of_failure(f),
    {
        match f {
            RemoteFailure::Status { code, text } => {
                if code == 404 {
                    GitHubStorageError::NotFound
                } else if code == 403 {
                    GitHubStorageError::Forbidden
                } else if code == 401 {
                    GitHubStorageError::AuthError
                } else if code == 429 {
                    GitHubStorageError::RateLimitExceeded
                } else {
                    GitHubStorageError::ApiError(join2("Status code: ", text.as_str()))
                }
            },
            RemoteFailure::InvalidHeaderValue => GitHubStorageError::ApiError(
                String::from_str("Invalid header value"),
            ),
            RemoteFailure::Http(detail) => GitHubStorageError::ApiError(
                join2("HTTP error: ", detail.as_str()),
            ),
            RemoteFailure::Hyper(detail) => GitHubStorageError::ApiError(
                join2("Hyper error: ", detail.as_str()),
            ),
            RemoteFailure::Other(detail) => GitHubStorageError::ApiError(
                join2("Unknown error: ", detail.as_str()),
            ),
        }
    }
}

/// The message of a codec failure.
pub open spec fn coder_message(e: CoderErrorView) -> Seq<char> {
    match e {
        CoderErrorView::InvalidHRP => "Invalid HRP format"@,
        CoderErrorView::EncodingError(m) => "Failed to encode Bech32: "@ + m,
        CoderErrorView::DecodingError(m) => "Failed to decode Bech32: "@ + m,
    }
}

/// The message of a cache failure.
pub open spec fn cache_message(e: CacheErrorView) -> Seq<char> {
    match e {
        CacheErrorView::SyncError => "Cache synchronization error"@,
        CacheErrorView::NotFound(id) => "Document not found: "@ + id,
        CacheErrorView::StorageError => "Storage backend error"@,
        CacheErrorView::InvalidFormat => "Invalid document format"@,
    }
}

/// The message of a failure of the remote repository.
pub open spec fn github_message(e: GitHubStorageErrorView) -> Seq<char> {
    match e {
        GitHubStorageErrorView::ApiError(m) => "GitHub API error: "@ + m,
        GitHubStorageErrorView::MissingData(m) => "Missing data in response: "@ + m,
        GitHubStorageErrorView::AuthError => "Authentication error"@,
        GitHubStorageErrorView::EncodingError => "Encoding error"@,
        GitHubStorageErrorView::NotFound => "Resource not found"@,
        GitHubStorageErrorView::Forbidden => "Forbidden: insufficient permissions"@,
        GitHubStorageErrorView::RateLimitExceeded => "Rate limit exceeded"@,
    }
}

/// The message of a storage failure.
pub open spec fn storage_message(e: StorageErrorView) -> Seq<char> {
    match e {
        StorageErrorView::GitHub(inner) => "GitHub storage error: "@ + github_message(inner),
        StorageErrorView::InvalidPath(m) => "Invalid path: "@ + m,
        StorageErrorView::NotFound(m) => "Resource not found: "@ + m,
        StorageErrorView::PermissionDenied(m) => "Permission denied: "@ + m,
        StorageErrorView::RateLimitExceeded => "Rate limit exceeded"@,
        StorageErrorView::IoError(m) => "I/O error: "@ + m,
    }
}

impl CoderError {
    /// The message of the failure.
    pub fn to_string(&self) -> (text: String)
        ensures
            text@ == coder_message(self@),
    {
        match self {
            CoderError::InvalidHRP => String::from_str("Invalid HRP format"),
            CoderError::EncodingError(m) => join2("Failed to encode Bech32: ", m.as_str()),
            CoderError::DecodingError(m) => join2("Failed to decode Bech32: ", m.as_str()),
        }
    }
}

impl CacheError {
    /// The message of the failure.
    pub fn to_string(&self) -> (text: String)
        ensures
            text@ == cache_message(self@),
    {
        match self {
            CacheError::SyncError => String::from_str("Cache synchronization error"),
            CacheError::NotFound(id) => join2("Document not found: ", id.as_str()),
            CacheError::StorageError => String::from_str("Storage backend error"),
            CacheError::InvalidFormat => String::from_str("Invalid document format"),
        }
    }
}

impl GitHubStorageError {
    /// The message of the failure.
    pub fn to_string(&self) -> (text: String)
        ensures
            text@ == github_message(self@),
    {
        match self {
            GitHubStorageError::ApiError(m) => join2("GitHub API error: ", m.as_str()),
            GitHubStorageError::MissingData(m) => join2("Missing data in response: ", m.as_str()),
            GitHubStorageError::AuthError => String::from_str("Authentication error"),
            GitHubStorageError::EncodingError => String::from_str("Encoding error"),
            GitHubStorageError::NotFound => String::from_str("Resource not found"),
            GitHubStorageError::Forbidden => String::from_str(
                "Forbidden: insufficient permissions",
            ),
            GitHubStorageError::RateLimitExceeded => String::from_str("Rate limit exceeded"),
        }
    }
}

impl StorageError {
    /// The message of the failure.
    pub fn to_string(&self) -> (text: String)
        ensures
            text@ == storage_message(self@),
    {
        match self {
            StorageError::GitHub(inner) => {
                let detail = inner.to_string();
                join2("GitHub storage error: ", detail.as_str())
            },
            StorageError::InvalidPath(m) => join2("Invalid path: ", m.as_str()),
            StorageError::NotFound(m) => join2("Resource not found: ", m.as_str()),
            StorageError::PermissionDenied(m) => join2("Permission denied: ", m.as_str()),
            StorageError::RateLimitExceeded => String::from_str("Rate limit exceeded"),
            StorageError::IoError(m) => join2("I/O error: ", m.as_str()),
        }
    }
}

} // verus!
