//! The request and response surface of the storage operations, as plain
//! values, and the shared per-request preparation: splitting the location
//! and resolving its backend root to an operator.

use vstd::prelude::*;

use crate::config::ConfigMap;
use crate::factory::{
    resolve, spec_decide, Decision, OperatorFactory, ResolveError, spec_refusal_error,
};
use crate::location::{has_uri_root, parse_uri, uri_path, uri_root};

verus! {

/// A point in time as the backend reports it: seconds since the epoch and
/// a nanosecond part.
#[derive(Clone, Copy, Debug, PartialEq, Eq, Structural)]
pub struct Timestamp {
    pub second: i64,
    pub nanosecond: u32,
}

/// What can be done with an entry's path.
#[derive(Clone, Copy, Debug, Default, PartialEq, Eq, Structural)]
pub enum EntryMode {
    /// The path has data to read.
    File,
    /// The path can be listed.
    Dir,
    /// Nothing is known about the path.
    #[default]
    Unknown,
}

/// A metadata snapshot for one entry, reduced to plain values.
pub struct Metadata {
    pub mode: EntryMode,
    pub is_current: Option<bool>,
    pub is_deleted: bool,
    pub cache_control: Option<String>,
    pub content_disposition: Option<String>,
    pub content_length: Option<u64>,
    pub content_md5: Option<String>,
    pub content_type: Option<String>,
    pub content_encoding: Option<String>,
    pub etag: Option<String>,
    pub last_modified: Option<Timestamp>,
    pub version: Option<String>,
    pub user_metadata: Option<ConfigMap>,
}

impl Metadata {
    /// A snapshot with the given mode and nothing else known.
    pub fn with_mode(mode: EntryMode) -> (r: Metadata)
        ensures
            r.mode == mode,
            !r.is_deleted,
            r.is_current is None,
            r.cache_control is None,
            r.content_disposition is None,
            r.content_length is None,
            r.content_md5 is None,
            r.content_type is None,
            r.content_encoding is None,
            r.etag is None,
            r.last_modified is None,
            r.version is None,
            r.user_metadata is None,
    {
        Metadata {
            mode,
            is_current: None,
            is_deleted: false,
            cache_control: None,
            content_disposition: None,
            content_length: None,
            content_md5: None,
            content_type: None,
            content_encoding: None,
            etag: None,
            last_modified: None,
            version: None,
            user_metadata: None,
        }
    }
}

/// One listed entry: its path and its metadata snapshot.
pub struct Entry {
    pub path: String,
    pub metadata: Metadata,
}

/// Options for a list operation; an absent field means the backend's
/// default.
pub struct ListOptionsDef {
    /// Maximum results per underlying request.
    pub limit: Option<usize>,
    /// Key to start listing after.
    pub start_after: Option<String>,
    /// List everything under the path instead of one level.
    pub recursive: bool,
    /// Also return object versions, where supported.
    pub versions: bool,
    /// Also return deleted objects, where supported.
    pub deleted: bool,
}

/// A list request: optional list options.
pub struct CommonListRequest {
    pub options: Option<ListOptionsDef>,
}

impl CommonListRequest {
    /// A request with every option left to the backend's default.
    pub fn example() -> (r: CommonListRequest)
        ensures
            r.options is None,
    {
        CommonListRequest { options: None }
    }
}

/// The response to a list request: the entries, in the backend's order.
pub struct ListResponse {
    pub entries: Vec<Entry>,
}

impl ListResponse {
    /// An empty response.
    pub fn new() -> (r: ListResponse)
        ensures
            r.entries@.len() == 0,
    {
        ListResponse { entries: Vec::new() }
    }

    /// Append the next entry the backend returned: entries are kept in
    /// exactly the order they arrive.
    pub fn push_entry(&mut self, entry: Entry)
        ensures
            final(self).entries@ == old(self).entries@.push(entry),
    {
        self.entries.push(entry);
    }
}

/// A byte range of a read.
#[derive(Clone, Copy, Debug, PartialEq, Eq, Structural)]
pub struct BytesRange {
    /// Offset of the range.
    pub offset: u64,
    /// Size of the range, or to the end.
    pub size: Option<u64>,
}

/// Options for read operations (and presigned reads).
pub struct ReadOptions {
    pub range: BytesRange,
    pub version: Option<String>,
    pub if_match: Option<String>,
    pub if_none_match: Option<String>,
    pub if_modified_since: Option<Timestamp>,
    pub if_unmodified_since: Option<Timestamp>,
    pub concurrent: usize,
    pub chunk: Option<usize>,
    pub gap: Option<usize>,
    pub override_content_type: Option<String>,
    pub override_cache_control: Option<String>,
    pub override_content_disposition: Option<String>,
}

/// Options for stat operations (and presigned stats).
pub struct StatOptions {
    pub version: Option<String>,
    pub if_match: Option<String>,
    pub if_none_match: Option<String>,
    pub if_modified_since: Option<Timestamp>,
    pub if_unmodified_since: Option<Timestamp>,
    pub override_content_type: Option<String>,
    pub override_cache_control: Option<String>,
    pub override_content_disposition: Option<String>,
}

/// A presign request: the expiration of the presigned URL, in seconds, and
/// optional conditional options.
pub struct PresignRequest<O> {
    pub expiration: u64,
    pub options: Option<O>,
}

impl<O> PresignRequest<O> {
    /// A request for a one-hour presigned URL with no options.
    pub fn example() -> (r: PresignRequest<O>)
        ensures
            r.expiration == 3600,
            r.options is None,
    {
        PresignRequest { expiration: 3600, options: None }
    }
}

/// A presigned request descriptor: HTTP method, target URI, and headers.
pub struct PresignResponse {
    pub method: String,
    pub uri: String,
    pub headers: Vec<(String, String)>,
}

/// The example presigned response: a plain `GET` of one URI.
pub fn example_presign_response() -> (r: PresignResponse)
    ensures
        r.method@ == "GET"@,
        r.uri@ == "https://example.com/path/to/file"@,
        r.headers@.len() == 0,
{
    PresignResponse {
        method: "GET".to_owned(),
        uri: "https://example.com/path/to/file".to_owned(),
        headers: Vec::new(),
    }
}

/// How a resolution error relates to the factory's decision for the root:
/// a refusal surfaces as its own error, and a construction the backend
/// rejected surfaces as unsupported-scheme (registry construction only) or
/// invalid-configuration.
pub open spec fn resolve_error_matches_decision(d: Decision, e: ResolveError) -> bool {
    match d {
        Decision::Refuse { error } => e == spec_refusal_error(error),
        Decision::FromUri { .. } => e matches ResolveError::UnsupportedScheme || e matches
            ResolveError::ConfigInvalid { .. },
        Decision::FromProfile { .. } => e matches ResolveError::ConfigInvalid { .. },
    }
}

/// Split a request's location into object path and backend root, and
/// resolve the root through the factory.
///
/// Fails with [`ResolveError::InvalidLocation`] exactly when the location
/// is not in URI form; otherwise resolution of the root decides, per
/// [`spec_decide`].
pub fn parse_location(factory: &OperatorFactory, location: &str) -> (r: Result<
    (String, opendal::Operator),
    ResolveError,
>)
    requires
        factory.wf(),
    ensures
        match r {
            Ok(p) => {
                &&& has_uri_root(location@)
                &&& p.0@ == uri_path(location@)
                &&& !(spec_decide(*factory, uri_root(location@)) matches Decision::Refuse { .. })
            },
            Err(e) => {
                ||| (!has_uri_root(location@) && e matches ResolveError::InvalidLocation)
                ||| (has_uri_root(location@) && resolve_error_matches_decision(
                    spec_decide(*factory, uri_root(location@)),
                    e,
                ))
            },
        },
{
    let (root, path) = match parse_uri(location) {
        None => {
            return Err(ResolveError::InvalidLocation);
        },
        Some(p) => p,
    };
    match resolve(factory, root.as_str()) {
        Ok(op) => Ok((path, op)),
        Err(e) => Err(e),
    }
}

} // verus!
