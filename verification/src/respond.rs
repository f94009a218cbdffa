use vstd::prelude::*;

verus! {

/// The headers the core sets on a successful response: a content type and an
/// exact content length always, a last-modified date only for icon responses.
pub struct ResponseMeta {
    /// Value of the `Content-Type` header.
    pub content_type: String,
    /// Value of the `Content-Length` header: the exact byte count served.
    pub content_length: u64,
    /// Value of the `Last-Modified` header, where one is set.
    pub last_modified: Option<String>,
}

} // verus!
