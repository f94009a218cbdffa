use vstd::prelude::*;

use crate::error::Error;
use crate::http_date::http_date_ts;

verus! {

/// Size cap on a single download: a body that runs past this many bytes is
/// discarded and the fetch fails.
pub const MAX_FETCH_BYTES: usize = 1024 * 1024;

/// Permission bits given to every installed cache file: owner read/write,
/// group read, no world access.
pub const INSTALL_MODE: u32 = 0o640;

/// How a response status is acted on. `conditional` says whether the request
/// carried a conditional header: a not-modified status is only meaningful as
/// an answer to a conditional request.
#[derive(Debug, Clone, PartialEq, Eq, Structural)]
pub enum StatusOutcome {
    /// The body is to be streamed to disk and installed.
    Success,
    /// The origin's content is unchanged: keep the existing file.
    NotModified,
    /// Any other status: the fetch failed, the destination stays untouched.
    Upstream(u16),
}

/// What a response status means for the fetch, as a value.
pub open spec fn spec_classify_status(status: u16, conditional: bool) -> StatusOutcome {
    if status == 200 {
        StatusOutcome::Success
    } else if status == 304 && conditional {
        StatusOutcome::NotModified
    } else {
        StatusOutcome::Upstream(status)
    }
}

/// Decide what a response status means: 200 is success, 304 answers a
/// conditional request with "unchanged", everything else is an upstream
/// failure that leaves the destination untouched.
pub fn classify_status(status: u16, conditional: bool) -> (r: StatusOutcome)
    ensures
        r == spec_classify_status(status, conditional),
{
    if status == 200 {
        StatusOutcome::Success
    } else if status == 304 && conditional {
        StatusOutcome::NotModified
    } else {
        StatusOutcome::Upstream(status)
    }
}

/// Total length of a sequence of body chunks.
pub open spec fn total_bytes(chunks: Seq<Seq<u8>>) -> int
    decreases chunks.len(),
{
    if chunks.len() == 0 {
        0
    } else {
        total_bytes(chunks.drop_last()) + chunks.last().len()
    }
}

/// Accept one more body chunk of a download: either the running total stays
/// within the size cap and the chunk is written, or the whole download is
/// rejected as too large.
pub fn accept_chunk(written: usize, chunk_len: usize) -> (r: Result<usize, Error>)
    requires
        written <= MAX_FETCH_BYTES,
    ensures
        r matches Ok(w) ==> w == written + chunk_len && w <= MAX_FETCH_BYTES,
        r is Err <==> written + chunk_len > MAX_FETCH_BYTES,
        r is Err ==> r == Err::<usize, Error>(Error::ResourceTooLarge),
{
    if chunk_len > MAX_FETCH_BYTES - written {
        Err(Error::ResourceTooLarge)
    } else {
        Ok(written + chunk_len)
    }
}

/// Chunk totals only grow as more chunks arrive.
proof fn lemma_total_bytes_monotone(chunks: Seq<Seq<u8>>, i: int)
    requires
        0 <= i <= chunks.len(),
    ensures
        total_bytes(chunks.take(i)) <= total_bytes(chunks),
    decreases chunks.len() - i,
{
    if i < chunks.len() {
        assert(chunks.take(i + 1).drop_last() =~= chunks.take(i));
        lemma_total_bytes_monotone(chunks, i + 1);
        assert(chunks.take(chunks.len() as int) =~= chunks);
    } else {
        assert(chunks.take(i) =~= chunks);
    }
}

/// Run the size check over a whole downloaded body, chunk by chunk: the scan
/// accepts exactly the bodies whose total length stays within the cap, and a
/// body that runs past the cap yields `ResourceTooLarge`.
pub fn scan_chunks(chunks: &Vec<Vec<u8>>) -> (r: Result<usize, Error>)
    ensures
        r matches Ok(w) ==> w == total_bytes(chunks.deep_view()) && w <= MAX_FETCH_BYTES,
        r is Err <==> total_bytes(chunks.deep_view()) > MAX_FETCH_BYTES,
        r is Err ==> r == Err::<usize, Error>(Error::ResourceTooLarge),
{
    let ghost all = chunks.deep_view();
    let mut written: usize = 0;
    let mut i: usize = 0;
    while i < chunks.len()
        invariant
            0 <= i <= chunks.len(),
            all == chunks.deep_view(),
            all.len() == chunks.len(),
            written == total_bytes(all.take(i as int)),
            written <= MAX_FETCH_BYTES,
        decreases chunks.len() - i,
    {
        assert(all[i as int] == chunks[i as int]@);
        match accept_chunk(written, chunks[i].len()) {
            Ok(w) => {
                written = w;
                proof {
                    assert(all.take(i + 1).drop_last() =~= all.take(i as int));
                }
                i = i + 1;
            },
            Err(e) => {
                proof {
                    assert(all.take(i + 1).drop_last() =~= all.take(i as int));
                    assert(total_bytes(all.take(i + 1)) > MAX_FETCH_BYTES);
                    lemma_total_bytes_monotone(all, i + 1);
                }
                return Err(e);
            },
        }
    }
    proof {
        assert(all.take(chunks.len() as int) =~= all);
    }
    Ok(written)
}

/// What the fetcher does to the streamed bytes just before the atomic rename:
/// the permission bits to set, and the modification time to apply, if any.
pub struct InstallPlan {
    /// Permission bits of the installed file.
    pub mode: u32,
    /// Timestamp (seconds since the Unix epoch) to stamp onto the file, or
    /// `None` to keep the filesystem-assigned time.
    pub mtime: Option<i64>,
}

/// Plan the install of a fully streamed body: the mode is always
/// owner-read/write plus group-read, and the modification time is the
/// origin's last-modified header when one is present and parses as an HTTP
/// date; otherwise the filesystem-assigned time stands.
pub fn install_plan(last_modified: &Option<String>) -> (r: InstallPlan)
    ensures
        r.mode == INSTALL_MODE,
        r.mtime == (match *last_modified {
            Some(h) => http_date_ts(h@),
            None => None::<i64>,
        }),
{
    let mtime = match last_modified {
        Some(h) => crate::http_date::parse_http_date(h.as_str()),
        None => None,
    };
    InstallPlan { mode: INSTALL_MODE, mtime }
}

} // verus!
