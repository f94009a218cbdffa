use vstd::prelude::*;

use crate::error::Error;
use crate::fetch::{classify_status, StatusOutcome};
use crate::respond::ResponseMeta;

verus! {

/// Maximum age, in seconds, at which the cached weather snapshot is still
/// served without asking upstream.
pub const TTL_SECONDS: i64 = 30 * 60;

/// Whether a snapshot written at `mtime` is still fresh at `now`: strictly
/// younger than the time-to-live. At exactly the time-to-live the snapshot is
/// stale and a refetch is due.
pub open spec fn spec_fresh(mtime: i64, now: i64) -> bool {
    now - mtime < TTL_SECONDS
}

/// What a weather serve does first.
#[derive(Debug, Clone, Copy, PartialEq, Eq, Structural)]
pub enum WeatherStep {
    /// The snapshot on disk is fresh: serve it as it stands, with no
    /// outbound request.
    ServeCached,
    /// The snapshot is stale or absent: issue one unconditional GET with the
    /// credential header, install the body on success, then serve.
    Refetch,
}

/// The step a weather serve takes, given the cached file's modification time
/// (`None` where no cached file exists) and the current time.
pub open spec fn spec_weather_plan(cached_mtime: Option<i64>, now: i64) -> WeatherStep {
    match cached_mtime {
        Some(mt) => if spec_fresh(mt, now) {
            WeatherStep::ServeCached
        } else {
            WeatherStep::Refetch
        },
        None => WeatherStep::Refetch,
    }
}

/// The weather cache: one snapshot file at a fixed path, one fixed remote
/// URL, one credential. Freshness is read from the filesystem on every
/// access; no in-process index exists.
#[derive(Debug, Clone)]
pub struct WeatherCache {
    /// Path of the cached snapshot file.
    pub cache: String,
    /// The fixed remote URL of the weather endpoint.
    pub url: String,
    /// The credential sent with every outbound weather request.
    pub key: String,
}

impl WeatherCache {
    /// Decide whether a serve can answer from disk or must refetch: the
    /// cached file must exist and be strictly younger than the time-to-live.
    pub fn plan(&self, cached_mtime: Option<i64>, now: i64) -> (r: WeatherStep)
        ensures
            r == spec_weather_plan(cached_mtime, now),
    {
        match cached_mtime {
            Some(mt) => {
                if (now as i128) - (mt as i128) < (TTL_SECONDS as i128) {
                    WeatherStep::ServeCached
                } else {
                    WeatherStep::Refetch
                }
            },
            None => WeatherStep::Refetch,
        }
    }

    /// The one header an outbound weather request carries: the credential,
    /// under its fixed name.
    pub fn request_header(&self) -> (r: (String, String))
        ensures
            r.0@ == "X-Yandex-API-Key"@,
            r.1@ == self.key@,
    {
        (String::from_str("X-Yandex-API-Key"), self.key.clone())
    }

    /// Decide what the status of the unconditional refetch means: only
    /// success lets the install go ahead; any other status fails the call and
    /// leaves an existing snapshot untouched and servable.
    pub fn on_fetch_status(&self, status: u16) -> (r: Result<(), Error>)
        ensures
            r is Ok <==> status == 200,
            status != 200 ==> r == Err::<(), Error>(Error::UpstreamError(status)),
    {
        match classify_status(status, false) {
            StatusOutcome::Success => Ok(()),
            StatusOutcome::NotModified | StatusOutcome::Upstream(_) => Err(
                Error::UpstreamError(status),
            ),
        }
    }

    /// The headers of a weather response: the snapshot is served as JSON,
    /// with its exact byte count and no last-modified date.
    pub fn response_meta(&self, len: u64) -> (r: ResponseMeta)
        ensures
            r.content_type@ == "application/json"@,
            r.content_length == len,
            r.last_modified is None,
    {
        ResponseMeta {
            content_type: String::from_str("application/json"),
            content_length: len,
            last_modified: None,
        }
    }
}

/// A serve within the freshness window of a prior successful fetch takes the
/// `ServeCached` step: it performs zero outbound requests and answers with
/// the cached file's bytes as they stand.
pub proof fn lemma_fresh_serve_needs_no_fetch(mtime: i64, now: i64)
    requires
        0 <= now - mtime < TTL_SECONDS,
    ensures
        spec_weather_plan(Some(mtime), now) == WeatherStep::ServeCached,
{
}

/// A serve at or past the time-to-live takes the `Refetch` step, which issues
/// exactly one outbound request.
pub proof fn lemma_stale_serve_refetches(mtime: i64, now: i64)
    requires
        now - mtime >= TTL_SECONDS,
    ensures
        spec_weather_plan(Some(mtime), now) == WeatherStep::Refetch,
{
}

/// Repeated serves against an already-fresh cache all take the same
/// `ServeCached` step: none of them writes, so each answers with the bytes of
/// the same unchanged file — the output is byte-identical.
pub proof fn lemma_fresh_serve_idempotent(mtime: i64, now1: i64, now2: i64)
    requires
        0 <= now1 - mtime < TTL_SECONDS,
        0 <= now2 - mtime < TTL_SECONDS,
    ensures
        spec_weather_plan(Some(mtime), now1) == spec_weather_plan(Some(mtime), now2),
        spec_weather_plan(Some(mtime), now1) == WeatherStep::ServeCached,
{
}

} // verus!
