use vstd::prelude::*;

use crate::digits::{all_digits, char_digit, dec_rep, u32_to_string};
use crate::error::Error;
use crate::fetch::{InstallPlan, StatusOutcome, INSTALL_MODE};
use crate::http_date::{format_http_date, formattable_ts, http_date_of};
use crate::respond::ResponseMeta;

verus! {

/// What the second phase of an icon serve does, once the source vector has
/// been revalidated.
#[derive(Debug, Clone, Copy, PartialEq, Eq, Structural)]
pub enum IconPhase {
    /// The source is freshly installed: run the rasterizer once, then serve
    /// its output.
    Render,
    /// The source is unchanged: serve the raster file that already exists for
    /// the requested resolution.
    ServeExisting,
}

/// The phase a revalidation outcome leads to, or `None` where the serve
/// fails: a fresh source always renders; an unchanged source reuses the
/// existing raster and fails when none exists yet; an upstream failure stops
/// the call before any render.
pub open spec fn spec_icon_phase(outcome: StatusOutcome, raster_exists: bool) -> Option<
    IconPhase,
> {
    match outcome {
        StatusOutcome::Success => Some(IconPhase::Render),
        StatusOutcome::NotModified => if raster_exists {
            Some(IconPhase::ServeExisting)
        } else {
            None
        },
        StatusOutcome::Upstream(_) => None,
    }
}

/// The conditional GET that revalidates an icon's source vector.
pub struct RevalidationRequest {
    /// URL of the source vector at the icon store.
    pub url: String,
    /// Value of the `If-Modified-Since` header, present exactly when a
    /// source file already exists on disk.
    pub if_modified_since: Option<String>,
}

/// The icon cache: per-name source vectors plus resolution-keyed raster
/// derivations under one cache directory, fed from a fixed base URL and
/// rendered by one external converter.
#[derive(Debug, Clone)]
pub struct IconCache {
    /// Path of the external rasterizer executable.
    pub convert: String,
    /// Path of the cache directory that holds sources and rasters.
    pub cache: String,
    /// Base URL of the icon store; a source's URL is this base followed by
    /// the icon's file name.
    pub url: String,
}

impl IconCache {
    /// Path of an icon's source vector: `{cache}/{name}.svg`.
    pub fn svg_path(&self, name: &str) -> (r: String)
        ensures
            r@ == self.cache@ + "/"@ + name@ + ".svg"@,
    {
        self.cache.clone().concat("/").concat(name).concat(".svg")
    }

    /// Path of an icon's raster for one resolution:
    /// `{cache}/{name}.{resolution}.png`.
    pub fn raster_path(&self, name: &str, resolution: u32) -> (r: String)
        ensures
            r@ == self.cache@ + "/"@ + name@ + "."@ + dec_rep(resolution as int) + ".png"@,
    {
        self.cache.clone().concat("/").concat(name).concat(".").concat(
            u32_to_string(resolution).as_str(),
        ).concat(".png")
    }

    /// URL of an icon's source vector at the store: `{url}{name}.svg`.
    pub fn source_url(&self, name: &str) -> (r: String)
        ensures
            r@ == self.url@ + name@ + ".svg"@,
    {
        self.url.clone().concat(name).concat(".svg")
    }

    /// Build the conditional GET that revalidates an icon's source: its URL,
    /// and an `If-Modified-Since` date derived from the existing source
    /// file's modification time — attached exactly when such a file exists.
    pub fn revalidation_request(&self, name: &str, source_mtime: Option<i64>) -> (r:
        RevalidationRequest)
        ensures
            r.url@ == self.url@ + name@ + ".svg"@,
            source_mtime is None ==> r.if_modified_since is None,
            r.if_modified_since matches Some(h) ==> source_mtime matches Some(mt) && h@
                == http_date_of(mt),
            source_mtime matches Some(mt) && formattable_ts(mt) ==> r.if_modified_since is Some,
    {
        let if_modified_since = match source_mtime {
            Some(mt) => format_http_date(mt),
            None => None,
        };
        RevalidationRequest { url: self.source_url(name), if_modified_since }
    }

    /// Decide what follows the revalidation of an icon's source. A fresh
    /// source (200) is rendered, always and exactly once; an unchanged source
    /// (304) never is — the existing raster is served, and where none exists
    /// for this resolution the call fails as not found; any other status
    /// fails the call before any render is attempted.
    pub fn next_phase(&self, outcome: &StatusOutcome, raster_exists: bool, raster_path: &str) -> (r:
        Result<IconPhase, Error>)
        ensures
            r matches Ok(p) ==> spec_icon_phase(*outcome, raster_exists) == Some(p),
            r is Ok <==> spec_icon_phase(*outcome, raster_exists) is Some,
            r == Ok::<IconPhase, Error>(IconPhase::Render) <==> *outcome
                == StatusOutcome::Success,
            *outcome == StatusOutcome::NotModified && !raster_exists ==> (r matches Err(e) && (e
                matches Error::NotFoundError(p) && p@ == raster_path@)),
            outcome matches StatusOutcome::Upstream(s) ==> r == Err::<IconPhase, Error>(
                Error::UpstreamError(*s),
            ),
    {
        match outcome {
            StatusOutcome::Success => Ok(IconPhase::Render),
            StatusOutcome::NotModified => {
                if raster_exists {
                    Ok(IconPhase::ServeExisting)
                } else {
                    Err(Error::NotFoundError(String::from_str(raster_path)))
                }
            },
            StatusOutcome::Upstream(s) => Err(Error::UpstreamError(*s)),
        }
    }

    /// The rasterizer invocation for one conversion job: the converter, with
    /// anti-aliasing on, the requested output width in pixels, a black
    /// background, writing to the given temporary path, reading the given
    /// source path.
    pub fn render_command(&self, source_path: &str, tmp_path: &str, resolution: u32) -> (r: Vec<
        String,
    >)
        ensures
            r@.len() == 9,
            r@[0]@ == self.convert@,
            r@[1]@ == "-a"@,
            r@[2]@ == "-w"@,
            r@[3]@ == dec_rep(resolution as int),
            r@[4]@ == "-b"@,
            r@[5]@ == "black"@,
            r@[6]@ == "-o"@,
            r@[7]@ == tmp_path@,
            r@[8]@ == source_path@,
    {
        let mut cmd: Vec<String> = Vec::new();
        cmd.push(self.convert.clone());
        cmd.push(String::from_str("-a"));
        cmd.push(String::from_str("-w"));
        cmd.push(u32_to_string(resolution));
        cmd.push(String::from_str("-b"));
        cmd.push(String::from_str("black"));
        cmd.push(String::from_str("-o"));
        cmd.push(String::from_str(tmp_path));
        cmd.push(String::from_str(source_path));
        cmd
    }

    /// Decide what the rasterizer's exit means: only exit code zero lets the
    /// raster be installed; any other exit — including death without a code —
    /// fails the call and leaves the raster destination untouched.
    pub fn on_render_exit(&self, exit_code: Option<i32>) -> (r: Result<(), Error>)
        ensures
            r is Ok <==> exit_code == Some(0i32),
            exit_code matches Some(c) ==> (c == 0 || r == Err::<(), Error>(
                Error::ConversionFailure(c),
            )),
            exit_code is None ==> r == Err::<(), Error>(Error::ConversionFailure(-1i32)),
    {
        match exit_code {
            Some(0) => Ok(()),
            Some(c) => Err(Error::ConversionFailure(c)),
            None => Err(Error::ConversionFailure(-1i32)),
        }
    }

    /// Plan the install of a rendered raster: standard cache permissions, and
    /// the modification time copied from the source vector that produced it —
    /// not the render's wall-clock time — so a raster's date always equals
    /// its source's.
    pub fn raster_install_plan(&self, source_mtime: i64) -> (r: InstallPlan)
        ensures
            r.mode == INSTALL_MODE,
            r.mtime == Some(source_mtime),
    {
        InstallPlan { mode: INSTALL_MODE, mtime: Some(source_mtime) }
    }

    /// The headers of an icon response: the raster is served as PNG, with its
    /// exact byte count and a last-modified date derived from the raster
    /// file's (inherited) modification time.
    pub fn response_meta(&self, len: u64, raster_mtime: i64) -> (r: ResponseMeta)
        ensures
            r.content_type@ == "image/png"@,
            r.content_length == len,
            r.last_modified matches Some(h) ==> h@ == http_date_of(raster_mtime),
            formattable_ts(raster_mtime) ==> r.last_modified is Some,
    {
        ResponseMeta {
            content_type: String::from_str("image/png"),
            content_length: len,
            last_modified: format_http_date(raster_mtime),
        }
    }
}

/// A name-plus-dot-plus-digits stem determines its two parts: the digits run
/// after the last dot is unambiguous, because digit runs hold no dot.
proof fn lemma_stem_injective(n1: Seq<char>, d1: Seq<char>, n2: Seq<char>, d2: Seq<char>)
    requires
        d1.len() >= 1,
        all_digits(d1),
        d2.len() >= 1,
        all_digits(d2),
        n1 + "."@ + d1 == n2 + "."@ + d2,
    ensures
        n1 == n2,
        d1 == d2,
{
    reveal_strlit(".");
    let s = n1 + "."@ + d1;
    assert(s.len() == n1.len() + 1 + d1.len());
    assert((n2 + "."@ + d2).len() == n2.len() + 1 + d2.len());
    assert(char_digit('.') < 0);
    if d1.len() < d2.len() {
        let p = n1.len() as int;
        assert(s[p] == '.');
        assert(s[p] == d2[p - n2.len() - 1]);
        assert(char_digit(d2[p - n2.len() - 1]) >= 0);
        assert(false);
    } else if d2.len() < d1.len() {
        let p = n2.len() as int;
        assert((n2 + "."@ + d2)[p] == '.');
        assert(s[p] == d1[p - n1.len() - 1]);
        assert(char_digit(d1[p - n1.len() - 1]) >= 0);
        assert(false);
    } else {
        assert(n1.len() == n2.len());
        assert forall|i: int| 0 <= i < n1.len() implies n1[i] == n2[i] by {
            assert(s[i] == n1[i]);
            assert(s[i] == n2[i]);
        }
        assert(n1 =~= n2);
        assert forall|i: int| 0 <= i < d1.len() implies d1[i] == d2[i] by {
            assert(s[n1.len() + 1 + i] == d1[i]);
            assert(s[n1.len() + 1 + i] == d2[i]);
        }
        assert(d1 =~= d2);
    }
}

/// Each (name, resolution) pair is an independent cache entry: two entries
/// share a raster path only if they are the same name at the same resolution.
pub proof fn lemma_raster_paths_independent(
    cache: Seq<char>,
    n1: Seq<char>,
    r1: u32,
    n2: Seq<char>,
    r2: u32,
)
    requires
        cache + "/"@ + n1 + "."@ + dec_rep(r1 as int) + ".png"@ == cache + "/"@ + n2 + "."@
            + dec_rep(r2 as int) + ".png"@,
    ensures
        n1 == n2,
        r1 == r2,
{
    reveal_strlit("/");
    reveal_strlit(".png");
    crate::digits::lemma_dec_rep_all_digits(r1 as int);
    crate::digits::lemma_dec_rep_all_digits(r2 as int);
    let d1 = dec_rep(r1 as int);
    let d2 = dec_rep(r2 as int);
    let s1 = n1 + "."@ + d1;
    let s2 = n2 + "."@ + d2;
    let f1 = cache + "/"@ + n1 + "."@ + d1 + ".png"@;
    let f2 = cache + "/"@ + n2 + "."@ + d2 + ".png"@;
    assert(f1.len() == cache.len() + 1 + s1.len() + 4);
    assert(f2.len() == cache.len() + 1 + s2.len() + 4);
    assert(s1.len() == s2.len());
    assert forall|i: int| 0 <= i < s1.len() implies s1[i] == s2[i] by {
        assert(f1[cache.len() + 1 + i] == s1[i]);
        assert(f2[cache.len() + 1 + i] == s2[i]);
    }
    assert(s1 =~= s2);
    lemma_stem_injective(n1, d1, n2, d2);
    crate::digits::lemma_dec_rep_injective(r1 as int, r2 as int);
}

/// An unchanged source — a 304 on revalidation — never leads to a render,
/// whether or not a raster already exists for the requested resolution.
pub proof fn lemma_not_modified_never_renders(raster_exists: bool)
    ensures
        spec_icon_phase(StatusOutcome::NotModified, raster_exists) != Some(IconPhase::Render),
{
}

/// A fresh source — a 200 on revalidation — always leads to the render phase,
/// which invokes the rasterizer exactly once.
pub proof fn lemma_fresh_source_always_renders(raster_exists: bool)
    ensures
        spec_icon_phase(StatusOutcome::Success, raster_exists) == Some(IconPhase::Render),
{
}

} // verus!
