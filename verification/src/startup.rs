use vstd::prelude::*;

use crate::error::Error;

verus! {

/// What to do about one cache subdirectory at startup.
#[derive(Debug, Clone, Copy, PartialEq, Eq, Structural)]
pub enum DirStep {
    /// The path already names a directory: use it as it stands.
    UseExisting,
    /// Nothing is at the path yet: create the directory.
    Create,
}

/// Path of a cache subdirectory under the cache root: `{root}/{sub}`.
pub fn subdir_path(root: &str, sub: &str) -> (r: String)
    ensures
        r@ == root@ + "/"@ + sub@,
{
    String::from_str(root).concat("/").concat(sub)
}

/// Decide what a probe of a cache subdirectory path means: an existing
/// directory is used, a free path is created, and a path that exists but is
/// not a directory is a fatal conflict.
pub fn plan_cache_dir(path: &str, exists: bool, is_dir: bool) -> (r: Result<DirStep, Error>)
    ensures
        exists && is_dir ==> r == Ok::<DirStep, Error>(DirStep::UseExisting),
        !exists ==> r == Ok::<DirStep, Error>(DirStep::Create),
        exists && !is_dir ==> (r matches Err(e) && (e matches Error::PathConflict(p) && p@
            == path@)),
{
    if exists {
        if is_dir {
            Ok(DirStep::UseExisting)
        } else {
            Err(Error::PathConflict(String::from_str(path)))
        }
    } else {
        Ok(DirStep::Create)
    }
}

/// How the rasterizer executable named on the command line is to be found.
#[derive(Debug, Clone, Copy, PartialEq, Eq, Structural)]
pub enum ConverterLookup {
    /// A bare name: search the executable directories of the environment.
    SearchPath,
    /// A name with a directory part: probe that path itself.
    Probe,
}

/// Whether a converter name has a directory part.
pub open spec fn has_separator(s: Seq<char>) -> bool {
    exists|i: int| 0 <= i < s.len() && s[i] == '/'
}

/// Whether a converter name holds anything to look for at all: at least one
/// character besides path separators.
pub open spec fn has_stem(s: Seq<char>) -> bool {
    exists|i: int| 0 <= i < s.len() && s[i] != '/'
}

/// Decide how to look up the rasterizer executable: a bare name is searched
/// on the environment's executable path, a name with a directory part is
/// probed where it points, and a name with nothing but separators — the empty
/// name included — is not found.
pub fn classify_converter_arg(name: &str) -> (r: Result<ConverterLookup, Error>)
    ensures
        !has_stem(name@) ==> (r matches Err(e) && (e matches Error::NotFoundError(p) && p@
            == name@)),
        has_stem(name@) && !has_separator(name@) ==> r == Ok::<ConverterLookup, Error>(
            ConverterLookup::SearchPath,
        ),
        has_stem(name@) && has_separator(name@) ==> r == Ok::<ConverterLookup, Error>(
            ConverterLookup::Probe,
        ),
{
    let n = name.unicode_len();
    let mut saw_sep = false;
    let mut saw_stem = false;
    let mut i: usize = 0;
    while i < n
        invariant
            0 <= i <= n,
            n == name@.len(),
            saw_sep <==> exists|j: int| 0 <= j < i && name@[j] == '/',
            saw_stem <==> exists|j: int| 0 <= j < i && name@[j] != '/',
        decreases n - i,
    {
        if name.get_char(i) == '/' {
            saw_sep = true;
        } else {
            saw_stem = true;
        }
        i = i + 1;
    }
    if !saw_stem {
        Err(Error::NotFoundError(String::from_str(name)))
    } else if saw_sep {
        Ok(ConverterLookup::Probe)
    } else {
        Ok(ConverterLookup::SearchPath)
    }
}

/// Turn the result of the executable-path search into the converter to use:
/// the path that was found, or not-found under the name that was searched.
pub fn converter_search_outcome(name: &str, found: Option<String>) -> (r: Result<String, Error>)
    ensures
        found matches Some(p) ==> r == Ok::<String, Error>(p),
        found is None ==> (r matches Err(e) && (e matches Error::NotFoundError(m) && m@
            == name@)),
{
    match found {
        Some(p) => Ok(p),
        None => Err(Error::NotFoundError(String::from_str(name))),
    }
}

/// Turn the probe of an explicitly given converter path into the converter to
/// use: the name itself where the probe saw a present or executable file,
/// not-found otherwise.
pub fn converter_probe_outcome(name: String, accessible: bool) -> (r: Result<String, Error>)
    ensures
        accessible ==> r == Ok::<String, Error>(name),
        !accessible ==> r == Err::<String, Error>(Error::NotFoundError(name)),
{
    if accessible {
        Ok(name)
    } else {
        Err(Error::NotFoundError(name))
    }
}

/// Require the weather credential at startup: serving must not begin without
/// one.
pub fn require_api_key(key: Option<String>) -> (r: Result<String, Error>)
    ensures
        key matches Some(k) ==> r == Ok::<String, Error>(k),
        key is None ==> r == Err::<String, Error>(Error::NoApiKey),
{
    match key {
        Some(k) => Ok(k),
        None => Err(Error::NoApiKey),
    }
}

/// Base URL of the icon store for one icon style:
/// `https://yastatic.net/weather/i/icons/{style}/`.
pub fn icon_base_url(style: &str) -> (r: String)
    ensures
        r@ == "https://yastatic.net/weather/i/icons/"@ + style@ + "/"@,
{
    String::from_str("https://yastatic.net/weather/i/icons/").concat(style).concat("/")
}

} // verus!
