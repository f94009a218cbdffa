use vstd::prelude::*;

use crate::digits::{parse_u32, spec_parse_u32};

verus! {

/// The pieces of a text between occurrences of a separator, in order: the
/// empty text yields one empty piece, and every separator ends one piece and
/// opens the next.
pub open spec fn split_on(s: Seq<char>, c: char) -> Seq<Seq<char>>
    decreases s.len(),
{
    if s.len() == 0 {
        seq![Seq::<char>::empty()]
    } else if s.last() == c {
        split_on(s.drop_last(), c).push(Seq::<char>::empty())
    } else {
        let rest = split_on(s.drop_last(), c);
        rest.update(rest.len() - 1, rest.last().push(s.last()))
    }
}

/// A split always yields at least one piece.
pub proof fn lemma_split_on_nonempty(s: Seq<char>, c: char)
    ensures
        split_on(s, c).len() >= 1,
    decreases s.len(),
{
    if s.len() > 0 {
        lemma_split_on_nonempty(s.drop_last(), c);
    }
}

/// Split a text at every slash, as the route handler reads a request path.
pub fn split_slash(s: &str) -> (parts: Vec<String>)
    ensures
        parts@.map_values(|p: String| p@) == split_on(s@, '/'),
{
    let n = s.unicode_len();
    let mut parts: Vec<String> = Vec::new();
    let mut start: usize = 0;
    let mut i: usize = 0;
    while i < n
        invariant
            0 <= start <= i <= n,
            n == s@.len(),
            split_on(s@.take(i as int), '/') =~~= parts@.map_values(|p: String| p@).push(
                s@.subrange(start as int, i as int),
            ),
        decreases n - i,
    {
        let ghost done = parts@.map_values(|p: String| p@);
        let ghost cur = s@.subrange(start as int, i as int);
        proof {
            assert(s@.take(i + 1).drop_last() =~= s@.take(i as int));
        }
        if s.get_char(i) == '/' {
            let piece = String::from_str(s.substring_char(start, i));
            parts.push(piece);
            proof {
                assert(parts@.map_values(|p: String| p@) =~~= done.push(cur));
                assert(split_on(s@.take(i + 1), '/') =~~= done.push(cur).push(
                    Seq::<char>::empty(),
                ));
            }
            start = i + 1;
        } else {
            proof {
                lemma_split_on_nonempty(s@.take(i as int), '/');
                assert(split_on(s@.take(i + 1), '/') =~~= done.push(cur.push(s@[i as int])));
                assert(cur.push(s@[i as int]) =~= s@.subrange(start as int, i + 1));
            }
        }
        i = i + 1;
    }
    let piece = String::from_str(s.substring_char(start, n));
    parts.push(piece);
    proof {
        assert(s@.take(n as int) =~= s@);
        assert(parts@.map_values(|p: String| p@) =~~= split_on(s@, '/'));
    }
    parts
}

/// Whether two pieces of text are the same characters.
pub fn str_eq(a: &str, b: &str) -> (r: bool)
    ensures
        r == (a@ == b@),
{
    let n = a.unicode_len();
    if n != b.unicode_len() {
        return false;
    }
    let mut i: usize = 0;
    while i < n
        invariant
            0 <= i <= n,
            n == a@.len(),
            n == b@.len(),
            forall|j: int| 0 <= j < i ==> a@[j] == b@[j],
        decreases n - i,
    {
        if a.get_char(i) != b.get_char(i) {
            return false;
        }
        i = i + 1;
    }
    proof {
        assert(a@ =~= b@);
    }
    true
}

/// Where a request is sent, as a value over the request's text.
pub enum SpecRoute {
    /// The weather snapshot.
    Weather,
    /// One icon at one resolution.
    Icon(u32, Seq<char>),
    /// Anything else: answered as not found, no cache is touched.
    NotFound,
}

/// Where a request is routed: only GET requests are served; a two-piece path
/// whose second piece is `weather.json` goes to the weather cache; a
/// four-piece path `/icon/{resolution}/{name}` with a parseable resolution
/// goes to the icon cache; everything else — any other path, and any other
/// method — is not found.
pub open spec fn spec_route(method: Seq<char>, path: Seq<char>) -> SpecRoute {
    let parts = split_on(path, '/');
    if method != "GET"@ {
        SpecRoute::NotFound
    } else if parts.len() == 2 && parts[1] == "weather.json"@ {
        SpecRoute::Weather
    } else if parts.len() == 4 && parts[1] == "icon"@ && spec_parse_u32(parts[2]) is Some {
        SpecRoute::Icon(spec_parse_u32(parts[2]).unwrap(), parts[3])
    } else {
        SpecRoute::NotFound
    }
}

/// Where a request is sent.
#[derive(Debug)]
pub enum Route {
    /// Serve the weather snapshot.
    Weather,
    /// Serve one icon at one resolution.
    Icon { resolution: u32, name: String },
    /// Answer not found.
    NotFound,
}

/// Route one inbound request by its method and path.
pub fn route(method: &str, path: &str) -> (r: Route)
    ensures
        (match r {
            Route::Weather => spec_route(method@, path@) == SpecRoute::Weather,
            Route::Icon { resolution, name } => spec_route(method@, path@) == SpecRoute::Icon(
                resolution,
                name@,
            ),
            Route::NotFound => spec_route(method@, path@) == SpecRoute::NotFound,
        }),
{
    if !str_eq(method, "GET") {
        return Route::NotFound;
    }
    let parts = split_slash(path);
    let ghost sp = split_on(path@, '/');
    assert(parts@.len() == sp.len());
    if parts.len() == 2 && str_eq(parts[1].as_str(), "weather.json") {
        assert(sp[1] == parts@[1]@);
        return Route::Weather;
    }
    if parts.len() == 4 && str_eq(parts[1].as_str(), "icon") {
        assert(sp[1] == parts@[1]@);
        assert(sp[2] == parts@[2]@);
        assert(sp[3] == parts@[3]@);
        if let Some(resolution) = parse_u32(parts[2].as_str()) {
            let name = parts[3].clone();
            return Route::Icon { resolution, name };
        }
        return Route::NotFound;
    }
    proof {
        if sp.len() == 2 {
            assert(sp[1] == parts@[1]@);
        }
        if sp.len() == 4 {
            assert(sp[1] == parts@[1]@);
        }
    }
    Route::NotFound
}

} // verus!
