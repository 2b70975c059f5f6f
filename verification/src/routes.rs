//! The server's route table: which handler a request's method and path
//! select. Exactly three routes exist; everything else falls through to the
//! framework's default not-found reply.

use vstd::prelude::*;
use crate::text::str_eq;

verus! {

/// The only method the route table recognizes.
pub open spec fn get_method() -> Seq<char> {
    "GET"@
}

/// Path of the greeting route.
pub open spec fn hello_path() -> Seq<char> {
    "/hello"@
}

/// Path of the dependency-graph document route.
pub open spec fn graph_path() -> Seq<char> {
    "/graph.json"@
}

/// Prefix of the file-streaming route; the rest of the path is the file
/// parameter.
pub open spec fn wasm_prefix() -> Seq<char> {
    "/wasm/"@
}

/// A path selects the file-streaming route when it extends the prefix by a
/// single non-empty segment: at least one more character, none of them a
/// path separator.
pub open spec fn is_wasm_route(p: Seq<char>) -> bool {
    &&& p.len() > wasm_prefix().len()
    &&& p.subrange(0, wasm_prefix().len() as int) == wasm_prefix()
    &&& forall|i: int| wasm_prefix().len() <= i < p.len() ==> p[i] != '/'
}

/// The file parameter carried by a file-streaming path: everything after the
/// prefix.
pub open spec fn wasm_file_name(p: Seq<char>) -> Seq<char> {
    p.subrange(wasm_prefix().len() as int, p.len() as int)
}

/// The handler a request is dispatched to.
pub enum Route {
    /// The greeting endpoint.
    Hello,
    /// The static dependency-graph document.
    Graph,
    /// The file-streaming endpoint, carrying the requested file name.
    Wasm(String),
    /// No route matched; the framework's default not-found reply applies.
    NotFound,
}

/// Dispatches a request: exactly one route matches any given method and
/// path, and the file route carries the path's final segment verbatim.
pub fn match_route(method: &str, path: &str) -> (r: Route)
    ensures
        (r is Hello) <==> (method@ == get_method() && path@ == hello_path()),
        (r is Graph) <==> (method@ == get_method() && path@ == graph_path()),
        (r is Wasm) <==> (method@ == get_method() && is_wasm_route(path@)),
        r matches Route::Wasm(f) ==> f@ == wasm_file_name(path@),
        (r is NotFound) <==> !(method@ == get_method() && (path@ == hello_path()
            || path@ == graph_path() || is_wasm_route(path@))),
{
    proof {
        reveal_strlit("/hello");
        reveal_strlit("/graph.json");
        reveal_strlit("/wasm/");
    }
    if !str_eq(method, "GET") {
        return Route::NotFound;
    }
    if str_eq(path, "/hello") {
        proof {
            assert(!is_wasm_route(path@));
        }
        return Route::Hello;
    }
    if str_eq(path, "/graph.json") {
        proof {
            assert(path@.subrange(0, 6)[1] == path@[1]);
            assert(!is_wasm_route(path@));
        }
        return Route::Graph;
    }
    let plen = path.unicode_len();
    if plen <= 6 {
        return Route::NotFound;
    }
    let prefix = path.substring_char(0, 6);
    if !str_eq(prefix, "/wasm/") {
        return Route::NotFound;
    }
    let mut i: usize = 6;
    while i < plen
        invariant
            6 <= i <= plen,
            plen == path@.len(),
            method@ == get_method(),
            path@ != hello_path(),
            path@ != graph_path(),
            wasm_prefix().len() == 6,
            path@.subrange(0, 6) == wasm_prefix(),
            forall|j: int| 6 <= j < i ==> path@[j] != '/',
        decreases plen - i,
    {
        if path.get_char(i) == '/' {
            return Route::NotFound;
        }
        i = i + 1;
    }
    let rest = path.substring_char(6, plen);
    Route::Wasm(String::from_str(rest))
}

} // verus!
