//! The file-streaming endpoint's logic: mapping the file parameter to the
//! candidate on-disk path, and planning the response once the open attempt's
//! outcome is known. The open itself and the streaming of the bytes are I/O
//! and live outside the library.

use vstd::prelude::*;
use crate::routes::is_wasm_route;
use crate::routes::wasm_file_name;
use crate::routes::wasm_prefix;

verus! {

/// The static root with a trailing separator, as a relative name is appended
/// to it.
pub open spec fn static_root_slash() -> Seq<char> {
    "./static/"@
}

/// Platform path-join of the fixed static root and the file parameter, with
/// no normalization: an absolute parameter replaces the root outright, any
/// other parameter is appended verbatim.
pub open spec fn joined_path(file: Seq<char>) -> Seq<char> {
    if file.len() > 0 && file[0] == '/' {
        file
    } else {
        static_root_slash() + file
    }
}

/// Builds the candidate path for a requested file name. The parameter is
/// treated as an opaque string: no allow-list, no check for
/// parent-directory sequences.
pub fn candidate_path(file: &str) -> (r: String)
    ensures
        r@ == joined_path(file@),
{
    let n = file.unicode_len();
    if n > 0 && file.get_char(0) == '/' {
        String::from_str(file)
    } else {
        String::from_str("./static/").concat(file)
    }
}

/// No sanitization happens on the way to the file system: a relative name is
/// still present, character for character, at the end of the candidate path.
/// In particular parent-directory sequences survive the join and can escape
/// the static root.
pub proof fn lemma_join_passes_name_through(file: Seq<char>)
    requires
        !(file.len() > 0 && file[0] == '/'),
    ensures
        joined_path(file).len() == static_root_slash().len() + file.len(),
        joined_path(file).subrange(
            static_root_slash().len() as int,
            joined_path(file).len() as int,
        ) == file,
{
    assert(joined_path(file).subrange(
        static_root_slash().len() as int,
        joined_path(file).len() as int,
    ) =~= file);
}

/// Distinct file parameters always yield distinct candidate paths, so two
/// requests can never be served from one another's file.
pub proof fn lemma_join_injective(f1: Seq<char>, f2: Seq<char>)
    requires
        joined_path(f1) == joined_path(f2),
    ensures
        f1 == f2,
{
    reveal_strlit("./static/");
    let n = static_root_slash().len() as int;
    if f1.len() > 0 && f1[0] == '/' {
        if !(f2.len() > 0 && f2[0] == '/') {
            assert(joined_path(f2)[0] == '.');
        }
        assert(f1 =~= f2);
    } else {
        if f2.len() > 0 && f2[0] == '/' {
            assert(joined_path(f1)[0] == '.');
        }
        assert((static_root_slash() + f1).len() == (static_root_slash() + f2).len());
        assert(f1 =~= f2) by {
            assert(forall|i: int| 0 <= i < f1.len() ==> f1[i] == (static_root_slash()
                + f1)[n + i] && f2[i] == (static_root_slash() + f2)[n + i]);
        }
    }
}

/// A file name taken from a raw path the route table matched is one
/// non-empty segment without a separator, so its candidate path always sits
/// textually under the static root. Escaping the root therefore takes a
/// name the matcher never saw as a plain path — such as one with encoded
/// separators, which the framework decodes only after matching; that name
/// then passes through `joined_path` unguarded.
pub proof fn lemma_matched_name_stays_under_root(p: Seq<char>)
    requires
        is_wasm_route(p),
    ensures
        wasm_file_name(p).len() > 0,
        wasm_file_name(p)[0] != '/',
        joined_path(wasm_file_name(p)) == static_root_slash() + wasm_file_name(p),
{
    assert(wasm_file_name(p)[0] == p[wasm_prefix().len() as int]);
}

/// The media type every successfully opened file is served with.
pub open spec fn wasm_content_type() -> Seq<char> {
    "application/wasm"@
}

/// The verbatim cache-control value sent with a streamed file. It is not the
/// standard `no-cache` directive; the underscore form is preserved
/// deliberately.
pub open spec fn wasm_cache_control() -> Seq<char> {
    "no_cache"@
}

/// The media type of the explicit not-found reply.
pub open spec fn plain_content_type() -> Seq<char> {
    "text/plain"@
}

/// The body of the explicit not-found reply.
pub open spec fn not_found_body_text() -> Seq<char> {
    "Not Found"@
}

/// Everything the file handler decides about its response: the status line,
/// the headers, and whether the body is a fixed text or the opened file's
/// bytes streamed as they are read.
pub struct WasmReplyPlan {
    /// HTTP status code.
    pub status: u16,
    /// Value of the `Content-Type` header.
    pub content_type: String,
    /// Value of the `Cache-Control` header, when one is sent.
    pub cache_control: Option<String>,
    /// `Some` fixed text body, or `None` when the opened file itself is the
    /// body, streamed chunk by chunk.
    pub body: Option<String>,
}

/// Plans the file handler's response from the one fact that decides it:
/// whether the candidate file could be opened. Success means a streamed 200
/// with the wasm media type and the verbatim cache-control value; any
/// failure to open means a uniform plain-text 404, with no distinction among
/// causes.
pub fn plan_wasm_reply(opened: bool) -> (r: WasmReplyPlan)
    ensures
        opened ==> {
            &&& r.status == 200u16
            &&& r.content_type@ == wasm_content_type()
            &&& r.cache_control matches Some(c) && c@ == wasm_cache_control()
            &&& r.body is None
        },
        !opened ==> {
            &&& r.status == 404u16
            &&& r.content_type@ == plain_content_type()
            &&& r.cache_control is None
            &&& r.body matches Some(b) && b@ == not_found_body_text()
        },
{
    if opened {
        WasmReplyPlan {
            status: 200,
            content_type: String::from_str("application/wasm"),
            cache_control: Some(String::from_str("no_cache")),
            body: None,
        }
    } else {
        WasmReplyPlan {
            status: 404,
            content_type: String::from_str("text/plain"),
            cache_control: None,
            body: Some(String::from_str("Not Found")),
        }
    }
}

} // verus!
