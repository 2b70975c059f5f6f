//! The greeting endpoint's fixed JSON payload.

use vstd::prelude::*;

verus! {

/// The exact body served for `GET /hello`: a JSON object with a single
/// `message` field holding a fixed greeting.
pub open spec fn hello_body_text() -> Seq<char> {
    "{\"message\":\"Hello from wasm server\"}"@
}

/// The media type the greeting is served with.
pub open spec fn json_content_type() -> Seq<char> {
    "application/json"@
}

/// Builds the greeting body. The result is the same fixed document on every
/// call: the contract pins every character, so no request-to-request state
/// can influence it.
pub fn hello_body() -> (r: String)
    ensures
        r@ == hello_body_text(),
{
    String::from_str("{\"message\":\"Hello from wasm server\"}")
}

/// The content type sent alongside the greeting body.
pub fn hello_content_type() -> (r: String)
    ensures
        r@ == json_content_type(),
{
    String::from_str("application/json")
}

/// The greeting is stateless: any two bodies the server ever produces for
/// the greeting route are equal, character for character.
pub proof fn lemma_hello_body_stable(a: Seq<char>, b: Seq<char>)
    requires
        a == hello_body_text(),
        b == hello_body_text(),
    ensures
        a == b,
{
}

} // verus!
