//! A small HTTP wasm-module server, split into verified logic and a thin
//! unverified shell. This library holds everything the server decides or
//! computes: the route table, the mapping from a file parameter to the
//! candidate on-disk path, the response plan for the file endpoint, and the
//! two fixed JSON documents (the greeting and the dependency graph).

use vstd::prelude::*;

pub mod graph;
pub mod hello;
pub mod modules;
pub mod routes;
pub mod static_files;
pub mod text;

verus! {

/// The fixed address and port the serving process listens on.
pub open spec fn bind_address_text() -> Seq<char> {
    "0.0.0.0:3002"@
}

/// The address the listener is bound to at startup; binding is the one
/// fatal step, and the address is never reconfigured afterwards.
pub fn bind_address() -> (r: String)
    ensures
        r@ == bind_address_text(),
{
    String::from_str("0.0.0.0:3002")
}

} // verus!
