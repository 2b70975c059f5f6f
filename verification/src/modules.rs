//! The served module artifacts expose two tiny functions; their observable
//! values are pinned here. The artifact build itself is out of scope: these
//! are the values a loaded module hands back.

use vstd::prelude::*;

verus! {

/// The fixed color a module reports.
pub open spec fn module_color() -> u32 {
    0xC0C0C0FFu32
}

/// The fixed text a module points at, without its trailing NUL.
pub open spec fn module_text() -> Seq<char> {
    "Hello from module 4"@
}

/// The byte image of the module's text: one ASCII byte per character,
/// terminated by a NUL byte.
pub open spec fn module_text_bytes() -> Seq<u8> {
    Seq::new(module_text().len(), |i: int| module_text()[i] as u8).push(0u8)
}

/// Returns the module's fixed color.
pub fn get_color() -> (r: u32)
    ensures
        r == module_color(),
{
    0xC0C0C0FF
}

/// Returns the module's NUL-terminated text as its exact byte sequence.
pub fn get_text() -> (r: Vec<u8>)
    ensures
        r@ == module_text_bytes(),
{
    let s = "Hello from module 4";
    proof {
        reveal_strlit("Hello from module 4");
    }
    let mut v = s.as_bytes_vec();
    proof {
        broadcast use vstd::string::is_ascii_spec_bytes;

        assert(vstd::string::is_ascii(s));
        assert(v@ =~= Seq::new(module_text().len(), |i: int| module_text()[i] as u8));
    }
    v.push(0u8);
    proof {
        assert(v@ =~= module_text_bytes());
    }
    v
}

} // verus!
