//! Text that crosses the native boundary: comparing it, and decoding the
//! names that the engine hands to the address resolver.

use vstd::prelude::*;
use vstd::string::*;
use vstd::utf8::*;

verus! {

/// Declares `core::str::Utf8Error`, the error of `core::str::from_utf8`, so
/// that it can be carried through; nothing is claimed of what it holds.
#[verifier::external_type_specification]
#[verifier::external_body]
pub struct ExUtf8Error(core::str::Utf8Error);

/// `core::str::from_utf8` succeeds exactly on well-formed UTF-8, and the
/// string slice it returns is made of the very bytes it was given.
pub assume_specification[ core::str::from_utf8 ](v: &[u8]) -> (r: Result<&str, core::str::Utf8Error>)
    ensures
        r is Ok <==> valid_utf8(v@),
        r is Ok ==> r->Ok_0.spec_bytes() == v@,
;

/// Whether two string slices hold the same text.
pub fn same_text(a: &str, b: &str) -> (same: bool)
    ensures
        same == (a@ == b@),
{
    let x = a.as_bytes();
    let y = b.as_bytes();
    proof {
        encode_utf8_decode_utf8(a@);
        encode_utf8_decode_utf8(b@);
    }
    if x.len() != y.len() {
        return false;
    }
    let mut i: usize = 0;
    while i < x.len()
        invariant
            i <= x.len(),
            x.len() == y.len(),
            x@ == a.spec_bytes(),
            y@ == b.spec_bytes(),
            forall|j: int| 0 <= j < i ==> x@[j] == y@[j],
        decreases x.len() - i,
    {
        if x[i] != y[i] {
            return false;
        }
        i += 1;
    }
    assert(x@ =~= y@);
    true
}

/// The name of a function as the engine asks for it, when the bytes that it
/// passed are well-formed text, and nothing otherwise. A resolver answers
/// "no such function" for the latter instead of failing.
pub fn proc_name<'a>(bytes: &'a [u8]) -> (name: Option<&'a str>)
    ensures
        name is Some <==> valid_utf8(bytes@),
        name is Some ==> name->0.spec_bytes() == bytes@,
        name is Some ==> name->0@ == decode_utf8(bytes@),
{
    match core::str::from_utf8(bytes) {
        Ok(text) => {
            proof {
                encode_utf8_decode_utf8(text@);
            }
            Some(text)
        },
        Err(_) => None,
    }
}

} // verus!
