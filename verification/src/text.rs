use vstd::prelude::*;
use vstd::slice::slice_to_vec;
use vstd::string::StringSliceAdditionalSpecFns;
use vstd::utf8::{decode_utf8, valid_utf8, encode_utf8_decode_utf8};

use crate::error::Error;

verus! {

/// `core::str::from_utf8` accepts exactly the byte strings that are UTF-8, and
/// the string slice it returns then has those bytes.
pub assume_specification[ core::str::from_utf8 ](v: &[u8]) -> (r: Result<
    &str,
    core::str::Utf8Error,
>)
    ensures
        r is Ok <==> valid_utf8(v@),
        r matches Ok(s) ==> s.spec_bytes() == v@,
;

/// The bytes of `s` followed by one zero byte: the form in which the engine
/// takes a name or a path.
pub open spec fn c_string_spec(s: Seq<char>) -> Seq<u8> {
    vstd::utf8::encode_utf8(s).push(0u8)
}

/// Encodes `s` for the engine, as its UTF-8 bytes with a terminating zero.
pub fn c_string(s: &str) -> (bytes: Vec<u8>)
    ensures
        bytes@ == c_string_spec(s@),
{
    let mut bytes = slice_to_vec(s.as_bytes());
    bytes.push(0u8);
    bytes
}

/// Decodes text that the engine wrote.  `bytes` is the text itself, without a
/// terminator.
pub fn cptr_to_string(bytes: &[u8]) -> (r: Result<String, Error>)
    ensures
        valid_utf8(bytes@) ==> r is Ok && r->Ok_0@ == decode_utf8(bytes@),
        !valid_utf8(bytes@) ==> r is Err && r->Err_0 is InvalidString,
{
    match core::str::from_utf8(bytes) {
        Ok(s) => {
            proof {
                encode_utf8_decode_utf8(s@);
            }
            Ok(s.to_owned())
        },
        Err(e) => Err(Error::InvalidString(e)),
    }
}

} // verus!
