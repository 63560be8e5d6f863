//! What this crate takes on trust from the standard library: the two error
//! types that pass through it, and the decoding of bytes as UTF-8 text. Nothing
//! here is proved; the rest of the crate is proved from it.

use vstd::prelude::*;
use vstd::utf8::{decode_utf8, valid_utf8};

verus! {

/// `std::io::Error`: the failure that a read of the file system reports.
/// It is carried through as it came; nothing is claimed of what it holds.
#[verifier::external_type_specification]
#[verifier::external_body]
pub struct ExIoError(std::io::Error);

/// `std::string::FromUtf8Error`: what `String::from_utf8` returns for bytes
/// that are not UTF-8. Nothing is claimed of what it holds.
#[verifier::external_type_specification]
#[verifier::external_body]
pub struct ExFromUtf8Error(std::string::FromUtf8Error);

/// `String::from_utf8` succeeds exactly on the byte vectors that are well-formed
/// UTF-8, and the string it then returns is the text that those bytes encode.
/// This is assumed of the standard library, not proved.
pub assume_specification[ String::from_utf8 ](vec: Vec<u8>) -> (text: Result<
    String,
    std::string::FromUtf8Error,
>)
    ensures
        text is Ok <==> valid_utf8(vec@),
        text matches Ok(s) ==> s@ == decode_utf8(vec@),
;

} // verus!
