//! Decoding of stored bytes, which the standard library does. Nothing in this
//! file is proved: it states what `String::from_utf8` returns.

use std::string::FromUtf8Error;
use vstd::prelude::*;
use vstd::utf8::{decode_utf8, valid_utf8};

verus! {

/// Makes `std::string::FromUtf8Error` known as an opaque type.
#[verifier::external_type_specification]
#[verifier::external_body]
pub struct ExFromUtf8Error(FromUtf8Error);

/// `String::from_utf8` succeeds on the byte vectors that are well-formed
/// UTF-8, on no others, and then returns the text that the bytes encode.
pub assume_specification[ String::from_utf8 ](vec: Vec<u8>) -> (text: Result<String, FromUtf8Error>)
    ensures
        text is Ok <==> valid_utf8(vec@),
        text matches Ok(decoded) ==> decoded@ == decode_utf8(vec@),
;

} // verus!
