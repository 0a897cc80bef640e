//! Strings as they cross the interface.

use vstd::prelude::*;
use vstd::utf8::{decode_utf8, encode_utf8, valid_utf8};

use crate::convert::Convert;
use crate::errors::Error;

verus! {

/// The reason for which bytes are no UTF-8.
#[verifier::external_type_specification]
#[verifier::external_body]
pub struct ExUtf8Error(core::str::Utf8Error);

/// `str::from_utf8`: gives the text that the bytes encode if they are valid UTF-8,
/// and an error if they are not.
pub assume_specification[ core::str::from_utf8 ](v: &[u8]) -> (result: Result<
    &str,
    core::str::Utf8Error,
>)
    ensures
        match result {
            Ok(text) => valid_utf8(v@) && text@ == decode_utf8(v@),
            Err(_) => !valid_utf8(v@),
        },
;

/// A string as it is sent by the caller: bytes of which nothing is known yet.
#[derive(Debug, PartialEq, Eq)]
pub struct FFIString {
    /// The bytes of the string.
    pub bytes: Vec<u8>,
}

impl View for FFIString {
    type V = Seq<u8>;

    open spec fn view(&self) -> Seq<u8> {
        self.bytes@
    }
}

impl FFIString {
    /// The string that holds `text`.
    pub fn new(text: &str) -> (string: FFIString)
        ensures
            string@ == encode_utf8(text@),
            string.bytes@ == encode_utf8(text@),
    {
        FFIString { bytes: text.as_bytes_vec() }
    }

    /// The text that the string holds, if it is valid UTF-8.
    pub fn to_str(&self) -> (result: Result<&str, Error>)
        ensures
            match result {
                Ok(text) => valid_utf8(self@) && text@ == decode_utf8(self@),
                Err(error) => !valid_utf8(self@) && error == Error::InvalidStringError,
            },
    {
        match core::str::from_utf8(self.bytes.as_slice()) {
            Ok(text) => Ok(text),
            Err(_) => Err(Error::InvalidStringError),
        }
    }
}

impl Convert for FFIString {
    type Target = String;

    open spec fn fault(&self) -> Option<Error> {
        if valid_utf8(self@) {
            None
        } else {
            Some(Error::InvalidStringError)
        }
    }

    open spec fn becomes(&self, target: String) -> bool {
        target@ == decode_utf8(self@)
    }

    proof fn lemma_fault_refuses_input(&self) {
    }

    fn convert(&self) -> (result: Result<String, Error>) {
        match self.to_str() {
            Ok(text) => Ok(text.to_owned()),
            Err(error) => Err(error),
        }
    }
}

/// A string that is accepted reaches the database with the very bytes that were sent.
pub proof fn lemma_string_keeps_its_bytes(string: FFIString, target: String)
    requires
        string.fault() is None,
        string.becomes(target),
    ensures
        encode_utf8(target@) == string.bytes@,
{
    vstd::utf8::decode_utf8_encode_utf8(string@);
}

/// A string is accepted if and only if its bytes are those of some text; otherwise it is
/// refused as no valid string.
pub proof fn lemma_string_is_accepted_if_it_is_text(string: FFIString)
    ensures
        match string.fault() {
            None => exists|text: Seq<char>| #[trigger] encode_utf8(text) == string.bytes@,
            Some(error) => error is InvalidStringError && forall|text: Seq<char>| #[trigger]
                encode_utf8(text) != string.bytes@,
        },
{
    if string.fault() is None {
        vstd::utf8::decode_utf8_encode_utf8(string@);
        assert(encode_utf8(decode_utf8(string@)) == string.bytes@);
    }
    assert forall|text: Seq<char>| string.fault() is Some implies #[trigger] encode_utf8(text)
        != string.bytes@ by {
        vstd::utf8::encode_utf8_valid_utf8(text);
    }
}

/// A text that is sent as a string is accepted and read back unchanged.
pub proof fn lemma_text_survives(string: FFIString, text: Seq<char>)
    requires
        string.bytes@ == encode_utf8(text),
    ensures
        string.fault() is None,
        forall|target: String| #[trigger] string.becomes(target) <==> target@ == text,
{
    vstd::utf8::encode_utf8_valid_utf8(text);
    vstd::utf8::encode_utf8_decode_utf8(text);
}

} // verus!
