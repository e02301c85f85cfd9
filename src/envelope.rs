use vstd::prelude::*;
use vstd::slice::slice_to_vec;
use vstd::string::*;
use vstd::utf8::*;

use crate::field_type::{tag_of, FieldType};

verus! {

/// A cell payload tagged with the type of the field that produced it.
#[derive(Debug, Clone)]
pub struct AnyData {
    pub type_id: String,
    pub value: Vec<u8>,
}

/// The text that a payload reads as: its UTF-8 decoding, or the empty text
/// where the bytes are not UTF-8.
pub open spec fn text_of(bytes: Seq<u8>) -> Seq<char> {
    if valid_utf8(bytes) {
        decode_utf8(bytes)
    } else {
        Seq::empty()
    }
}

/// Relies on String::from_utf8: it succeeds exactly on valid UTF-8 and then
/// holds the characters that the bytes encode.
#[verifier::external_body]
fn utf8_to_string(bytes: Vec<u8>) -> (r: Option<String>)
    ensures
        match r {
            Some(s) => valid_utf8(bytes@) && s@ == decode_utf8(bytes@),
            None => !valid_utf8(bytes@),
        },
{
    String::from_utf8(bytes).ok()
}

impl AnyData {
    /// Wraps the UTF-8 bytes of a string.
    pub fn from_str(field_type: FieldType, s: &str) -> (r: AnyData)
        ensures
            r.type_id@ == tag_of(field_type),
            r.value@ == encode_utf8(s@),
    {
        Self::from_bytes(field_type, s.as_bytes())
    }

    /// Wraps a copy of raw bytes.
    pub fn from_bytes(field_type: FieldType, bytes: &[u8]) -> (r: AnyData)
        ensures
            r.type_id@ == tag_of(field_type),
            r.value@ == bytes@,
    {
        AnyData { type_id: field_type.type_id(), value: slice_to_vec(bytes) }
    }

    /// The payload read as UTF-8; bytes that are not UTF-8 read as the empty
    /// string.
    pub fn to_string(&self) -> (r: String)
        ensures
            r@ == text_of(self.value@),
    {
        match utf8_to_string(slice_to_vec(self.value.as_slice())) {
            Some(s) => s,
            None => String::new(),
        }
    }
}

/// A string wrapped as a payload reads back as that string.
pub proof fn lemma_text_round_trip(s: Seq<char>)
    ensures
        text_of(encode_utf8(s)) == s,
{
    encode_utf8_valid_utf8(s);
    encode_utf8_decode_utf8(s);
}

} // verus!
