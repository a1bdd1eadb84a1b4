//! Encodings that travel with the requests: base64 for payloads and log
//! chunks, JSON for dispatch metadata.
use vstd::prelude::*;

use std::collections::BTreeMap;

use crate::error::Error;

verus! {

/// The standard, padded base64 text of the UTF-8 bytes of a text.
pub uninterp spec fn base64_of(s: Seq<char>) -> Seq<char>;

/// The bytes that a standard base64 text stands for; `None` when the text is
/// not valid base64.
pub uninterp spec fn base64_bytes_of(s: Seq<char>) -> Option<Seq<u8>>;

/// The text that UTF-8 bytes stand for; `None` when they are not valid UTF-8.
pub uninterp spec fn utf8_text_of(b: Seq<u8>) -> Option<Seq<char>>;

/// The compact JSON object of a map from strings to strings, keys in order.
pub uninterp spec fn json_of_meta(m: Map<Seq<char>, Seq<char>>) -> Seq<char>;

/// The text that a base64 text of UTF-8 bytes stands for, if any.
pub open spec fn decoded_text(s: Seq<char>) -> Option<Seq<char>> {
    match base64_bytes_of(s) {
        Some(b) => utf8_text_of(b),
        None => None,
    }
}

/// Relies on `base64::encode`, which encodes the bytes of its input with the
/// standard alphabet and padding.
#[verifier::external_body]
fn encode_base64(s: &str) -> (r: String)
    ensures
        r@ == base64_of(s@),
{
    base64::encode(s)
}

/// Relies on `base64::decode`, which decodes the standard alphabet and fails
/// on anything that is not base64 of it; the error is handed back as its
/// text.
#[verifier::external_body]
fn decode_base64(s: &str) -> (r: Result<Vec<u8>, String>)
    ensures
        match r {
            Ok(b) => base64_bytes_of(s@) == Some(b@),
            Err(_) => base64_bytes_of(s@) is None,
        },
{
    match base64::decode(s) {
        Ok(b) => Ok(b),
        Err(e) => Err(e.to_string()),
    }
}

/// Relies on `String::from_utf8`, which accepts exactly the valid UTF-8 byte
/// sequences; the error is handed back as its text.
#[verifier::external_body]
fn text_from_utf8(b: Vec<u8>) -> (r: Result<String, String>)
    ensures
        match r {
            Ok(s) => utf8_text_of(b@) == Some(s@),
            Err(_) => utf8_text_of(b@) is None,
        },
{
    match String::from_utf8(b) {
        Ok(s) => Ok(s),
        Err(e) => Err(e.to_string()),
    }
}

/// Relies on `serde_json::to_string`, which writes a map of strings as a
/// compact JSON object in the map's (sorted) key order. It fails only when a
/// `Serialize` impl fails or a map has keys that are not strings, neither of
/// which can happen for a map of strings to strings.
#[verifier::external_body]
fn meta_json(m: &BTreeMap<String, String>) -> (r: Result<String, String>)
    ensures
        r is Ok,
        r matches Ok(s) ==> s@ == json_of_meta(m.deep_view()),
{
    match serde_json::to_string(m) {
        Ok(s) => Ok(s),
        Err(e) => Err(e.to_string()),
    }
}

/// Encodes dispatch metadata as JSON; a map of strings always encodes.
pub fn to_json(metas: &BTreeMap<String, String>) -> (r: Result<String, Error>)
    ensures
        r matches Ok(s) && s@ == json_of_meta(metas.deep_view()),
{
    match meta_json(metas) {
        Ok(s) => Ok(s),
        Err(m) => Err(Error::Serialize(m)),
    }
}

/// Text to and from base64.
pub trait Base64: Sized {
    /// The base64 form of the text.
    fn to_base64(&self) -> String;

    /// The text that a base64 form stands for.
    fn from_base64(b64: String) -> Result<Self, Error>;
}

impl Base64 for String {
    fn to_base64(&self) -> (r: String)
        ensures
            r@ == base64_of(self@),
    {
        encode_base64(self.as_str())
    }

    fn from_base64(b64: String) -> (r: Result<String, Error>)
        ensures
            match decoded_text(b64@) {
                Some(t) => r matches Ok(s) && s@ == t,
                None => r matches Err(Error::ScenarioErr(_)),
            },
    {
        match decode_base64(b64.as_str()) {
            Ok(bytes) => match text_from_utf8(bytes) {
                Ok(s) => Ok(s),
                Err(m) => Err(Error::ScenarioErr(m)),
            },
            Err(m) => Err(Error::ScenarioErr(m)),
        }
    }
}

} // verus!
