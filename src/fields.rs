//! Member decoders for the value types of the entities: durations,
//! timestamps, URLs, quoted floats and label sets.
use vstd::prelude::*;
use crate::duration::{duration_ms, parse_duration, Duration};
use crate::float::{is_float_literal, FloatValue};
use crate::json::{
    at, members, quoted_float_value, required, required_member, str_view, DecodeError,
    DecodeFault, Json,
};
use crate::labels::{decode_labels, first_members, labels_fault, Labels};
use crate::timestamp::{parse_timestamp, rfc3339_value, Timestamp};

verus! {

/// A URL, held as the `url` crate writes it once it has read it.
#[derive(Debug, Clone, PartialEq, Eq)]
pub struct Url {
    text: String,
}

impl View for Url {
    type V = Seq<char>;

    /// The URL as written by the `url` crate.
    closed spec fn view(&self) -> Seq<char> {
        self.text@
    }
}

impl Url {
    /// The URL as text.
    pub fn as_str(&self) -> (r: &str)
        ensures
            r@ == self@,
    {
        self.text.as_str()
    }
}

/// How `url` writes the text once it has read it as an absolute URL, or
/// `None` where it does not read it as one.
pub uninterp spec fn url_serialization(s: Seq<char>) -> Option<Seq<char>>;

/// Relies on url::Url::parse and on the URL's serialization: the text of the
/// URL as `url` writes it, or `None` where the text is not a URL.
#[verifier::external_body]
fn read_url(s: &str) -> (r: Option<String>)
    ensures
        match r {
            Some(t) => url_serialization(s@) == Some(t@),
            None => url_serialization(s@) is None,
        },
{
    match url::Url::parse(s) {
        Ok(u) => Some(String::from(u)),
        Err(_) => None,
    }
}

/// Reads an absolute URL.
pub fn parse_url(s: &str) -> (r: Option<Url>)
    ensures
        match r {
            Some(u) => url_serialization(s@) == Some(u@),
            None => url_serialization(s@) is None,
        },
{
    match read_url(s) {
        Some(text) => Some(Url { text }),
        None => None,
    }
}

/// The fault of a string that must satisfy `ok`.
pub open spec fn token_fault(j: Json, key: Seq<char>, ok: bool) -> Option<DecodeFault> {
    match j {
        Json::Str(s) => if ok {
            None
        } else {
            Some(DecodeFault::InvalidValue(key, s@))
        },
        _ => Some(DecodeFault::InvalidType(key)),
    }
}

/// The text is a duration whose milliseconds fit in an `i64`.
pub open spec fn duration_fits(s: Seq<char>) -> bool {
    duration_ms(s) matches Some(t) && t <= i64::MAX
}

/// The fault of the required member `key`: absent, or a value that does not
/// decode.
pub open spec fn duration_member_fault(j: Json, key: Seq<char>) -> Option<DecodeFault> {
    required(j, key, token_fault(at(j, key), key, duration_fits(str_view(at(j, key)))))
}

/// Decodes the required member `key`, a duration string.
pub fn duration_member(m: &Vec<(String, Json)>, key: &str) -> (r: Result<Duration, DecodeError>)
    ensures
        match r {
            Ok(d) => duration_member_fault(Json::Object(*m), key@) is None && duration_ms(
                str_view(at(Json::Object(*m), key@)),
            ) == Some(d@),
            Err(e) => duration_member_fault(Json::Object(*m), key@) == Some(e@),
        },
{
    match required_member(m, key)? {
        Json::Str(s) => match parse_duration(s.as_str()) {
            Ok(d) => Ok(d),
            Err(_) => Err(DecodeError::InvalidValue(key.to_string(), s.clone())),
        },
        _ => Err(DecodeError::InvalidType(key.to_string())),
    }
}

/// The fault of the required member `key`: absent, or a value that does not
/// decode.
pub open spec fn timestamp_member_fault(j: Json, key: Seq<char>) -> Option<DecodeFault> {
    required(j, key, token_fault(at(j, key), key, rfc3339_value(str_view(at(j, key))) is Some))
}

/// Decodes the required member `key`, an RFC 3339 timestamp.
pub fn timestamp_member(m: &Vec<(String, Json)>, key: &str) -> (r: Result<Timestamp, DecodeError>)
    ensures
        match r {
            Ok(t) => timestamp_member_fault(Json::Object(*m), key@) is None && rfc3339_value(
                str_view(at(Json::Object(*m), key@)),
            ) == Some(t),
            Err(e) => timestamp_member_fault(Json::Object(*m), key@) == Some(e@),
        },
{
    match required_member(m, key)? {
        Json::Str(s) => match parse_timestamp(s.as_str()) {
            Some(t) => Ok(t),
            None => Err(DecodeError::InvalidValue(key.to_string(), s.clone())),
        },
        _ => Err(DecodeError::InvalidType(key.to_string())),
    }
}

/// The fault of the required member `key`: absent, or a value that does not
/// decode.
pub open spec fn url_member_fault(j: Json, key: Seq<char>) -> Option<DecodeFault> {
    required(j, key, token_fault(at(j, key), key, url_serialization(str_view(at(j, key))) is Some))
}

/// Decodes the required member `key`, a URL.
pub fn url_member(m: &Vec<(String, Json)>, key: &str) -> (r: Result<Url, DecodeError>)
    ensures
        match r {
            Ok(u) => url_member_fault(Json::Object(*m), key@) is None && url_serialization(
                str_view(at(Json::Object(*m), key@)),
            ) == Some(u@),
            Err(e) => url_member_fault(Json::Object(*m), key@) == Some(e@),
        },
{
    match required_member(m, key)? {
        Json::Str(s) => match parse_url(s.as_str()) {
            Some(u) => Ok(u),
            None => Err(DecodeError::InvalidValue(key.to_string(), s.clone())),
        },
        _ => Err(DecodeError::InvalidType(key.to_string())),
    }
}

/// The fault of the required member `key`: absent, or a value that does not
/// decode.
pub open spec fn quoted_float_member_fault(j: Json, key: Seq<char>) -> Option<DecodeFault> {
    required(j, key, token_fault(at(j, key), key, is_float_literal(str_view(at(j, key)))))
}

/// Decodes the required member `key`, a float sent as a quoted string.
pub fn quoted_float_member(m: &Vec<(String, Json)>, key: &str) -> (r: Result<FloatValue, DecodeError>)
    ensures
        match r {
            Ok(v) => quoted_float_member_fault(Json::Object(*m), key@) is None && v@ == str_view(
                at(Json::Object(*m), key@),
            ) && v.wf(),
            Err(e) => quoted_float_member_fault(Json::Object(*m), key@) == Some(e@),
        },
{
    let j = required_member(m, key)?;
    quoted_float_value(j, key)
}

/// The fault of the required member `key`: absent, or a value that does not
/// decode.
pub open spec fn labels_member_fault(j: Json, key: Seq<char>) -> Option<DecodeFault> {
    required(j, key, labels_fault(at(j, key), key))
}

/// The labels that the member `key` holds.
pub open spec fn labels_member_view(j: Json, key: Seq<char>) -> Seq<(Seq<char>, Seq<char>)> {
    first_members(members(at(j, key)))
}

/// Decodes the required member `key`, an object of label values.
pub fn labels_member(m: &Vec<(String, Json)>, key: &str) -> (r: Result<Labels, DecodeError>)
    ensures
        match r {
            Ok(l) => labels_member_fault(Json::Object(*m), key@) is None && l@ == labels_member_view(
                Json::Object(*m),
                key@,
            ),
            Err(e) => labels_member_fault(Json::Object(*m), key@) == Some(e@),
        },
{
    let j = required_member(m, key)?;
    decode_labels(j, key)
}

} // verus!
