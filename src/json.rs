//! A JSON document as a tree of plain values, read from text by serde_json,
//! and the field-level decoders that the entity decoders are built from.
use vstd::prelude::*;

verus! {

#[verifier::external_type_specification]
#[verifier::external_body]
pub struct ExJsonValue(serde_json::Value);

/// A JSON value. Numbers keep the literal that serde_json prints for them;
/// objects keep their members in the order the reader produced them.
#[derive(Debug)]
pub enum Json {
    Null,
    Bool(bool),
    Number(String),
    Str(String),
    Array(Vec<Json>),
    Object(Vec<(String, Json)>),
}

/// Why a text could not be read as a JSON document.
#[derive(Debug, Clone, PartialEq, Eq)]
pub enum JsonError {
    /// The text is not JSON; holds the reader's message.
    Syntax(String),
}

/// The document that serde_json reads from a text, as a tree; `None` where
/// the text is not JSON.
pub uninterp spec fn json_of(text: Seq<char>) -> Option<Json>;

/// Relies on serde_json::from_str: reads a JSON text into serde_json's tree
/// and hands out that tree as converted by `tree_of`; the error is kept as its
/// message.
#[verifier::external_body]
fn read_document(text: &str) -> (r: Result<Json, String>)
    ensures
        match r {
            Ok(j) => json_of(text@) == Some(j),
            Err(_) => json_of(text@) is None,
        },
{
    match serde_json::from_str::<serde_json::Value>(text) {
        Ok(v) => Ok(tree_of(v)),
        Err(e) => Err(e.to_string()),
    }
}

/// Relies on the variants of serde_json::Value and on serde_json's printing of
/// a Number: the same tree, item for item and member for member, in order.
#[verifier::external_body]
fn tree_of(v: serde_json::Value) -> Json {
    match v {
        serde_json::Value::Null => Json::Null,
        serde_json::Value::Bool(b) => Json::Bool(b),
        serde_json::Value::Number(n) => Json::Number(n.to_string()),
        serde_json::Value::String(s) => Json::Str(s),
        serde_json::Value::Array(a) => Json::Array(a.into_iter().map(tree_of).collect()),
        serde_json::Value::Object(m) => {
            Json::Object(m.into_iter().map(|(k, x)| (k, tree_of(x))).collect())
        },
    }
}

/// Reads a JSON text into a document tree.
pub fn parse_json(text: &str) -> (r: Result<Json, JsonError>)
    ensures
        match r {
            Ok(j) => json_of(text@) == Some(j),
            Err(JsonError::Syntax(_)) => json_of(text@) is None,
        },
{
    match read_document(text) {
        Ok(j) => Ok(j),
        Err(message) => Err(JsonError::Syntax(message)),
    }
}

/// Why a document does not decode to the entity asked for.
#[derive(Debug, Clone, PartialEq, Eq)]
pub enum DecodeError {
    /// A required field is absent; holds the field's wire name.
    MissingField(String),
    /// A field holds the wrong kind of JSON value; holds the field's wire name.
    InvalidType(String),
    /// A field holds a value that it does not admit: the field's wire name and
    /// the offending token.
    InvalidValue(String, String),
    /// A query result names a result type other than `vector`, `matrix` and
    /// `scalar`; holds that name.
    UnsupportedResultType(String),
}

/// The model of a [`DecodeError`].
pub enum DecodeFault {
    MissingField(Seq<char>),
    InvalidType(Seq<char>),
    InvalidValue(Seq<char>, Seq<char>),
    UnsupportedResultType(Seq<char>),
}

impl View for DecodeError {
    type V = DecodeFault;

    open spec fn view(&self) -> DecodeFault {
        match self {
            DecodeError::MissingField(f) => DecodeFault::MissingField(f@),
            DecodeError::InvalidType(f) => DecodeFault::InvalidType(f@),
            DecodeError::InvalidValue(f, t) => DecodeFault::InvalidValue(f@, t@),
            DecodeError::UnsupportedResultType(t) => DecodeFault::UnsupportedResultType(t@),
        }
    }
}

/// The first fault of the two.
pub open spec fn either(a: Option<DecodeFault>, b: Option<DecodeFault>) -> Option<DecodeFault> {
    if a is Some {
        a
    } else {
        b
    }
}

/// The value of the first member named `key`.
pub open spec fn member(fields: Seq<(String, Json)>, key: Seq<char>) -> Option<Json>
    decreases fields.len(),
{
    if fields.len() == 0 {
        None
    } else if fields[0].0@ == key {
        Some(fields[0].1)
    } else {
        member(fields.drop_first(), key)
    }
}

/// The members of an object, or an empty sequence for any other value.
pub open spec fn members(j: Json) -> Seq<(String, Json)> {
    match j {
        Json::Object(m) => m@,
        _ => Seq::empty(),
    }
}

/// The items of an array, or an empty sequence for any other value.
pub open spec fn items(j: Json) -> Seq<Json> {
    match j {
        Json::Array(a) => a@,
        _ => Seq::empty(),
    }
}

/// The member `key` of an object value.
pub open spec fn field_of(j: Json, key: Seq<char>) -> Option<Json> {
    member(members(j), key)
}

/// Looks up the first member named `key`.
pub fn member_of<'a>(fields: &'a Vec<(String, Json)>, key: &str) -> (r: Option<&'a Json>)
    ensures
        match r {
            Some(x) => member(fields@, key@) == Some(*x),
            None => member(fields@, key@) is None,
        },
{
    let mut i: usize = 0;
    proof {
        assert(fields@.skip(0) =~= fields@);
    }
    while i < fields.len()
        invariant
            i <= fields@.len(),
            member(fields@, key@) == member(fields@.skip(i as int), key@),
        decreases fields@.len() - i,
    {
        let ghost rest = fields@.skip(i as int);
        if crate::text::text_eq(fields[i].0.as_str(), key) {
            return Some(&fields[i].1);
        }
        proof {
            assert(rest.drop_first() =~= fields@.skip(i + 1));
        }
        i = i + 1;
    }
    None
}

/// The fault of a required member: absent, or the fault that `f` gives its value.
pub open spec fn required(j: Json, key: Seq<char>, f: Option<DecodeFault>) -> Option<DecodeFault> {
    match field_of(j, key) {
        None => Some(DecodeFault::MissingField(key)),
        Some(_) => f,
    }
}

/// The fault of a value that must be an object, named by the field that holds it.
pub open spec fn object_fault(j: Json, key: Seq<char>) -> Option<DecodeFault> {
    if j is Object {
        None
    } else {
        Some(DecodeFault::InvalidType(key))
    }
}

/// Fetches a required member of an object.
pub fn required_member<'a>(fields: &'a Vec<(String, Json)>, key: &str) -> (r: Result<&'a Json, DecodeError>)
    ensures
        match r {
            Ok(x) => member(fields@, key@) == Some(*x),
            Err(e) => member(fields@, key@) is None && e@ == DecodeFault::MissingField(key@),
        },
{
    match member_of(fields, key) {
        Some(x) => Ok(x),
        None => Err(DecodeError::MissingField(key.to_string())),
    }
}

/// The fault of a string value.
pub open spec fn str_fault(j: Json, key: Seq<char>) -> Option<DecodeFault> {
    if j is Str {
        None
    } else {
        Some(DecodeFault::InvalidType(key))
    }
}

/// The characters of a string value.
pub open spec fn str_view(j: Json) -> Seq<char> {
    match j {
        Json::Str(s) => s@,
        _ => Seq::empty(),
    }
}

/// Decodes a string value.
pub fn str_value(j: &Json, key: &str) -> (r: Result<String, DecodeError>)
    ensures
        match r {
            Ok(s) => str_fault(*j, key@) is None && s@ == str_view(*j),
            Err(e) => str_fault(*j, key@) == Some(e@),
        },
{
    match j {
        Json::Str(s) => Ok(s.clone()),
        _ => Err(DecodeError::InvalidType(key.to_string())),
    }
}

/// The fault of an optional string member: absent and `null` are both no value.
pub open spec fn opt_str_fault(o: Option<Json>, key: Seq<char>) -> Option<DecodeFault> {
    match o {
        None => None,
        Some(Json::Null) => None,
        Some(j) => str_fault(j, key),
    }
}

/// The characters of an optional string member.
pub open spec fn opt_str_view(o: Option<Json>) -> Option<Seq<char>> {
    match o {
        Some(Json::Str(s)) => Some(s@),
        _ => None,
    }
}

/// Decodes an optional string member.
pub fn opt_str_member(fields: &Vec<(String, Json)>, key: &str) -> (r: Result<Option<String>, DecodeError>)
    ensures
        match r {
            Ok(s) => opt_str_fault(member(fields@, key@), key@) is None && match s {
                Some(s) => opt_str_view(member(fields@, key@)) == Some(s@),
                None => opt_str_view(member(fields@, key@)) is None,
            },
            Err(e) => opt_str_fault(member(fields@, key@), key@) == Some(e@),
        },
{
    match member_of(fields, key) {
        None => Ok(None),
        Some(Json::Null) => Ok(None),
        Some(Json::Str(s)) => Ok(Some(s.clone())),
        Some(_) => Err(DecodeError::InvalidType(key.to_string())),
    }
}

/// The fault of a boolean value.
pub open spec fn bool_fault(j: Json, key: Seq<char>) -> Option<DecodeFault> {
    if j is Bool {
        None
    } else {
        Some(DecodeFault::InvalidType(key))
    }
}

/// Decodes a boolean value.
pub fn bool_value(j: &Json, key: &str) -> (r: Result<bool, DecodeError>)
    ensures
        match r {
            Ok(b) => bool_fault(*j, key@) is None && *j == Json::Bool(b),
            Err(e) => bool_fault(*j, key@) == Some(e@),
        },
{
    match j {
        Json::Bool(b) => Ok(*b),
        _ => Err(DecodeError::InvalidType(key.to_string())),
    }
}

/// The literal of a number value.
pub open spec fn number_view(j: Json) -> Seq<char> {
    match j {
        Json::Number(s) => s@,
        _ => Seq::empty(),
    }
}

/// The fault of an integer value that must lie in `lo ..= hi`.
pub open spec fn int_fault(j: Json, key: Seq<char>, lo: int, hi: int) -> Option<DecodeFault> {
    match j {
        Json::Number(s) => match crate::text::signed_literal(s@) {
            Some(v) => if lo <= v <= hi {
                None
            } else {
                Some(DecodeFault::InvalidValue(key, s@))
            },
            None => Some(DecodeFault::InvalidValue(key, s@)),
        },
        _ => Some(DecodeFault::InvalidType(key)),
    }
}

/// The fault of an unsigned integer value that must not exceed `hi`.
pub open spec fn uint_fault(j: Json, key: Seq<char>, hi: int) -> Option<DecodeFault> {
    match j {
        Json::Number(s) => match crate::text::unsigned_literal(s@) {
            Some(v) => if v <= hi {
                None
            } else {
                Some(DecodeFault::InvalidValue(key, s@))
            },
            None => Some(DecodeFault::InvalidValue(key, s@)),
        },
        _ => Some(DecodeFault::InvalidType(key)),
    }
}

/// The value of an unsigned integer literal.
pub open spec fn uint_view(j: Json) -> int {
    match crate::text::unsigned_literal(number_view(j)) {
        Some(v) => v,
        None => 0,
    }
}

/// The value of an integer literal.
pub open spec fn int_view(j: Json) -> int {
    match crate::text::signed_literal(number_view(j)) {
        Some(v) => v,
        None => 0,
    }
}

/// Decodes a non-negative integer that fits in a `usize`.
pub fn usize_value(j: &Json, key: &str) -> (r: Result<usize, DecodeError>)
    ensures
        match r {
            Ok(v) => uint_fault(*j, key@, usize::MAX as int) is None && v == uint_view(*j),
            Err(e) => uint_fault(*j, key@, usize::MAX as int) == Some(e@),
        },
{
    match j {
        Json::Number(s) => {
            match crate::text::parse_u64_text(s.as_str()) {
                Some(v) => {
                    if v <= usize::MAX as u64 {
                        Ok(v as usize)
                    } else {
                        Err(DecodeError::InvalidValue(key.to_string(), s.clone()))
                    }
                },
                None => Err(DecodeError::InvalidValue(key.to_string(), s.clone())),
            }
        },
        _ => Err(DecodeError::InvalidType(key.to_string())),
    }
}

/// Decodes an integer that fits in an `i64`.
pub fn i64_value(j: &Json, key: &str) -> (r: Result<i64, DecodeError>)
    ensures
        match r {
            Ok(v) => int_fault(*j, key@, i64::MIN as int, i64::MAX as int) is None && v == int_view(*j),
            Err(e) => int_fault(*j, key@, i64::MIN as int, i64::MAX as int) == Some(e@),
        },
{
    match j {
        Json::Number(s) => {
            let t = s.as_str();
            let n = t.unicode_len();
            if n > 0 && t.get_char(0) == '-' {
                let rest = t.substring_char(1, n);
                proof {
                    assert(rest@ =~= s@.drop_first());
                }
                match crate::text::parse_u64_text(rest) {
                    Some(v) => {
                        if v <= 9223372036854775808u64 {
                            if v == 9223372036854775808u64 {
                                Ok(i64::MIN)
                            } else {
                                Ok(-(v as i64))
                            }
                        } else {
                            Err(DecodeError::InvalidValue(key.to_string(), s.clone()))
                        }
                    },
                    None => Err(DecodeError::InvalidValue(key.to_string(), s.clone())),
                }
            } else {
                match crate::text::parse_u64_text(t) {
                    Some(v) => {
                        if v <= i64::MAX as u64 {
                            Ok(v as i64)
                        } else {
                            Err(DecodeError::InvalidValue(key.to_string(), s.clone()))
                        }
                    },
                    None => Err(DecodeError::InvalidValue(key.to_string(), s.clone())),
                }
            }
        },
        _ => Err(DecodeError::InvalidType(key.to_string())),
    }
}

} // verus!

verus! {

/// The fault of a value that must be a JSON number holding a float literal.
pub open spec fn number_float_fault(j: Json, key: Seq<char>) -> Option<DecodeFault> {
    match j {
        Json::Number(s) => if crate::float::is_float_literal(s@) {
            None
        } else {
            Some(DecodeFault::InvalidValue(key, s@))
        },
        _ => Some(DecodeFault::InvalidType(key)),
    }
}

/// Decodes a JSON number as a floating-point value.
pub fn number_float_value(j: &Json, key: &str) -> (r: Result<crate::float::FloatValue, DecodeError>)
    ensures
        match r {
            Ok(v) => number_float_fault(*j, key@) is None && v@ == number_view(*j) && v.wf(),
            Err(e) => number_float_fault(*j, key@) == Some(e@),
        },
{
    match j {
        Json::Number(s) => match crate::float::parse_float(s.as_str()) {
            Some(v) => Ok(v),
            None => Err(DecodeError::InvalidValue(key.to_string(), s.clone())),
        },
        _ => Err(DecodeError::InvalidType(key.to_string())),
    }
}

/// The fault of a value that must be a string holding a float literal.
pub open spec fn quoted_float_fault(j: Json, key: Seq<char>) -> Option<DecodeFault> {
    match j {
        Json::Str(s) => if crate::float::is_float_literal(s@) {
            None
        } else {
            Some(DecodeFault::InvalidValue(key, s@))
        },
        _ => Some(DecodeFault::InvalidType(key)),
    }
}

/// Decodes a float that is sent as a quoted string, as sample values are.
pub fn quoted_float_value(j: &Json, key: &str) -> (r: Result<crate::float::FloatValue, DecodeError>)
    ensures
        match r {
            Ok(v) => quoted_float_fault(*j, key@) is None && v@ == str_view(*j) && v.wf(),
            Err(e) => quoted_float_fault(*j, key@) == Some(e@),
        },
{
    match j {
        Json::Str(s) => match crate::float::parse_float(s.as_str()) {
            Some(v) => Ok(v),
            None => Err(DecodeError::InvalidValue(key.to_string(), s.clone())),
        },
        _ => Err(DecodeError::InvalidType(key.to_string())),
    }
}

/// A member that holds a value: present and not `null`.
pub open spec fn present(o: Option<Json>) -> bool {
    o matches Some(j) && !(j is Null)
}

/// The fault of the first item of `s` that `f` finds one in.
pub open spec fn first_fault(s: Seq<Json>, f: spec_fn(Json) -> Option<DecodeFault>) -> Option<DecodeFault>
    decreases s.len(),
{
    if s.len() == 0 {
        None
    } else {
        either(first_fault(s.drop_last(), f), f(s.last()))
    }
}

/// A fault in a prefix is the fault of the whole sequence.
pub proof fn lemma_first_fault_prefix(s: Seq<Json>, n: int, f: spec_fn(Json) -> Option<DecodeFault>)
    requires
        0 <= n <= s.len(),
        first_fault(s.take(n), f) is Some,
    ensures
        first_fault(s, f) == first_fault(s.take(n), f),
    decreases s.len(),
{
    if s.len() > n {
        assert(s.drop_last().take(n) =~= s.take(n));
        lemma_first_fault_prefix(s.drop_last(), n, f);
    } else {
        assert(s.take(n) =~= s);
    }
}

/// Extending a fault-free prefix by one item.
pub proof fn lemma_first_fault_step(s: Seq<Json>, i: int, f: spec_fn(Json) -> Option<DecodeFault>)
    requires
        0 <= i < s.len(),
        first_fault(s.take(i), f) is None,
    ensures
        first_fault(s.take(i + 1), f) == f(s[i]),
{
    assert(s.take(i + 1).drop_last() =~= s.take(i));
}

} // verus!

verus! {

/// The value of the member `key`, for a member known to be there.
pub open spec fn at(j: Json, key: Seq<char>) -> Json {
    field_of(j, key)->0
}

/// The fault of the value held by the field `key`; `None` where it decodes.
pub open spec fn str_member_fault(j: Json, key: Seq<char>) -> Option<DecodeFault> {
    required(j, key, str_fault(at(j, key), key))
}

/// The fault of the value held by the field `key`; `None` where it decodes.
pub open spec fn float_member_fault(j: Json, key: Seq<char>) -> Option<DecodeFault> {
    required(j, key, number_float_fault(at(j, key), key))
}

/// The fault of the value held by the field `key`; `None` where it decodes.
pub open spec fn usize_member_fault(j: Json, key: Seq<char>) -> Option<DecodeFault> {
    required(j, key, uint_fault(at(j, key), key, usize::MAX as int))
}

/// The fault of the value held by the field `key`; `None` where it decodes.
pub open spec fn i64_member_fault(j: Json, key: Seq<char>) -> Option<DecodeFault> {
    required(j, key, int_fault(at(j, key), key, i64::MIN as int, i64::MAX as int))
}

/// The fault of the value held by the field `key`; `None` where it decodes.
pub open spec fn bool_member_fault(j: Json, key: Seq<char>) -> Option<DecodeFault> {
    required(j, key, bool_fault(at(j, key), key))
}

/// Decodes the required string member `key`.
pub fn str_member(m: &Vec<(String, Json)>, key: &str) -> (r: Result<String, DecodeError>)
    ensures
        match r {
            Ok(v) => str_member_fault(Json::Object(*m), key@) is None && v@ == str_view(
                at(Json::Object(*m), key@),
            ),
            Err(e) => str_member_fault(Json::Object(*m), key@) == Some(e@),
        },
{
    let j = required_member(m, key)?;
    str_value(j, key)
}

/// Decodes the required member `key`, a JSON number, as a float.
pub fn float_member(m: &Vec<(String, Json)>, key: &str) -> (r: Result<crate::float::FloatValue, DecodeError>)
    ensures
        match r {
            Ok(v) => float_member_fault(Json::Object(*m), key@) is None && v@ == number_view(
                at(Json::Object(*m), key@),
            ) && v.wf(),
            Err(e) => float_member_fault(Json::Object(*m), key@) == Some(e@),
        },
{
    let j = required_member(m, key)?;
    number_float_value(j, key)
}

/// Decodes the required member `key` as a `usize`.
pub fn usize_member(m: &Vec<(String, Json)>, key: &str) -> (r: Result<usize, DecodeError>)
    ensures
        match r {
            Ok(v) => usize_member_fault(Json::Object(*m), key@) is None && v == uint_view(
                at(Json::Object(*m), key@),
            ),
            Err(e) => usize_member_fault(Json::Object(*m), key@) == Some(e@),
        },
{
    let j = required_member(m, key)?;
    usize_value(j, key)
}

/// Decodes the required member `key` as an `i64`.
pub fn i64_member(m: &Vec<(String, Json)>, key: &str) -> (r: Result<i64, DecodeError>)
    ensures
        match r {
            Ok(v) => i64_member_fault(Json::Object(*m), key@) is None && v == int_view(
                at(Json::Object(*m), key@),
            ),
            Err(e) => i64_member_fault(Json::Object(*m), key@) == Some(e@),
        },
{
    let j = required_member(m, key)?;
    i64_value(j, key)
}

/// Decodes the required member `key` as a boolean.
pub fn bool_member(m: &Vec<(String, Json)>, key: &str) -> (r: Result<bool, DecodeError>)
    ensures
        match r {
            Ok(v) => bool_member_fault(Json::Object(*m), key@) is None && at(Json::Object(*m), key@)
                == Json::Bool(v),
            Err(e) => bool_member_fault(Json::Object(*m), key@) == Some(e@),
        },
{
    let j = required_member(m, key)?;
    bool_value(j, key)
}

} // verus!
