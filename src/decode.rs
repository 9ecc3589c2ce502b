use vstd::prelude::*;

use crate::value::{Kind, Value};

verus! {

/// What a field decoded by `string_or_struct` accepts.
pub fn expecting() -> (r: &'static str)
    ensures
        r@ == "string or map"@,
{
    "string or map"
}

/// Why a field could not be decoded.
#[derive(Debug, PartialEq, Eq)]
pub enum DecodeError {
    /// The value was neither a string nor a map; holds the kind that was found.
    UnsupportedShape(Kind),
    /// The string form was refused by the target's parser; holds its message.
    StringParse(String),
    /// The map form was refused by the target's structured decoder; holds its message.
    StructuredDecode(String),
}

impl DecodeError {
    /// The text of this error.
    pub open spec fn spec_message(&self) -> Seq<char> {
        match self {
            DecodeError::UnsupportedShape(k) => "invalid type: "@ + k.spec_name() + ", expected "@
                + "string or map"@,
            DecodeError::StringParse(m) => m@,
            DecodeError::StructuredDecode(m) => m@,
        }
    }

    /// The text of this error: for a refused shape, the kind found and the
    /// shapes accepted; for a refused form, the target's own message unchanged.
    pub fn message(&self) -> (r: String)
        ensures
            r@ == self.spec_message(),
    {
        match self {
            DecodeError::UnsupportedShape(k) => {
                let r = String::from_str("invalid type: ");
                let r = r.concat(k.name());
                let r = r.concat(", expected ");
                r.concat(expecting())
            },
            DecodeError::StringParse(m) => m.clone(),
            DecodeError::StructuredDecode(m) => m.clone(),
        }
    }
}

/// The string form decoded, given what the target's parser returned for it.
pub open spec fn string_form<T>(parsed: Result<T, String>) -> Result<T, DecodeError> {
    match parsed {
        Ok(t) => Ok(t),
        Err(m) => Err(DecodeError::StringParse(m)),
    }
}

/// The map form decoded, given what the target's structured decoder returned for it.
pub open spec fn map_form<T>(decoded: Result<T, String>) -> Result<T, DecodeError> {
    match decoded {
        Ok(t) => Ok(t),
        Err(m) => Err(DecodeError::StructuredDecode(m)),
    }
}

/// `r` is a possible outcome of decoding `v`, where `parse_str` is the target's
/// string parser and `from_entries` its structured decoder over map entries:
/// a string goes to the parser, a map to the structured decoder, and anything
/// else is refused as an unsupported shape.
pub open spec fn decodes_to<T, P, M>(v: Value, parse_str: P, from_entries: M, r: Result<T, DecodeError>) -> bool where
    P: FnOnce(String) -> Result<T, String>,
    M: FnOnce(Vec<(String, Value)>) -> Result<T, String>,
 {
    match v {
        Value::Str(s) => exists|x: Result<T, String>| #[trigger] parse_str.ensures((s,), x) && r == string_form(x),
        Value::Object(e) => exists|x: Result<T, String>|
            #[trigger] from_entries.ensures((e,), x) && r == map_form(x),
        _ => r == Err::<T, DecodeError>(DecodeError::UnsupportedShape(v.spec_kind())),
    }
}

/// Decodes the string form of a field with the target's own parser; a failure
/// keeps the parser's message.
pub fn decode_string_form<T, P>(s: String, parse_str: P) -> (r: Result<T, DecodeError>) where
    P: FnOnce(String) -> Result<T, String>,
    requires
        parse_str.requires((s,)),
    ensures
        exists|x: Result<T, String>| #[trigger] parse_str.ensures((s,), x) && r == string_form(x),
{
    let parsed = parse_str(s);
    match parsed {
        Ok(t) => Ok(t),
        Err(m) => Err(DecodeError::StringParse(m)),
    }
}

/// Decodes the map form of a field by handing its entries, unchanged, to the
/// target's own structured decoder; a failure keeps the decoder's message.
pub fn decode_map_form<T, M>(entries: Vec<(String, Value)>, from_entries: M) -> (r: Result<T, DecodeError>) where
    M: FnOnce(Vec<(String, Value)>) -> Result<T, String>,
    requires
        from_entries.requires((entries,)),
    ensures
        exists|x: Result<T, String>| #[trigger] from_entries.ensures((entries,), x) && r == map_form(x),
{
    let decoded = from_entries(entries);
    match decoded {
        Ok(t) => Ok(t),
        Err(m) => Err(DecodeError::StructuredDecode(m)),
    }
}

/// Decodes a field given either as a string or as a map: a string goes to
/// `parse_str`, a map's entries to `from_entries`, and any other shape is
/// refused without calling either.
pub fn string_or_struct<T, P, M>(v: Value, parse_str: P, from_entries: M) -> (r: Result<T, DecodeError>) where
    P: FnOnce(String) -> Result<T, String>,
    M: FnOnce(Vec<(String, Value)>) -> Result<T, String>,
    requires
        v is Str ==> parse_str.requires((v->Str_0,)),
        v is Object ==> from_entries.requires((v->Object_0,)),
    ensures
        decodes_to(v, parse_str, from_entries, r),
{
    let kind = v.kind();
    match v {
        Value::Str(s) => decode_string_form(s, parse_str),
        Value::Object(entries) => decode_map_form(entries, from_entries),
        _ => Err(DecodeError::UnsupportedShape(kind)),
    }
}

} // verus!
