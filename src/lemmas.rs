use vstd::prelude::*;

use crate::decode::{decodes_to, map_form, string_form, DecodeError};
use crate::value::Value;

verus! {

/// `f` gives one result only on the argument `a`: it keeps no state between calls.
pub open spec fn deterministic_on<A, R, F: FnOnce(A) -> R>(f: F, a: A) -> bool {
    forall|x1: R, x2: R| #[trigger] f.ensures((a,), x1) && #[trigger] f.ensures((a,), x2) ==> x1 == x2
}

/// Decoding a map gives what the target's structured decoder gives when run
/// on the map's entries directly; in particular, a map that the decoder
/// accepts decodes to the very value that the decoder builds.
pub proof fn lemma_map_form_agrees<T, P, M>(
    entries: Vec<(String, Value)>,
    parse_str: P,
    from_entries: M,
    direct: Result<T, String>,
    r: Result<T, DecodeError>,
) where
    P: FnOnce(String) -> Result<T, String>,
    M: FnOnce(Vec<(String, Value)>) -> Result<T, String>,

    requires
        deterministic_on(from_entries, entries),
        from_entries.ensures((entries,), direct),
        decodes_to(Value::Object(entries), parse_str, from_entries, r),
    ensures
        r == map_form(direct),
        direct is Ok ==> r == Ok::<T, DecodeError>(direct->Ok_0),
{
}

/// Decoding a string gives what the target's parser gives when called on the
/// string directly; in particular, a string that the parser accepts decodes to
/// the very value that the parser builds.
pub proof fn lemma_string_form_agrees<T, P, M>(
    s: String,
    parse_str: P,
    from_entries: M,
    direct: Result<T, String>,
    r: Result<T, DecodeError>,
) where
    P: FnOnce(String) -> Result<T, String>,
    M: FnOnce(Vec<(String, Value)>) -> Result<T, String>,

    requires
        deterministic_on(parse_str, s),
        parse_str.ensures((s,), direct),
        decodes_to(Value::Str(s), parse_str, from_entries, r),
    ensures
        r == string_form(direct),
        direct is Ok ==> r == Ok::<T, DecodeError>(direct->Ok_0),
{
}

/// A value that is neither a string nor a map is refused as an unsupported
/// shape, and the message ends by naming the accepted shapes, "string or map".
pub proof fn lemma_other_shapes_refused<T, P, M>(
    v: Value,
    parse_str: P,
    from_entries: M,
    r: Result<T, DecodeError>,
) where
    P: FnOnce(String) -> Result<T, String>,
    M: FnOnce(Vec<(String, Value)>) -> Result<T, String>,

    requires
        !(v is Str),
        !(v is Object),
        decodes_to(v, parse_str, from_entries, r),
    ensures
        r == Err::<T, DecodeError>(DecodeError::UnsupportedShape(v.spec_kind())),
        ({
            let msg = DecodeError::UnsupportedShape(v.spec_kind()).spec_message();
            let tail = "string or map"@;
            tail.len() <= msg.len() && msg.subrange(msg.len() - tail.len(), msg.len() as int)
                == tail
        }),
{
    let k = v.spec_kind();
    let head = "invalid type: "@ + k.spec_name() + ", expected "@;
    let tail = "string or map"@;
    let msg = DecodeError::UnsupportedShape(k).spec_message();
    assert(msg == head + tail);
    assert(msg.subrange(head.len() as int, msg.len() as int) =~= tail);
}

/// A string that the target's parser refuses fails as a string-parse failure
/// whose message is the parser's own, unchanged.
pub proof fn lemma_bad_string_refused<T, P, M>(
    s: String,
    parse_str: P,
    from_entries: M,
    parser_error: String,
    r: Result<T, DecodeError>,
) where
    P: FnOnce(String) -> Result<T, String>,
    M: FnOnce(Vec<(String, Value)>) -> Result<T, String>,

    requires
        deterministic_on(parse_str, s),
        parse_str.ensures((s,), Err::<T, String>(parser_error)),
        decodes_to(Value::Str(s), parse_str, from_entries, r),
    ensures
        r == Err::<T, DecodeError>(DecodeError::StringParse(parser_error)),
        r->Err_0.spec_message() == parser_error@,
{
}

/// Decoding keeps no state: where the target's parser and structured decoder
/// each give one result per input, two decodings of the same value give the
/// same result.
pub proof fn lemma_decode_deterministic<T, P, M>(
    v: Value,
    parse_str: P,
    from_entries: M,
    r1: Result<T, DecodeError>,
    r2: Result<T, DecodeError>,
) where
    P: FnOnce(String) -> Result<T, String>,
    M: FnOnce(Vec<(String, Value)>) -> Result<T, String>,

    requires
        v is Str ==> deterministic_on(parse_str, v->Str_0),
        v is Object ==> deterministic_on(from_entries, v->Object_0),
        decodes_to(v, parse_str, from_entries, r1),
        decodes_to(v, parse_str, from_entries, r2),
    ensures
        r1 == r2,
{
}

} // verus!
