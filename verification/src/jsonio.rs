use vstd::prelude::*;

verus! {

#[verifier::external_type_specification]
#[verifier::external_body]
pub struct ExJsonValue(serde_json::Value);

/// Canonical text of a JSON value: what serde_json's compact serializer
/// prints for it (object fields in serde_json's default key order).
pub uninterp spec fn json_text(v: serde_json::Value) -> Seq<char>;

/// What parsing the text as JSON and reprinting it compactly yields; nothing
/// where serde_json rejects the text.
pub uninterp spec fn json_canon(s: Seq<char>) -> Option<Seq<char>>;

/// Canonical text of the named field of the JSON object whose canonical text
/// is `doc`; nothing where that value is not an object or lacks the field.
pub uninterp spec fn json_field_canon(doc: Seq<char>, key: Seq<char>) -> Option<Seq<char>>;

/// Character content of the JSON string whose canonical text is `doc`;
/// nothing where that value is not a JSON string.
pub uninterp spec fn json_str_content(doc: Seq<char>) -> Option<Seq<char>>;

/// Compact text of the two-field JSON object mapping `k1` to the string `v1`
/// and `k2` to the boolean `v2`, as serde_json prints it.
pub uninterp spec fn json_obj2_text(k1: Seq<char>, v1: Seq<char>, k2: Seq<char>, v2: bool) -> Seq<char>;

/// Relies on serde_json::Deserializer with its recursion limit disabled plus
/// serde_stacker, which grows the parse stack on the heap: a deeply nested
/// body yields an error value, never a call-stack overflow.
#[verifier::external_body]
pub(crate) fn parse_json(body: &str) -> (r: Result<serde_json::Value, String>)
    ensures
        r matches Ok(v) ==> json_canon(body@) == Some(json_text(v)),
        r is Err <==> json_canon(body@) is None,
{
    let mut de = serde_json::Deserializer::from_str(body);
    de.disable_recursion_limit();
    let de = serde_stacker::Deserializer::new(&mut de);
    let parsed: Result<serde_json::Value, serde_json::Error> = serde::Deserialize::deserialize(de);
    parsed.map_err(|e| e.to_string())
}

/// Relies on serde_json::Value::get: the value of the named object field, or
/// nothing where the value is not an object or has no such field.
#[verifier::external_body]
pub(crate) fn json_field<'a>(v: &'a serde_json::Value, key: &str) -> (r: Option<&'a serde_json::Value>)
    ensures
        r matches Some(f) ==> json_field_canon(json_text(*v), key@) == Some(json_text(*f)),
        r is None <==> json_field_canon(json_text(*v), key@) is None,
{
    v.get(key)
}

/// Relies on serde_json::Value::as_str: the content of a JSON string value,
/// or nothing where the value is not a string.
#[verifier::external_body]
pub(crate) fn json_as_str(v: &serde_json::Value) -> (r: Option<String>)
    ensures
        r matches Some(s) ==> json_str_content(json_text(*v)) == Some(s@),
        r is None <==> json_str_content(json_text(*v)) is None,
{
    v.as_str().map(|s| s.to_string())
}

/// Relies on serde_json's compact serializer, run through serde_stacker so
/// that a deeply nested value cannot overflow the call stack. Serializing a
/// `Value` into a byte buffer cannot fail (its map keys are strings and the
/// writer is infallible), and the output is UTF-8.
#[verifier::external_body]
pub(crate) fn json_to_text(v: &serde_json::Value) -> (r: String)
    ensures
        r@ == json_text(*v),
{
    let mut out: Vec<u8> = Vec::new();
    let mut ser = serde_json::Serializer::new(&mut out);
    match serde::Serialize::serialize(v, serde_stacker::Serializer::new(&mut ser)) {
        Ok(()) => String::from_utf8(out).unwrap_or_default(),
        Err(_) => String::new(),
    }
}

/// Relies on serde_json::Map::insert and the Value serializer: builds the
/// two-field object and prints it compactly.
#[verifier::external_body]
pub(crate) fn json_obj2(k1: &str, v1: &str, k2: &str, v2: bool) -> (r: String)
    ensures
        r@ == json_obj2_text(k1@, v1@, k2@, v2),
{
    let mut m = serde_json::Map::new();
    m.insert(k1.to_string(), serde_json::Value::String(v1.to_string()));
    m.insert(k2.to_string(), serde_json::Value::Bool(v2));
    serde_json::Value::Object(m).to_string()
}

/// Abstract structural size of a JSON value (as a tree node count): the
/// direct children of a value are together strictly smaller than the value.
pub uninterp spec fn json_size(v: serde_json::Value) -> nat;

/// Total structural size of a stack of JSON values.
pub open spec fn json_stack_size(s: Seq<serde_json::Value>) -> nat
    decreases s.len(),
{
    if s.len() == 0 {
        0
    } else {
        json_stack_size(s.drop_last()) + json_size(s.last())
    }
}

/// Relies on serde_json::Value's variants and Vec::extend: moves the direct
/// children of an array or object value into `out`, consuming the value
/// without recursing into it. The children of a value are together
/// structurally smaller than the value itself.
#[verifier::external_body]
pub(crate) fn push_json_children(v: serde_json::Value, out: &mut Vec<serde_json::Value>)
    ensures
        json_stack_size(final(out)@) < json_stack_size(old(out)@) + json_size(v),
{
    match v {
        serde_json::Value::Array(a) => out.extend(a),
        serde_json::Value::Object(m) => out.extend(m.into_iter().map(|(_, x)| x)),
        _ => {}
    }
}

/// Dispose of a JSON value without recursive drops: deeply nested values are
/// taken apart level by level on an explicit heap stack, so disposal depth is
/// bounded by available memory, not by the call stack.
pub(crate) fn dispose_json(v: serde_json::Value) {
    let mut stack: Vec<serde_json::Value> = Vec::new();
    stack.push(v);
    while stack.len() > 0
        decreases json_stack_size(stack@),
    {
        let ghost before: Seq<serde_json::Value> = stack@;
        if let Some(top) = stack.pop() {
            proof {
                assert(before.drop_last() =~= before.subrange(0, before.len() - 1));
                assert(json_stack_size(before) == json_stack_size(before.drop_last()) + json_size(
                    top,
                ));
            }
            push_json_children(top, &mut stack);
        }
    }
}

} // verus!
