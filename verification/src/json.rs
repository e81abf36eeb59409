//! The decoded JSON tree the mappers consume, and field access over it.
//!
//! The tree is this library's own representation of a JSON document. It
//! records of a number only what the mapping layer ever reads of one:
//! the value when it is representable as an unsigned 64-bit integer.

use vstd::prelude::*;

verus! {

/// An in-memory, type-erased JSON document prior to domain validation.
///
/// An object is an ordered list of key/value pairs; lookup takes the
/// first pair whose key matches, so a caller that keeps keys unique
/// (as JSON objects ordinarily are) sees ordinary object semantics.
#[derive(Debug, PartialEq, Eq)]
pub enum JsonValue {
    Null,
    Bool(bool),
    /// A JSON number: `Num(Some(n))` when it is representable as an
    /// unsigned 64-bit integer, `Num(None)` otherwise (negative or
    /// fractional).
    Num(Option<u64>),
    Str(String),
    Arr(Vec<JsonValue>),
    Obj(Vec<(String, JsonValue)>),
}

/// The value under `key` in an object's pair list: the first pair whose
/// key matches, or `None` where no key matches.
pub open spec fn lookup_field(fields: Seq<(String, JsonValue)>, key: Seq<char>) -> Option<
    JsonValue,
>
    decreases fields.len(),
{
    if fields.len() == 0 {
        None
    } else if fields[0].0@ == key {
        Some(fields[0].1)
    } else {
        lookup_field(fields.skip(1), key)
    }
}

/// An object's pair list; anything that is not an object has none.
pub open spec fn obj_fields(v: JsonValue) -> Seq<(String, JsonValue)> {
    match v {
        JsonValue::Obj(fields) => fields@,
        _ => Seq::empty(),
    }
}

/// The string a field holds, read tolerantly: a missing, null or
/// non-string field is the empty string, never a failure.
pub open spec fn field_str(fields: Seq<(String, JsonValue)>, key: Seq<char>) -> Seq<char> {
    match lookup_field(fields, key) {
        Some(JsonValue::Str(s)) => s@,
        _ => Seq::empty(),
    }
}

/// Skipping past entries whose keys all miss does not change the lookup.
proof fn lemma_lookup_skip(fields: Seq<(String, JsonValue)>, key: Seq<char>, i: int)
    requires
        0 <= i <= fields.len(),
        forall|j: int| 0 <= j < i ==> fields[j].0@ != key,
    ensures
        lookup_field(fields, key) == lookup_field(fields.skip(i), key),
    decreases i,
{
    if i > 0 {
        assert(fields.skip(1).skip(i - 1) =~= fields.skip(i));
        lemma_lookup_skip(fields.skip(1), key, i - 1);
    } else {
        assert(fields.skip(0) =~= fields);
    }
}

/// Find the value under `key` in an object's pair list.
pub fn get_field<'a>(fields: &'a Vec<(String, JsonValue)>, key: &str) -> (r: Option<
    &'a JsonValue,
>)
    ensures
        (match r {
            Some(v) => lookup_field(fields@, key@) == Some(*v),
            None => lookup_field(fields@, key@) is None,
        }),
{
    let n = fields.len();
    let mut i: usize = 0;
    while i < n
        invariant
            n == fields@.len(),
            0 <= i <= n,
            forall|j: int| 0 <= j < i ==> fields@[j].0@ != key@,
        decreases n - i,
    {
        if crate::strutil::str_eq(fields[i].0.as_str(), key) {
            proof {
                lemma_lookup_skip(fields@, key@, i as int);
                assert(fields@.skip(i as int)[0] == fields@[i as int]);
            }
            return Some(&fields[i].1);
        }
        i += 1;
    }
    proof {
        lemma_lookup_skip(fields@, key@, n as int);
        assert(fields@.skip(n as int).len() == 0);
    }
    None
}

/// Read a field as a string, tolerantly: missing, null and non-string
/// fields all give the empty string.
pub fn get_str_field(fields: &Vec<(String, JsonValue)>, key: &str) -> (r: String)
    ensures
        r@ == field_str(fields@, key@),
{
    match get_field(fields, key) {
        Some(JsonValue::Str(s)) => s.clone(),
        _ => String::new(),
    }
}

} // verus!
