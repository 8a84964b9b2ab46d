//! A parsed JSON document, and lookups of typed members in JSON objects.
use vstd::prelude::*;

verus! {

/// A JSON value. Numbers are kept as integers where they are integers that
/// fit in 64 bits; any other number is `Fractional`. An object keeps its
/// members in document order.
#[derive(Debug)]
pub enum Json {
    Null,
    Bool(bool),
    Unsigned(u64),
    Negative(i64),
    Fractional,
    Str(String),
    Array(Vec<Json>),
    Object(Vec<(String, Json)>),
}

/// The value of the first member of `entries` named `key`.
pub open spec fn member(entries: Seq<(String, Json)>, key: Seq<char>) -> Option<Json>
    decreases entries.len(),
{
    if entries.len() == 0 {
        None
    } else if entries[0].0@ == key {
        Some(entries[0].1)
    } else {
        member(entries.drop_first(), key)
    }
}

/// The member `key` when it is a string.
pub open spec fn str_member(entries: Seq<(String, Json)>, key: Seq<char>) -> Option<Seq<char>> {
    match member(entries, key) {
        Some(Json::Str(s)) => Some(s@),
        _ => None,
    }
}

/// The member `key` when it is an integer in the range of `u32`.
pub open spec fn u32_member(entries: Seq<(String, Json)>, key: Seq<char>) -> Option<u32> {
    match member(entries, key) {
        Some(Json::Unsigned(n)) => if n <= u32::MAX {
            Some(n as u32)
        } else {
            None
        },
        _ => None,
    }
}

/// The member `key` when it is an integer in the range of `i64`.
pub open spec fn i64_member(entries: Seq<(String, Json)>, key: Seq<char>) -> Option<i64> {
    match member(entries, key) {
        Some(Json::Unsigned(n)) => if n <= i64::MAX as u64 {
            Some(n as i64)
        } else {
            None
        },
        Some(Json::Negative(n)) => Some(n),
        _ => None,
    }
}

/// Finds the first member of `entries` named `key`.
pub fn find_member<'a>(entries: &'a Vec<(String, Json)>, key: &str) -> (r: Option<&'a Json>)
    ensures
        match r {
            Some(v) => member(entries@, key@) == Some(*v),
            None => member(entries@, key@) is None,
        },
{
    let wanted = String::from_str(key);
    let mut i: usize = 0;
    assert(entries@.subrange(0, entries@.len() as int) =~= entries@);
    while i < entries.len()
        invariant
            i <= entries@.len(),
            wanted@ == key@,
            member(entries@, key@) == member(entries@.subrange(i as int, entries@.len() as int), key@),
        decreases entries@.len() - i,
    {
        let ghost rest = entries@.subrange(i as int, entries@.len() as int);
        assert(rest[0] == entries@[i as int]);
        if entries[i].0 == wanted {
            return Some(&entries[i].1);
        }
        assert(rest.drop_first() =~= entries@.subrange(i + 1, entries@.len() as int));
        i = i + 1;
    }
    None
}

fn field_error(key: &str) -> (r: String) {
    let mut r = String::from_str("missing or mistyped field `");
    r.append(key);
    r.append("`");
    r
}

/// The string member `key` of `entries`.
pub fn str_field(entries: &Vec<(String, Json)>, key: &str) -> (r: Result<String, String>)
    ensures
        r is Ok <==> str_member(entries@, key@) is Some,
        r matches Ok(s) ==> str_member(entries@, key@) == Some(s@),
{
    match find_member(entries, key) {
        Some(Json::Str(s)) => Ok(s.clone()),
        _ => Err(field_error(key)),
    }
}

/// The `u32` member `key` of `entries`.
pub fn u32_field(entries: &Vec<(String, Json)>, key: &str) -> (r: Result<u32, String>)
    ensures
        r is Ok <==> u32_member(entries@, key@) is Some,
        r matches Ok(n) ==> u32_member(entries@, key@) == Some(n),
{
    match find_member(entries, key) {
        Some(Json::Unsigned(n)) => {
            if *n <= u32::MAX as u64 {
                Ok(*n as u32)
            } else {
                Err(field_error(key))
            }
        },
        _ => Err(field_error(key)),
    }
}

/// The `i64` member `key` of `entries`.
pub fn i64_field(entries: &Vec<(String, Json)>, key: &str) -> (r: Result<i64, String>)
    ensures
        r is Ok <==> i64_member(entries@, key@) is Some,
        r matches Ok(n) ==> i64_member(entries@, key@) == Some(n),
{
    match find_member(entries, key) {
        Some(Json::Unsigned(n)) => {
            if *n <= i64::MAX as u64 {
                Ok(*n as i64)
            } else {
                Err(field_error(key))
            }
        },
        Some(Json::Negative(n)) => Ok(*n),
        _ => Err(field_error(key)),
    }
}

} // verus!
