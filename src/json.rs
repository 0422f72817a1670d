//! A JSON document tree with lookups by key.

use vstd::prelude::*;

verus! {

/// One JSON value. Numbers keep what is needed to tell them apart without
/// floating point: non-negative integers, negative integers, and any other
/// number as its literal text.
#[derive(Debug, PartialEq, Eq)]
pub enum Json {
    Null,
    Bool(bool),
    UInt(u64),
    NegInt(i64),
    Decimal(String),
    Str(String),
    Array(Vec<Json>),
    Object(Vec<(String, Json)>),
}

/// The value bound to `key` in an object's entries: the first entry whose
/// key reads `key`.
pub open spec fn lookup(entries: Seq<(String, Json)>, key: Seq<char>) -> Option<Json>
    decreases entries.len(),
{
    if entries.len() == 0 {
        None
    } else if entries[0].0@ == key {
        Some(entries[0].1)
    } else {
        lookup(entries.drop_first(), key)
    }
}

/// The member `key` of `j`, where `j` is an object that has one.
pub open spec fn member(j: Json, key: Seq<char>) -> Option<Json> {
    match j {
        Json::Object(entries) => lookup(entries@, key),
        _ => None,
    }
}

/// `j` is the string whose characters are `s`.
pub open spec fn is_text(j: Json, s: Seq<char>) -> bool {
    match j {
        Json::Str(t) => t@ == s,
        _ => false,
    }
}

/// An entry of an object, with the key read as characters.
pub open spec fn entry_is(e: (String, Json), key: Seq<char>, value: Json) -> bool {
    e.0@ == key && e.1 == value
}

proof fn lemma_lookup_skip(entries: Seq<(String, Json)>, key: Seq<char>, i: int)
    requires
        0 <= i < entries.len(),
        entries[i].0@ != key,
    ensures
        lookup(entries.skip(i), key) == lookup(entries.skip(i + 1), key),
{
    assert(entries.skip(i).drop_first() =~= entries.skip(i + 1));
}

/// The position of the first entry whose key reads `key`.
pub fn find_key(entries: &Vec<(String, Json)>, key: &str) -> (r: Option<usize>)
    ensures
        match r {
            Some(i) => i < entries@.len() && entries@[i as int].0@ == key@
                && lookup(entries@, key@) == Some(entries@[i as int].1),
            None => lookup(entries@, key@) == None::<Json>,
        },
{
    let mut i: usize = 0;
    assert(entries@.skip(0) =~= entries@);
    while i < entries.len()
        invariant
            i <= entries@.len(),
            lookup(entries@, key@) == lookup(entries@.skip(i as int), key@),
        decreases entries@.len() - i,
    {
        let k: &str = entries[i].0.as_str();
        if str_equal(k, key) {
            return Some(i);
        }
        proof {
            lemma_lookup_skip(entries@, key@, i as int);
        }
        i = i + 1;
    }
    assert(entries@.skip(i as int).len() == 0);
    None
}

/// Character-by-character equality of two strings.
pub fn str_equal(a: &str, b: &str) -> (r: bool)
    ensures
        r == (a@ == b@),
{
    let n: usize = a.unicode_len();
    if n != b.unicode_len() {
        return false;
    }
    let mut i: usize = 0;
    while i < n
        invariant
            n == a@.len(),
            n == b@.len(),
            i <= n,
            forall|j: int| 0 <= j < i ==> a@[j] == b@[j],
        decreases n - i,
    {
        if a.get_char(i) != b.get_char(i) {
            return false;
        }
        i = i + 1;
    }
    assert(a@ =~= b@);
    true
}

/// The member `key` of an object, borrowed.
pub fn get<'a>(j: &'a Json, key: &str) -> (r: Option<&'a Json>)
    ensures
        match r {
            Some(v) => member(*j, key@) == Some(*v),
            None => member(*j, key@) == None::<Json>,
        },
{
    match j {
        Json::Object(entries) => match find_key(entries, key) {
            Some(i) => Some(&entries[i].1),
            None => None,
        },
        _ => None,
    }
}

} // verus!
