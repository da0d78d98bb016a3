//! A JSON value as plain data, and lookups in JSON objects.

use vstd::prelude::*;

verus! {

/// A JSON number. Integers are kept exactly; a number with a fraction or an
/// exponent is kept as its decimal text, since nothing here computes with it.
#[derive(Debug, PartialEq)]
pub enum JsonNumber {
    Int(i128),
    Float(String),
}

/// A parsed JSON value. An object keeps its entries in order.
#[derive(Debug, PartialEq)]
pub enum JsonValue {
    Null,
    Bool(bool),
    Number(JsonNumber),
    Str(String),
    Array(Vec<JsonValue>),
    Object(Vec<(String, JsonValue)>),
}

/// The index of the first entry whose key is `key`, looking from `start` on.
pub open spec fn key_index_from(entries: Seq<(String, JsonValue)>, key: Seq<char>, start: int) -> Option<int>
    decreases entries.len() - start,
{
    if start < 0 || start >= entries.len() {
        None
    } else if entries[start].0@ == key {
        Some(start)
    } else {
        key_index_from(entries, key, start + 1)
    }
}

/// The index of the first entry whose key is `key`.
pub open spec fn key_index(entries: Seq<(String, JsonValue)>, key: Seq<char>) -> Option<int> {
    key_index_from(entries, key, 0)
}

/// The value of the first entry whose key is `key`, as a JSON object lookup gives it.
pub open spec fn entry_value(entries: Seq<(String, JsonValue)>, key: Seq<char>) -> Option<JsonValue> {
    match key_index(entries, key) {
        Some(i) => Some(entries[i].1),
        None => None,
    }
}

/// Two entry sequences with the same keys in the same places.
pub open spec fn same_keys(a: Seq<(String, JsonValue)>, b: Seq<(String, JsonValue)>) -> bool {
    &&& a.len() == b.len()
    &&& forall|j: int| 0 <= j < a.len() ==> #[trigger] a[j].0@ == b[j].0@
}

proof fn lemma_key_index_from_same_keys(
    a: Seq<(String, JsonValue)>,
    b: Seq<(String, JsonValue)>,
    key: Seq<char>,
    start: int,
)
    requires
        same_keys(a, b),
    ensures
        key_index_from(a, key, start) == key_index_from(b, key, start),
    decreases a.len() - start,
{
    if 0 <= start < a.len() {
        assert(a[start].0@ == b[start].0@);
        lemma_key_index_from_same_keys(a, b, key, start + 1);
    }
}

proof fn lemma_key_index_found(entries: Seq<(String, JsonValue)>, key: Seq<char>, start: int)
    ensures
        match key_index_from(entries, key, start) {
            Some(i) => start <= i < entries.len() && entries[i].0@ == key,
            None => true,
        },
    decreases entries.len() - start,
{
    if 0 <= start < entries.len() && entries[start].0@ != key {
        lemma_key_index_found(entries, key, start + 1);
    }
}

/// Whether a string holds exactly the text `t`.
pub fn text_is(s: &String, t: &str) -> (r: bool)
    ensures
        r == (s@ == t@),
{
    let owned = t.to_owned();
    *s == owned
}

/// Finds the first entry whose key is `key`.
pub fn find_key(entries: &Vec<(String, JsonValue)>, key: &str) -> (r: Option<usize>)
    ensures
        match r {
            Some(i) => i < entries@.len() && key_index(entries@, key@) == Some(i as int),
            None => key_index(entries@, key@) is None,
        },
{
    let wanted = key.to_owned();
    let mut i: usize = 0;
    while i < entries.len()
        invariant
            i <= entries.len(),
            wanted@ == key@,
            key_index_from(entries@, key@, 0) == key_index_from(entries@, key@, i as int),
        decreases entries.len() - i,
    {
        if entries[i].0 == wanted {
            return Some(i);
        }
        i += 1;
    }
    None
}

/// Takes out the value of the first entry whose key is `key`, leaving `null`
/// in its place, so that every other key still finds what it found before.
pub fn take_entry(entries: &mut Vec<(String, JsonValue)>, key: &str) -> (r: Option<JsonValue>)
    ensures
        r == entry_value(old(entries)@, key@),
        forall|k: Seq<char>| k != key@ ==> entry_value(final(entries)@, k) == entry_value(old(entries)@, k),
{
    match find_key(entries, key) {
        None => None,
        Some(i) => {
            let ghost before = entries@;
            let (name, value) = entries.remove(i);
            entries.insert(i, (name, JsonValue::Null));
            proof {
                assert(entries@ =~= before.update(i as int, (name, JsonValue::Null)));
                assert(same_keys(before, entries@));
                lemma_key_index_found(before, key@, 0);
                assert forall|k: Seq<char>| k != key@ implies entry_value(entries@, k) == entry_value(before, k) by {
                    lemma_key_index_from_same_keys(before, entries@, k, 0);
                    lemma_key_index_found(before, k, 0);
                }
            }
            Some(value)
        }
    }
}

} // verus!
