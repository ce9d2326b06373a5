//! A plain structured document value: the shape persisted configuration
//! takes after decoding and before encoding.
//!
//! The surrounding application turns the configuration file's text into a
//! `Value` and back; everything this crate proves about reading and writing
//! configuration is stated against this type. A mapping is an ordered list
//! of key/value entries; lookups take the first entry with a matching key.

use vstd::prelude::*;
use crate::strutil::str_eq;

verus! {

pub enum Value {
    Null,
    Bool(bool),
    Int(i64),
    Str(String),
    List(Vec<Value>),
    Mapping(Vec<(String, Value)>),
}

/// The entries of a mapping value, if `v` is one.
pub open spec fn mapping_entries(v: Value) -> Option<Seq<(String, Value)>> {
    match v {
        Value::Mapping(es) => Some(es@),
        _ => None,
    }
}

/// First-match lookup of `k` among mapping entries.
pub open spec fn map_get(es: Seq<(String, Value)>, k: Seq<char>) -> Option<Value>
    decreases es.len(),
{
    if es.len() == 0 {
        None
    } else if es[0].0@ == k {
        Some(es[0].1)
    } else {
        map_get(es.drop_first(), k)
    }
}

/// A lookup lands on the first entry whose key matches.
pub proof fn lemma_map_get_found(es: Seq<(String, Value)>, k: Seq<char>, i: int)
    requires
        0 <= i < es.len(),
        es[i].0@ == k,
        forall|j: int| 0 <= j < i ==> es[j].0@ != k,
    ensures
        map_get(es, k) == Some(es[i].1),
    decreases i,
{
    if i > 0 {
        lemma_map_get_found(es.drop_first(), k, i - 1);
    }
}

/// A lookup misses when no entry's key matches.
pub proof fn lemma_map_get_none(es: Seq<(String, Value)>, k: Seq<char>)
    requires
        forall|j: int| 0 <= j < es.len() ==> es[j].0@ != k,
    ensures
        map_get(es, k) is None,
    decreases es.len(),
{
    if es.len() > 0 {
        lemma_map_get_none(es.drop_first(), k);
    }
}

/// First-match lookup of `key` among the entries of a mapping.
pub fn mapping_get<'a>(entries: &'a Vec<(String, Value)>, key: &str) -> (r: Option<&'a Value>)
    ensures
        match r {
            Some(v) => map_get(entries@, key@) == Some(*v),
            None => map_get(entries@, key@) is None,
        },
{
    let n = entries.len();
    let mut i: usize = 0;
    while i < n
        invariant
            i <= n,
            n == entries@.len(),
            forall|j: int| 0 <= j < i ==> entries@[j].0@ != key@,
        decreases n - i,
    {
        if str_eq(entries[i].0.as_str(), key) {
            proof {
                lemma_map_get_found(entries@, key@, i as int);
            }
            return Some(&entries[i].1);
        }
        i = i + 1;
    }
    proof {
        lemma_map_get_none(entries@, key@);
    }
    None
}

} // verus!
