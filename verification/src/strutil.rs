//! Small verified helpers on strings: equality, concatenation, and the
//! parent component of a path written with `/` separators.

use vstd::prelude::*;
use vstd::string::StringExecFns;
use vstd::string::StrSliceExecFns;

verus! {

/// True when the sequence holds a `/` anywhere.
pub open spec fn has_separator(s: Seq<char>) -> bool {
    exists|i: int| 0 <= i < s.len() && s[i] == '/'
}

/// The last index of `/` in `s`; meaningful only when `has_separator(s)`.
pub open spec fn last_separator(s: Seq<char>) -> int {
    choose|i: int| 0 <= i < s.len() && s[i] == '/' && (forall|j: int| i < j < s.len() ==> s[j] != '/')
}

/// The parent of a `/`-separated path: everything before the last separator,
/// or `/` alone when the last separator is the leading character.
pub open spec fn parent_of(s: Seq<char>) -> Seq<char>
    recommends
        has_separator(s),
{
    if last_separator(s) == 0 {
        seq!['/']
    } else {
        s.subrange(0, last_separator(s))
    }
}

/// String equality compared character-for-character.
pub fn str_eq(a: &str, b: &str) -> (r: bool)
    ensures
        r == (a@ == b@),
{
    let sa = String::from_str(a);
    let sb = String::from_str(b);
    sa == sb
}

/// Concatenation of two string slices into an owned string.
pub fn concat_str(a: &str, b: &str) -> (r: String)
    ensures
        r@ == a@ + b@,
{
    let mut s = String::from_str(a);
    s.append(b);
    s
}

/// Proof that a separator found by scanning is indeed the last one.
proof fn lemma_last_separator(s: Seq<char>, i: int)
    requires
        0 <= i < s.len(),
        s[i] == '/',
        forall|j: int| i < j < s.len() ==> s[j] != '/',
    ensures
        has_separator(s),
        last_separator(s) == i,
{
    assert(has_separator(s));
    let k = last_separator(s);
    assert(0 <= k < s.len() && s[k] == '/' && (forall|j: int| k < j < s.len() ==> s[j] != '/'))
        by {
        assert(0 <= i < s.len() && s[i] == '/' && (forall|j: int| i < j < s.len() ==> s[j] != '/'));
    }
    if k < i {
        assert(s[i] != '/');
    } else if i < k {
        assert(s[k] != '/');
    }
}

/// The parent component of `path`, when `path` holds a separator:
/// the text before the last `/`, or `/` itself for a top-level entry.
pub fn parent_path(path: &str) -> (r: Option<String>)
    ensures
        match r {
            Some(p) => has_separator(path@) && p@ == parent_of(path@),
            None => !has_separator(path@),
        },
{
    let n = path.unicode_len();
    let mut i = n;
    while i > 0
        invariant
            i <= n,
            n == path@.len(),
            forall|j: int| i <= j < n ==> path@[j] != '/',
        decreases i,
    {
        i = i - 1;
        if path.get_char(i) == '/' {
            proof {
                lemma_last_separator(path@, i as int);
            }
            if i == 0 {
                proof {
                    reveal_strlit("/");
                }
                return Some(String::from_str("/"));
            } else {
                let p = path.substring_char(0, i);
                return Some(String::from_str(p));
            }
        }
    }
    assert(!has_separator(path@));
    None
}

} // verus!
