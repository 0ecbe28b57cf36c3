//! Text comparison and copying, stated over the characters a text holds.
//!
//! Optional columns compare in two ways. [`same_opt`] treats two absent values
//! as equal (`is not distinct from`); [`holds`] is the plain equality of a
//! column with a given text, which an absent value never meets.
use vstd::prelude::*;
use vstd::utf8::{encode_utf8, encode_utf8_decode_utf8};

verus! {

/// Two optional texts are indistinguishable: both absent, or both present with
/// the same characters.
pub open spec fn same_opt(a: Option<String>, b: Option<String>) -> bool {
    match (a, b) {
        (None, None) => true,
        (Some(x), Some(y)) => x@ == y@,
        _ => false,
    }
}

/// An optional text is present and holds exactly these characters.
pub open spec fn holds(a: Option<String>, text: Seq<char>) -> bool {
    a matches Some(x) && x@ == text
}

/// The characters of each text of a list.
pub open spec fn texts(list: Seq<String>) -> Seq<Seq<char>> {
    list.map_values(|t: String| t@)
}

/// Compares two texts character by character.
pub fn same_text(a: &str, b: &str) -> (same: bool)
    ensures
        same == (a@ == b@),
{
    let x = a.as_bytes();
    let y = b.as_bytes();
    proof {
        encode_utf8_decode_utf8(a@);
        encode_utf8_decode_utf8(b@);
    }
    if x.len() != y.len() {
        return false;
    }
    let mut i: usize = 0;
    while i < x.len()
        invariant
            x@ == encode_utf8(a@),
            y@ == encode_utf8(b@),
            x.len() == y.len(),
            i <= x.len(),
            forall|j: int| 0 <= j < i ==> x@[j] == #[trigger] y@[j],
        decreases x.len() - i,
    {
        if x[i] != y[i] {
            return false;
        }
        i += 1;
    }
    assert(x@ =~= y@);
    true
}

/// Compares two optional texts, absent being equal to absent.
pub fn same_opt_text(a: &Option<String>, b: &Option<String>) -> (same: bool)
    ensures
        same == same_opt(*a, *b),
{
    match (a, b) {
        (None, None) => true,
        (Some(x), Some(y)) => same_text(x.as_str(), y.as_str()),
        _ => false,
    }
}

/// Whether an optional text is present and equal to the given one.
pub fn opt_text_is(a: &Option<String>, text: &str) -> (same: bool)
    ensures
        same == holds(*a, text@),
{
    match a {
        Some(x) => same_text(x.as_str(), text),
        None => false,
    }
}

/// Copies an optional text.
pub fn copy_opt(a: &Option<String>) -> (copy: Option<String>)
    ensures
        copy == *a,
{
    match a {
        Some(x) => Some(x.clone()),
        None => None,
    }
}

/// Compares two lists of texts item by item.
pub fn same_texts(a: &Vec<String>, b: &Vec<String>) -> (same: bool)
    ensures
        same == (texts(a@) == texts(b@)),
{
    if a.len() != b.len() {
        assert(texts(a@).len() != texts(b@).len());
        return false;
    }
    let mut i: usize = 0;
    while i < a.len()
        invariant
            a.len() == b.len(),
            i <= a.len(),
            forall|j: int| 0 <= j < i ==> a@[j]@ == #[trigger] b@[j]@,
        decreases a.len() - i,
    {
        if !same_text(a[i].as_str(), b[i].as_str()) {
            assert(texts(a@)[i as int] != texts(b@)[i as int]);
            return false;
        }
        i += 1;
    }
    assert(texts(a@) =~= texts(b@));
    true
}

/// Two texts that may be missing are the same exactly if both are missing, or both are
/// there with the same characters; a text that is missing holds nothing.
pub proof fn law_missing_texts(a: Option<String>, b: Option<String>, text: Seq<char>)
    ensures
        same_opt(a, b) <==> (a is None && b is None) || (a is Some && b is Some && a->0@ == b->0@),
        same_opt(a, b) <==> same_opt(b, a),
        holds(a, text) <==> a is Some && a->0@ == text,
{
}

/// The texts of a list are those of its members, one by one.
pub proof fn law_texts_one_by_one(list: Seq<String>)
    ensures
        texts(list).len() == list.len(),
        forall|i: int| 0 <= i < list.len() ==> #[trigger] texts(list)[i] == list[i]@,
{
}

} // verus!
