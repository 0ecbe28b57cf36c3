//! JSON documents as `serde_json` holds them.
//!
//! A [`Value`] stays opaque; [`json_contents`] names what its outermost level
//! holds, and each function here says over that name what one `serde_json` call
//! reads or builds.
use crate::text::{same_text, texts};
use serde_json::Value;
use vstd::prelude::*;

verus! {

/// The document type of `serde_json`.
#[verifier::external_type_specification]
#[verifier::external_body]
pub struct ExValue(Value);

/// The outermost level of a document. An object has one value for each key; a
/// number is told apart only by whether it is a nonnegative integer of 64 bits.
pub enum JsonContents {
    Null,
    Bool(bool),
    Unsigned(u64),
    OtherNumber,
    Text(Seq<char>),
    Array(Seq<Value>),
    Object(Map<Seq<char>, Value>),
}

/// What the outermost level of a document holds.
pub uninterp spec fn json_contents(value: Value) -> JsonContents;

/// What `==` on two documents answers.
pub uninterp spec fn json_equal(a: Value, b: Value) -> bool;

/// The document that is an array of the given items.
pub uninterp spec fn json_array(items: Seq<Value>) -> Value;

/// The words in which `serde_json` refuses a document that is no list of texts.
pub uninterp spec fn text_list_refusal(value: Value) -> Seq<char>;

/// The member of a document under a key, if it is an object that has the key.
pub open spec fn json_member(value: Value, key: Seq<char>) -> Option<Value> {
    match json_contents(value) {
        JsonContents::Object(members) => if members.contains_key(key) {
            Some(members[key])
        } else {
            None
        },
        _ => None,
    }
}

/// The nonnegative integer that a document is, if it is one.
pub open spec fn json_unsigned(value: Value) -> Option<u64> {
    match json_contents(value) {
        JsonContents::Unsigned(n) => Some(n),
        _ => None,
    }
}

/// The texts of a document, if it is an array of texts and nothing else.
pub open spec fn json_text_list(value: Value) -> Option<Seq<Seq<char>>> {
    match json_contents(value) {
        JsonContents::Array(items) => if forall|i: int|
            0 <= i < items.len() ==> json_contents(#[trigger] items[i]) is Text {
            Some(items.map_values(|item: Value| json_contents(item)->Text_0))
        } else {
            None
        },
        _ => None,
    }
}

/// The items of a document: those of an array, or the document alone.
pub open spec fn json_items(value: Value) -> Seq<Value> {
    match json_contents(value) {
        JsonContents::Array(items) => items,
        _ => seq![value],
    }
}

/// The object that a list of members with distinct keys makes.
pub open spec fn members_map(members: Seq<(String, Value)>) -> Map<Seq<char>, Value>
    decreases members.len(),
{
    if members.len() == 0 {
        Map::empty()
    } else {
        members_map(members.drop_last()).insert(members.last().0@, members.last().1)
    }
}

/// One document laid over another: of two objects, each key of the second has its
/// value there, and every other key has its value in the first; otherwise both are
/// taken as lists, a document that is no array as a list of itself, and joined.
pub open spec fn json_merged(base: Value, over: Value, merged: Value) -> bool {
    match (json_contents(base), json_contents(over)) {
        (JsonContents::Object(old_members), JsonContents::Object(new_members)) => json_contents(
            merged,
        ) == JsonContents::Object(old_members.union_prefer_right(new_members)),
        _ => merged == json_array(json_items(base) + json_items(over)),
    }
}

/// Laying an object over an object changes the keys that it has, and no other.
pub proof fn law_merge_changes_only_its_keys(
    base: Value,
    over: Value,
    merged: Value,
    key: Seq<char>,
)
    requires
        json_contents(base) is Object,
        json_contents(over) is Object,
        json_merged(base, over, merged),
    ensures
        json_contents(merged) is Object,
        json_member(merged, key) == match json_member(over, key) {
            Some(value) => Some(value),
            None => json_member(base, key),
        },
{
}

proof fn lemma_joined_members(first: Seq<(String, Value)>, second: Seq<(String, Value)>)
    ensures
        members_map(first + second) == members_map(first).union_prefer_right(members_map(second)),
    decreases second.len(),
{
    if second.len() == 0 {
        assert(first + second =~= first);
        assert(members_map(first).union_prefer_right(members_map(second)) =~= members_map(first));
    } else {
        let front = second.drop_last();
        assert((first + second).drop_last() =~= first + front);
        assert((first + second).last() == second.last());
        lemma_joined_members(first, front);
        assert(members_map(first + second) =~= members_map(first).union_prefer_right(
            members_map(second),
        ));
    }
}

proof fn lemma_keys_of_members(members: Seq<(String, Value)>, key: Seq<char>)
    ensures
        members_map(members).contains_key(key) == has_key(members, key),
    decreases members.len(),
{
    if members.len() > 0 {
        let front = members.drop_last();
        lemma_keys_of_members(front, key);
        if has_key(front, key) {
            let i = choose|i: int| 0 <= i < front.len() && (#[trigger] front[i]).0@ == key;
            assert(members[i].0@ == key);
        }
        if has_key(members, key) && members.last().0@ != key {
            let i = choose|i: int| 0 <= i < members.len() && (#[trigger] members[i]).0@ == key;
            assert(front[i].0@ == key);
        }
        assert(members[members.len() - 1] == members.last());
    }
}

/// Leaving out a member whose key is in the object laid over changes nothing.
proof fn lemma_replaced_member_is_left_out(
    kept: Seq<(String, Value)>,
    member: (String, Value),
    over: Seq<(String, Value)>,
)
    requires
        has_key(over, member.0@),
    ensures
        members_map(kept.push(member)).union_prefer_right(members_map(over)) == members_map(
            kept,
        ).union_prefer_right(members_map(over)),
{
    lemma_keys_of_members(over, member.0@);
    assert(kept.push(member).drop_last() =~= kept);
    assert(members_map(kept.push(member)) == members_map(kept).insert(member.0@, member.1));
    assert(members_map(kept.push(member)).union_prefer_right(members_map(over)) =~= members_map(
        kept,
    ).union_prefer_right(members_map(over)));
}

/// No key occurs twice in a list of members.
pub open spec fn distinct_keys(members: Seq<(String, Value)>) -> bool {
    forall|i: int, j: int|
        0 <= i < j < members.len() ==> (#[trigger] members[i]).0@ != (#[trigger] members[j]).0@
}

/// A list of members has the key.
pub open spec fn has_key(members: Seq<(String, Value)>, key: Seq<char>) -> bool {
    exists|i: int| 0 <= i < members.len() && (#[trigger] members[i]).0@ == key
}

/// `serde_json::Value::get` with a text key: the member under the key.
#[verifier::external_body]
pub(crate) fn get_member<'a>(value: &'a Value, key: &str) -> (member: Option<&'a Value>)
    ensures
        match member {
            Some(found) => json_member(*value, key@) == Some(*found),
            None => json_member(*value, key@) is None,
        },
{
    value.get(key)
}

/// `serde_json::Value::as_u64`: the integer, if the document is a nonnegative
/// one of 64 bits.
#[verifier::external_body]
pub(crate) fn as_unsigned(value: &Value) -> (n: Option<u64>)
    ensures
        n == json_unsigned(*value),
{
    value.as_u64()
}

/// `PartialEq` of `serde_json::Value`: the answer depends on the two documents
/// alone, and a document is equal to itself, as its numbers are finite.
#[verifier::external_body]
pub(crate) fn same_document(a: &Value, b: &Value) -> (same: bool)
    ensures
        same == json_equal(*a, *b),
        *a == *b ==> same,
{
    a == b
}

/// `serde_json::from_value` into a list of texts, with the refusal written out
/// by its `Display`. It succeeds on an array of texts and on nothing else.
#[verifier::external_body]
pub(crate) fn read_text_list(value: Value) -> (list: Result<Vec<String>, String>)
    ensures
        match json_text_list(value) {
            Some(expected) => list matches Ok(read) && texts(read@) == expected,
            None => list matches Err(words) && words@ == text_list_refusal(value),
        },
{
    serde_json::from_value::<Vec<String>>(value).map_err(|error| error.to_string())
}

/// The variants of `serde_json::Value` taken apart: the items of an array, or
/// the document itself.
#[verifier::external_body]
pub(crate) fn into_array(value: Value) -> (items: Result<Vec<Value>, Value>)
    ensures
        match json_contents(value) {
            JsonContents::Array(expected) => items matches Ok(read) && read@ == expected,
            _ => items == Err::<Vec<Value>, Value>(value),
        },
{
    match value {
        Value::Array(items) => Ok(items),
        other => Err(other),
    }
}

/// The variants of `serde_json::Value` taken apart: the members of an object, as
/// `IntoIterator` of `serde_json::Map` gives them, each key once; or the document
/// itself.
#[verifier::external_body]
pub(crate) fn into_members(value: Value) -> (members: Result<Vec<(String, Value)>, Value>)
    ensures
        match json_contents(value) {
            JsonContents::Object(expected) => members matches Ok(read) && distinct_keys(read@)
                && members_map(read@) == expected,
            _ => members == Err::<Vec<(String, Value)>, Value>(value),
        },
{
    match value {
        Value::Object(map) => Ok(map.into_iter().collect()),
        other => Err(other),
    }
}

/// `serde_json::Value::Array`: the document depends on the items alone.
#[verifier::external_body]
pub(crate) fn array_document(items: Vec<Value>) -> (value: Value)
    ensures
        value == json_array(items@),
        json_contents(value) == JsonContents::Array(items@),
{
    Value::Array(items)
}

/// `Clone` of `serde_json::Value`: the copy is the same document.
pub assume_specification[ <Value as Clone>::clone ](value: &Value) -> (copy: Value)
    ensures
        copy == *value,
;

/// `serde_json::Value::String`.
#[verifier::external_body]
pub(crate) fn text_document(text: String) -> (value: Value)
    ensures
        json_contents(value) == JsonContents::Text(text@),
{
    Value::String(text)
}

/// `From<i32>` of `serde_json::Value`.
#[verifier::external_body]
pub(crate) fn integer_document(n: i32) -> (value: Value)
    ensures
        n >= 0 ==> json_contents(value) == JsonContents::Unsigned(n as u64),
        n < 0 ==> json_contents(value) == JsonContents::OtherNumber,
{
    Value::from(n)
}

/// `serde_json::Value::Object` with `FromIterator` of `serde_json::Map`. Nothing is
/// claimed for a list with a key that occurs twice.
#[verifier::external_body]
pub(crate) fn object_document(members: Vec<(String, Value)>) -> (value: Value)
    ensures
        distinct_keys(members@) ==> json_contents(value) == JsonContents::Object(
            members_map(members@),
        ),
{
    Value::Object(members.into_iter().collect())
}

/// The items of a document: those of an array, or the document alone.
pub fn document_items(value: Value) -> (items: Vec<Value>)
    ensures
        items@ == json_items(value),
{
    match into_array(value) {
        Ok(items) => items,
        Err(single) => {
            let items = vec![single];
            assert(items@ =~= seq![single]);
            items
        },
    }
}

fn is_key_of(members: &Vec<(String, Value)>, key: &str) -> (is: bool)
    ensures
        is == has_key(members@, key@),
{
    let mut i: usize = 0;
    while i < members.len()
        invariant
            i <= members.len(),
            forall|j: int| 0 <= j < i ==> (#[trigger] members@[j]).0@ != key@,
        decreases members.len() - i,
    {
        if same_text(members[i].0.as_str(), key) {
            assert(members@[i as int].0@ == key@);
            return true;
        }
        i += 1;
    }
    false
}

/// The members of one object with those of another laid over them.
fn join_members(base: Vec<(String, Value)>, over: Vec<(String, Value)>) -> (joined: Vec<
    (String, Value),
>)
    requires
        distinct_keys(base@),
        distinct_keys(over@),
    ensures
        distinct_keys(joined@),
        members_map(joined@) == members_map(base@).union_prefer_right(members_map(over@)),
{
    let ghost all = base@;
    let ghost added = over@;
    let mut kept: Vec<(String, Value)> = Vec::new();
    assert(all.take(0) =~= Seq::<(String, Value)>::empty());
    for member in iter: base
        invariant
            all == base@,
            iter.seq() == all,
            over@ == added,
            distinct_keys(all),
            distinct_keys(kept@),
            forall|i: int| 0 <= i < kept@.len() ==> !has_key(added, (#[trigger] kept@[i]).0@),
            forall|i: int|
                0 <= i < kept@.len() ==> has_key(
                    all.take(iter.index()),
                    (#[trigger] kept@[i]).0@,
                ),
            members_map(kept@).union_prefer_right(members_map(added)) == members_map(
                all.take(iter.index()),
            ).union_prefer_right(members_map(added)),
    {
        let ghost n = iter.index();
        let ghost before = kept@;
        proof {
            assert(member == all[n]);
            assert(all.take(n + 1) =~= all.take(n).push(member));
            assert(all.take(n + 1).drop_last() =~= all.take(n));
            assert forall|key: Seq<char>| has_key(all.take(n), key) implies has_key(
                all.take(n + 1),
                key,
            ) by {
                let i = choose|i: int|
                    0 <= i < n && (#[trigger] all.take(n)[i]).0@ == key;
                assert(all.take(n + 1)[i].0@ == key);
            }
            assert(all.take(n + 1)[n].0@ == member.0@);
            if has_key(all.take(n), member.0@) {
                let i = choose|i: int|
                    0 <= i < n && (#[trigger] all.take(n)[i]).0@ == member.0@;
                assert(all[i].0@ != all[n].0@);
            }
        }
        if is_key_of(&over, member.0.as_str()) {
            proof {
                lemma_replaced_member_is_left_out(all.take(n), member, added);
            }
        } else {
            kept.push(member);
            proof {
                assert(kept@.drop_last() =~= before);
                assert(members_map(kept@).union_prefer_right(members_map(added))
                    =~= members_map(before).union_prefer_right(members_map(added)).insert(
                    member.0@,
                    member.1,
                )) by {
                    lemma_keys_of_members(added, member.0@);
                }
                assert(members_map(all.take(n + 1)).union_prefer_right(members_map(added))
                    =~= members_map(all.take(n)).union_prefer_right(members_map(added)).insert(
                    member.0@,
                    member.1,
                )) by {
                    lemma_keys_of_members(added, member.0@);
                }
            }
        }
    }
    assert(all.take(all.len() as int) =~= all);
    let ghost first = kept@;
    let mut over = over;
    kept.append(&mut over);
    proof {
        lemma_joined_members(first, added);
        assert(kept@ =~= first + added);
        assert forall|i: int, j: int| 0 <= i < j < kept@.len() implies (#[trigger] kept@[i]).0@ != (
        #[trigger] kept@[j]).0@ by {
            if i < first.len() && j >= first.len() {
                assert(kept@[j] == added[j - first.len()]);
                assert(!has_key(added, first[i].0@));
            } else if i >= first.len() {
                assert(added[i - first.len()].0@ != added[j - first.len()].0@);
            } else {
                assert(first[i].0@ != first[j].0@);
            }
        }
    }
    kept
}

/// Lays one document over another, as PostgreSQL's `||` does with two `jsonb`.
pub fn merge_documents(base: Value, over: Value) -> (merged: Value)
    ensures
        json_merged(base, over, merged),
{
    if let Ok(members) = into_members(base.clone()) {
        if let Ok(added) = into_members(over.clone()) {
            return object_document(join_members(members, added));
        }
    }
    let mut items = document_items(base);
    let mut added = document_items(over);
    items.append(&mut added);
    array_document(items)
}

/// The metadata given, or an empty object.
pub fn default_metadata(metadata: Option<Value>) -> (value: Value)
    ensures
        match metadata {
            Some(given) => value == given,
            None => json_contents(value) == JsonContents::Object(Map::empty()),
        },
{
    match metadata {
        Some(given) => given,
        None => object_document(Vec::new()),
    }
}

/// A document is a list of texts exactly if it is an array of nothing but texts, and is
/// then read one by one. A document that is no array counts as its one item.
pub proof fn law_text_lists_and_items(value: Value)
    ensures
        json_text_list(value) is Some <==> json_contents(value) is Array && forall|i: int|
            0 <= i < json_contents(value)->Array_0.len() ==> json_contents(
                #[trigger] json_contents(value)->Array_0[i],
            ) is Text,
        json_text_list(value) matches Some(list) ==> {
            &&& list.len() == json_contents(value)->Array_0.len()
            &&& forall|i: int|
                0 <= i < list.len() ==> json_contents(json_contents(value)->Array_0[i])
                    == JsonContents::Text(#[trigger] list[i])
        },
        json_contents(value) is Array ==> json_items(value) == json_contents(value)->Array_0,
        json_contents(value) !is Array ==> json_items(value) == seq![value],
{
}

} // verus!
