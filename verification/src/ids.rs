//! Identifiers of rows: a prefix naming the kind of row, then a random part.
use uuid::Uuid;
use vstd::prelude::*;

verus! {

/// A lowercase hex digit.
pub open spec fn is_lower_hex(c: char) -> bool {
    ('0' <= c && c <= '9') || ('a' <= c && c <= 'f')
}

/// The shape of a random (version 4) UUID written without hyphens: 32 lowercase
/// hex digits, the version digit and the variant digit in their places.
pub open spec fn is_simple_v4(text: Seq<char>) -> bool {
    &&& text.len() == 32
    &&& forall|i: int| 0 <= i < 32 ==> is_lower_hex(#[trigger] text[i])
    &&& text[12] == '4'
    &&& text[16] == '8' || text[16] == '9' || text[16] == 'a' || text[16] == 'b'
}

/// `uuid::Uuid::new_v4` written by `Uuid::simple`. The digits are random; only
/// the shape that every outcome has is claimed.
#[verifier::external_body]
fn random_simple_uuid() -> (text: String)
    ensures
        is_simple_v4(text@),
{
    Uuid::new_v4().simple().to_string()
}

/// Joins a prefix and the random part of an identifier.
pub fn prefixed(prefix: &str, random_part: &str) -> (id: String)
    ensures
        id@ == prefix@ + seq!['_'] + random_part@,
{
    proof {
        reveal_strlit("_");
    }
    let mut id = prefix.to_owned();
    id.append("_");
    assert(id@ =~= prefix@ + seq!['_']);
    id.append(random_part);
    id
}

/// An identifier is made of the prefix and a random part.
pub open spec fn is_prefixed_id(id: Seq<char>, prefix: Seq<char>) -> bool {
    exists|random_part: Seq<char>|
        is_simple_v4(random_part) && id == #[trigger] (prefix + seq!['_'] + random_part)
}

/// A fresh identifier with the given prefix.
pub fn prefixed_id(prefix: &str) -> (id: String)
    ensures
        is_prefixed_id(id@, prefix@),
        id@.len() == prefix@.len() + 33,
{
    let random_part = random_simple_uuid();
    prefixed(prefix, random_part.as_str())
}

/// An id is its prefix, an underscore and thirty-two digits of lower-case hexadecimal,
/// among them the marks of a random identifier of version four.
pub proof fn law_prefixed_id_parts(id: Seq<char>, prefix: Seq<char>)
    requires
        is_prefixed_id(id, prefix),
    ensures
        id.len() == prefix.len() + 33,
        id.take(prefix.len() as int) == prefix,
        id[prefix.len() as int] == '_',
        id[prefix.len() as int + 13] == '4',
        id[prefix.len() as int + 17] == '8' || id[prefix.len() as int + 17] == '9'
            || id[prefix.len() as int + 17]
            == 'a' || id[prefix.len() as int + 17] == 'b',
        forall|i: int|
            prefix.len() < i < id.len() ==> ('0' <= #[trigger] id[i] && id[i] <= '9') || ('a'
                <= id[i] && id[i] <= 'f'),
{
    let random_part = choose|random_part: Seq<char>|
        is_simple_v4(random_part) && id == #[trigger] (prefix + seq!['_'] + random_part);
    assert(id.take(prefix.len() as int) =~= prefix);
    assert forall|i: int| prefix.len() < i < id.len() implies ('0' <= #[trigger] id[i] && id[i]
        <= '9') || ('a' <= id[i] && id[i] <= 'f') by {
        assert(id[i] == random_part[i - prefix.len() - 1]);
    }
}

} // verus!
