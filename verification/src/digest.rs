//! The fingerprint of an exact list of input lines.
//!
//! The lines are framed unambiguously (a domain tag, then each line behind its
//! byte length) and the SHA-256 of the frame is written in lowercase hex.
use sha2::Digest;
use vstd::prelude::*;
use vstd::utf8::encode_utf8;

verus! {

/// The SHA-256 digest of a byte string.
pub uninterp spec fn sha256_digest(bytes: Seq<u8>) -> Seq<u8>;

/// `sha2::Sha256::digest`: the 32-byte digest, which depends on the bytes alone.
#[verifier::external_body]
fn sha256(bytes: &[u8]) -> (digest: Vec<u8>)
    ensures
        digest@ == sha256_digest(bytes@),
        digest@.len() == 32,
{
    sha2::Sha256::digest(bytes).to_vec()
}

/// The eight bytes of a length, most significant first.
#[verifier::opaque]
pub open spec fn be_bytes(n: u64) -> Seq<u8> {
    seq![
        ((n / 0x100000000000000) % 256) as u8,
        ((n / 0x1000000000000) % 256) as u8,
        ((n / 0x10000000000) % 256) as u8,
        ((n / 0x100000000) % 256) as u8,
        ((n / 0x1000000) % 256) as u8,
        ((n / 0x10000) % 256) as u8,
        ((n / 0x100) % 256) as u8,
        (n % 256) as u8,
    ]
}

/// The tag that separates this fingerprint from other uses of the digest.
pub open spec fn frame_tag() -> Seq<u8> {
    encode_utf8("centaur.session-input-delivery.v1\\0"@)
}

/// One line in the frame: its byte length, then its bytes.
pub open spec fn framed_line(line: Seq<char>) -> Seq<u8> {
    be_bytes(encode_utf8(line).len() as u64) + encode_utf8(line)
}

/// The lines in the frame, one behind the other.
pub open spec fn framed_lines(lines: Seq<Seq<char>>) -> Seq<u8>
    decreases lines.len(),
{
    if lines.len() == 0 {
        Seq::empty()
    } else {
        framed_lines(lines.drop_last()) + framed_line(lines.last())
    }
}

/// The byte string whose digest stands for the lines.
pub open spec fn input_frame(lines: Seq<Seq<char>>) -> Seq<u8> {
    frame_tag() + framed_lines(lines)
}

/// The lowercase hex digit of a value under 16.
pub open spec fn hex_digit(n: int) -> char {
    if n == 0 { '0' }
    else if n == 1 { '1' }
    else if n == 2 { '2' }
    else if n == 3 { '3' }
    else if n == 4 { '4' }
    else if n == 5 { '5' }
    else if n == 6 { '6' }
    else if n == 7 { '7' }
    else if n == 8 { '8' }
    else if n == 9 { '9' }
    else if n == 10 { 'a' }
    else if n == 11 { 'b' }
    else if n == 12 { 'c' }
    else if n == 13 { 'd' }
    else if n == 14 { 'e' }
    else { 'f' }
}

/// Two hex digits for each byte, in order.
pub open spec fn hex_text(bytes: Seq<u8>) -> Seq<char> {
    Seq::new(
        2 * bytes.len(),
        |i: int|
            if i % 2 == 0 {
                hex_digit(bytes[i / 2] as int / 16)
            } else {
                hex_digit(bytes[i / 2] as int % 16)
            },
    )
}

/// The fingerprint of a list of lines.
pub open spec fn lines_fingerprint(lines: Seq<Seq<char>>) -> Seq<char> {
    hex_text(sha256_digest(input_frame(lines)))
}

fn hex_digit_text(n: u8) -> (text: &'static str)
    requires
        n < 16,
    ensures
        text@ == seq![hex_digit(n as int)],
{
    proof {
        reveal_strlit("0");
        reveal_strlit("1");
        reveal_strlit("2");
        reveal_strlit("3");
        reveal_strlit("4");
        reveal_strlit("5");
        reveal_strlit("6");
        reveal_strlit("7");
        reveal_strlit("8");
        reveal_strlit("9");
        reveal_strlit("a");
        reveal_strlit("b");
        reveal_strlit("c");
        reveal_strlit("d");
        reveal_strlit("e");
        reveal_strlit("f");
    }
    match n {
        0 => "0",
        1 => "1",
        2 => "2",
        3 => "3",
        4 => "4",
        5 => "5",
        6 => "6",
        7 => "7",
        8 => "8",
        9 => "9",
        10 => "a",
        11 => "b",
        12 => "c",
        13 => "d",
        14 => "e",
        _ => "f",
    }
}

/// Writes bytes in lowercase hex, two digits each.
pub fn hex_lower(bytes: &[u8]) -> (text: String)
    ensures
        text@ == hex_text(bytes@),
{
    let mut text = String::new();
    let mut i: usize = 0;
    while i < bytes.len()
        invariant
            i <= bytes.len(),
            text@ == hex_text(bytes@.take(i as int)),
        decreases bytes.len() - i,
    {
        let byte: u8 = bytes[i];
        let ghost before = text@;
        text.append(hex_digit_text(byte / 16));
        text.append(hex_digit_text(byte % 16));
        i += 1;
        proof {
            let shorter = bytes@.take(i - 1);
            let longer = bytes@.take(i as int);
            assert forall|j: int| 0 <= j < 2 * i implies #[trigger] text@[j] == hex_text(longer)[j] by {
                if j < 2 * (i - 1) {
                    assert(text@[j] == before[j]);
                    assert(shorter[j / 2] == longer[j / 2]);
                } else {
                    assert(longer[i - 1] == byte);
                    assert(j / 2 == i - 1);
                }
            }
            assert(text@ =~= hex_text(longer));
        }
    }
    assert(bytes@.take(i as int) =~= bytes@);
    text
}

fn push_all(frame: &mut Vec<u8>, bytes: &[u8])
    ensures
        final(frame)@ == old(frame)@ + bytes@,
{
    let ghost start = frame@;
    let mut i: usize = 0;
    while i < bytes.len()
        invariant
            i <= bytes.len(),
            frame@ == start + bytes@.take(i as int),
        decreases bytes.len() - i,
    {
        frame.push(bytes[i]);
        i += 1;
        assert(bytes@.take(i as int) =~= bytes@.take(i - 1).push(bytes@[i - 1]));
    }
    assert(bytes@.take(i as int) =~= bytes@);
}

fn push_length(frame: &mut Vec<u8>, n: u64)
    ensures
        final(frame)@ == old(frame)@ + be_bytes(n),
{
    frame.push(((n / 0x100000000000000) % 256) as u8);
    frame.push(((n / 0x1000000000000) % 256) as u8);
    frame.push(((n / 0x10000000000) % 256) as u8);
    frame.push(((n / 0x100000000) % 256) as u8);
    frame.push(((n / 0x1000000) % 256) as u8);
    frame.push(((n / 0x10000) % 256) as u8);
    frame.push(((n / 0x100) % 256) as u8);
    frame.push((n % 256) as u8);
    proof {
        reveal(be_bytes);
    }
    assert(frame@ =~= old(frame)@ + be_bytes(n));
}

/// Frames the lines for the digest.
pub fn frame_input_lines(input_lines: &[String]) -> (frame: Vec<u8>)
    ensures
        frame@ == input_frame(crate::text::texts(input_lines@)),
{
    let mut frame: Vec<u8> = Vec::new();
    push_all(&mut frame, "centaur.session-input-delivery.v1\\0".as_bytes());
    assert(frame@ =~= frame_tag());
    let ghost lines = crate::text::texts(input_lines@);
    let mut i: usize = 0;
    assert(frame@ =~= frame_tag() + framed_lines(lines.take(0)));
    while i < input_lines.len()
        invariant
            i <= input_lines.len(),
            lines == crate::text::texts(input_lines@),
            frame@ == frame_tag() + framed_lines(lines.take(i as int)),
        decreases input_lines.len() - i,
    {
        let bytes = input_lines[i].as_str().as_bytes();
        let ghost before = frame@;
        push_length(&mut frame, bytes.len() as u64);
        push_all(&mut frame, bytes);
        i += 1;
        proof {
            let taken = lines.take(i as int);
            assert(taken.drop_last() =~= lines.take(i - 1));
            assert(taken.last() == input_lines@[i - 1]@);
            assert(frame@ =~= before + framed_line(taken.last()));
            assert(frame@ =~= frame_tag() + framed_lines(taken));
        }
    }
    assert(lines.take(i as int) =~= lines);
    frame
}

/// The lowercase hex SHA-256 of the framed lines.
pub fn input_lines_sha256(input_lines: &[String]) -> (fingerprint: String)
    ensures
        fingerprint@ == lines_fingerprint(crate::text::texts(input_lines@)),
        fingerprint@.len() == 64,
{
    let frame = frame_input_lines(input_lines);
    let digest = sha256(frame.as_slice());
    hex_lower(digest.as_slice())
}

/// The bytes of a line can be counted in 64 bits.
pub open spec fn countable(line: Seq<char>) -> bool {
    encode_utf8(line).len() <= u64::MAX
}

proof fn lemma_be_bytes_len(n: u64)
    ensures
        be_bytes(n).len() == 8,
{
    reveal(be_bytes);
}

proof fn lemma_next_byte(a: int, b: int, unit: int)
    requires
        0 <= a,
        0 <= b,
        0 < unit,
        a / (unit * 256) == b / (unit * 256),
        (a / unit) % 256 == (b / unit) % 256,
    ensures
        a / unit == b / unit,
{
    vstd::arithmetic::div_mod::lemma_div_denominator(a, unit, 256);
    vstd::arithmetic::div_mod::lemma_div_denominator(b, unit, 256);
    vstd::arithmetic::div_mod::lemma_fundamental_div_mod(a / unit, 256);
    vstd::arithmetic::div_mod::lemma_fundamental_div_mod(b / unit, 256);
}

proof fn lemma_be_bytes_injective(a: u64, b: u64)
    requires
        be_bytes(a) == be_bytes(b),
    ensures
        a == b,
{
    reveal(be_bytes);
    let x = a as int;
    let y = b as int;
    assert(be_bytes(a)[0] == be_bytes(b)[0]);
    assert(x / 0x100000000000000 == y / 0x100000000000000);
    assert(be_bytes(a)[1] == be_bytes(b)[1]);
    lemma_next_byte(x, y, 0x1000000000000);
    assert(be_bytes(a)[2] == be_bytes(b)[2]);
    lemma_next_byte(x, y, 0x10000000000);
    assert(be_bytes(a)[3] == be_bytes(b)[3]);
    lemma_next_byte(x, y, 0x100000000);
    assert(be_bytes(a)[4] == be_bytes(b)[4]);
    lemma_next_byte(x, y, 0x1000000);
    assert(be_bytes(a)[5] == be_bytes(b)[5]);
    lemma_next_byte(x, y, 0x10000);
    assert(be_bytes(a)[6] == be_bytes(b)[6]);
    lemma_next_byte(x, y, 0x100);
    assert(be_bytes(a)[7] == be_bytes(b)[7]);
    lemma_next_byte(x, y, 1);
}

proof fn lemma_framed_lines_front(lines: Seq<Seq<char>>)
    requires
        lines.len() > 0,
    ensures
        framed_lines(lines) == framed_line(lines.first()) + framed_lines(lines.drop_first()),
    decreases lines.len(),
{
    if lines.len() == 1 {
        assert(lines.drop_last() =~= Seq::<Seq<char>>::empty());
        assert(lines.drop_first() =~= Seq::<Seq<char>>::empty());
        assert(framed_lines(lines.drop_last()) =~= Seq::<u8>::empty());
        assert(framed_lines(lines.drop_first()) =~= Seq::<u8>::empty());
        assert(framed_lines(lines) =~= framed_line(lines.first()));
    } else {
        lemma_framed_lines_front(lines.drop_last());
        assert(lines.drop_last().drop_first() =~= lines.drop_first().drop_last());
        assert(framed_lines(lines) =~= framed_line(lines.first()) + framed_lines(
            lines.drop_first(),
        ));
    }
}

proof fn lemma_framed_lines_injective(a: Seq<Seq<char>>, b: Seq<Seq<char>>)
    requires
        forall|i: int| 0 <= i < a.len() ==> countable(#[trigger] a[i]),
        forall|i: int| 0 <= i < b.len() ==> countable(#[trigger] b[i]),
        framed_lines(a) == framed_lines(b),
    ensures
        a == b,
    decreases a.len() + b.len(),
{
    if a.len() > 0 {
        lemma_framed_lines_front(a);
    }
    if b.len() > 0 {
        lemma_framed_lines_front(b);
    }
    if a.len() == 0 || b.len() == 0 {
        if a.len() > 0 {
            lemma_be_bytes_len(encode_utf8(a.first()).len() as u64);
            assert(framed_lines(a).len() >= 8);
            assert(framed_lines(b).len() == 0);
        }
        if b.len() > 0 {
            lemma_be_bytes_len(encode_utf8(b.first()).len() as u64);
            assert(framed_lines(b).len() >= 8);
            assert(framed_lines(a).len() == 0);
        }
        assert(a =~= b);
    } else {
        let x = encode_utf8(a.first());
        let y = encode_utf8(b.first());
        let rest_a = framed_lines(a.drop_first());
        let rest_b = framed_lines(b.drop_first());
        let whole = framed_lines(a);
        let end = 8 + x.len() as int;
        assert(countable(a[0]) && countable(b[0]));
        lemma_be_bytes_len(x.len() as u64);
        lemma_be_bytes_len(y.len() as u64);
        assert(whole =~= be_bytes(x.len() as u64) + x + rest_a);
        assert(whole =~= be_bytes(y.len() as u64) + y + rest_b);
        assert(whole.take(8) =~= be_bytes(x.len() as u64));
        assert(whole.take(8) =~= be_bytes(y.len() as u64));
        lemma_be_bytes_injective(x.len() as u64, y.len() as u64);
        assert(x.len() == y.len());
        assert(whole.subrange(8, end) =~= x);
        assert(whole.subrange(8, end) =~= y);
        vstd::utf8::encode_utf8_decode_utf8(a.first());
        vstd::utf8::encode_utf8_decode_utf8(b.first());
        assert(a.first() == b.first());
        assert(whole.skip(end) =~= rest_a);
        assert(whole.skip(end) =~= rest_b);
        lemma_framed_lines_injective(a.drop_first(), b.drop_first());
        assert(a =~= seq![a.first()] + a.drop_first());
        assert(b =~= seq![b.first()] + b.drop_first());
    }
}

/// Different lists of lines have different frames: neither the split into lines
/// nor any character can change without changing what is digested.
pub proof fn law_frame_is_unambiguous(a: Seq<Seq<char>>, b: Seq<Seq<char>>)
    requires
        forall|i: int| 0 <= i < a.len() ==> countable(#[trigger] a[i]),
        forall|i: int| 0 <= i < b.len() ==> countable(#[trigger] b[i]),
    ensures
        input_frame(a) == input_frame(b) <==> a == b,
{
    if input_frame(a) == input_frame(b) {
        let tag = frame_tag().len() as int;
        assert(input_frame(a).skip(tag) =~= framed_lines(a));
        assert(input_frame(b).skip(tag) =~= framed_lines(b));
        lemma_framed_lines_injective(a, b);
    }
}

/// A digit stands for its value: the sixteen digits are those of lower-case
/// hexadecimal.
pub proof fn law_hex_digits(n: int)
    requires
        0 <= n < 16,
    ensures
        hex_digit(n) == "0123456789abcdef"@[n],
{
    reveal_strlit("0123456789abcdef");
}

/// A fingerprint spells every byte in two digits, the upper half first, and two
/// fingerprints are the same only if the bytes are.
pub proof fn law_hex_text(bytes: Seq<u8>, other: Seq<u8>, i: int)
    requires
        0 <= i < bytes.len(),
    ensures
        hex_text(bytes).len() == 2 * bytes.len(),
        hex_text(bytes)[2 * i] == "0123456789abcdef"@[bytes[i] as int / 16],
        hex_text(bytes)[2 * i + 1] == "0123456789abcdef"@[bytes[i] as int % 16],
        hex_text(bytes) == hex_text(other) ==> bytes == other,
{
    law_hex_digits(bytes[i] as int / 16);
    law_hex_digits(bytes[i] as int % 16);
    if hex_text(bytes) == hex_text(other) {
        assert(hex_text(bytes).len() == 2 * bytes.len() && hex_text(other).len() == 2
            * other.len());
        assert forall|j: int| 0 <= j < bytes.len() implies bytes[j] == other[j] by {
            assert(hex_text(bytes)[2 * j] == hex_text(other)[2 * j]);
            assert(hex_text(bytes)[2 * j + 1] == hex_text(other)[2 * j + 1]);
            assert(bytes[j] as int / 16 == other[j] as int / 16);
            assert(bytes[j] as int % 16 == other[j] as int % 16);
        }
        assert(bytes =~= other);
    }
}

/// A length is written as eight bytes, the most significant first.
pub proof fn law_length_bytes(n: u64)
    ensures
        be_bytes(n).len() == 8,
        n == be_bytes(n)[0] * 0x100000000000000 + be_bytes(n)[1] * 0x1000000000000 + be_bytes(n)[2]
            * 0x10000000000 + be_bytes(n)[3] * 0x100000000 + be_bytes(n)[4] * 0x1000000 + be_bytes(
            n,
        )[5] * 0x10000 + be_bytes(n)[6] * 0x100 + be_bytes(n)[7],
{
    reveal(be_bytes);
    let q1 = n as int / 0x100;
    let q2 = q1 / 256;
    let q3 = q2 / 256;
    let q4 = q3 / 256;
    let q5 = q4 / 256;
    let q6 = q5 / 256;
    let q7 = q6 / 256;
    assert(n as int / 0x10000 == q2);
    assert(n as int / 0x1000000 == q3);
    assert(n as int / 0x100000000 == q4);
    assert(n as int / 0x10000000000 == q5);
    assert(n as int / 0x1000000000000 == q6);
    assert(n as int / 0x100000000000000 == q7);
    assert(q7 < 256);
    assert(be_bytes(n)[0] == q7 && be_bytes(n)[1] == q6 % 256 && be_bytes(n)[2] == q5 % 256
        && be_bytes(n)[3] == q4 % 256 && be_bytes(n)[4] == q3 % 256 && be_bytes(n)[5] == q2 % 256
        && be_bytes(n)[6] == q1 % 256 && be_bytes(n)[7] == n as int % 256);
}

/// What is framed: the tag, then each line in its order as the length of its bytes and
/// the bytes themselves, and nothing between or behind them. The fingerprint is of that
/// frame.
pub proof fn law_frame_line_by_line(lines: Seq<Seq<char>>, line: Seq<char>)
    ensures
        input_frame(Seq::empty()) == encode_utf8("centaur.session-input-delivery.v1\\0"@),
        input_frame(lines.push(line)) == input_frame(lines) + be_bytes(
            encode_utf8(line).len() as u64,
        ) + encode_utf8(line),
        lines_fingerprint(lines) == hex_text(sha256_digest(input_frame(lines))),
{
    assert(lines.push(line).drop_last() =~= lines);
    assert(input_frame(Seq::empty()) =~= encode_utf8("centaur.session-input-delivery.v1\\0"@));
    assert(input_frame(lines.push(line)) =~= input_frame(lines) + be_bytes(
        encode_utf8(line).len() as u64,
    ) + encode_utf8(line));
}

} // verus!
