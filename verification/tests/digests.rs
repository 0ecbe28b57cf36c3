use centaur_session_sqlx::digest::{frame_input_lines, hex_lower, input_lines_sha256};
use centaur_session_sqlx::ids::{prefixed, prefixed_id};

fn lines(list: &[&str]) -> Vec<String> {
    list.iter().map(|line| line.to_string()).collect()
}

#[test]
fn fingerprint_of_no_lines_is_that_of_the_tag() {
    assert_eq!(
        input_lines_sha256(&[]),
        "2ba6415ce2795ddd7677539ddd277ff1eff158a6a8c9cfa374e5382569f609e6"
    );
}

#[test]
fn fingerprint_of_one_line() {
    assert_eq!(
        input_lines_sha256(&lines(&["sensitive exact input"])),
        "ad07fbf22fa947524ffded16e2192a74e997ce4375ee2b09c9948bb916983579"
    );
}

#[test]
fn fingerprint_tells_line_breaks_apart() {
    let first = input_lines_sha256(&lines(&["ab", "c"]));
    let second = input_lines_sha256(&lines(&["a", "bc"]));
    assert_eq!(
        first,
        "48a3f531bfd80c7472784e234292dbeb487576f7f4e39e1278b996f7d92155ac"
    );
    assert_eq!(
        second,
        "a43d90e40256141ef9ad7c80ef6f5d207ee3e67e6517a3d3511d5e0c2338fd00"
    );
    assert_ne!(
        frame_input_lines(&lines(&["ab", "c"])),
        frame_input_lines(&lines(&["a", "bc"]))
    );
}

#[test]
fn fingerprint_counts_bytes_and_not_characters() {
    assert_eq!(
        input_lines_sha256(&lines(&["\u{e9}"])),
        "b5dcd62033cc0f8f58b49053de540742cd9baf03b4b2501e9521434f0ab9a669"
    );
    let frame = frame_input_lines(&lines(&["\u{e9}"]));
    let tag = b"centaur.session-input-delivery.v1\\0";
    assert_eq!(&frame[..tag.len()], tag);
    assert_eq!(&frame[tag.len()..], [0, 0, 0, 0, 0, 0, 0, 2, 0xc3, 0xa9]);
}

#[test]
fn hex_is_lowercase_with_two_digits_a_byte() {
    assert_eq!(hex_lower(&[0x00, 0x0f, 0xa0, 0xff, 0x5b]), "000fa0ff5b");
    assert_eq!(hex_lower(&[]), "");
}

#[test]
fn identifiers_join_prefix_and_random_part() {
    assert_eq!(prefixed("exe", "0123"), "exe_0123");
}

#[test]
fn prefixed_ids_are_random_version_four() {
    let id = prefixed_id("dly");
    let other = prefixed_id("dly");
    assert!(id.starts_with("dly_"));
    assert_eq!(id.len(), 36);
    let random = &id[4..];
    assert!(random
        .chars()
        .all(|c| c.is_ascii_digit() || ('a'..='f').contains(&c)));
    assert_eq!(random.as_bytes()[12], b'4');
    assert!(b"89ab".contains(&random.as_bytes()[16]));
    assert_ne!(id, other);
}
