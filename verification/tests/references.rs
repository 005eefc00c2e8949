use vfs_clgit::{CommitId, HashParseError, ObjectId, TryIntoCommitHash};

const SHA1: &str = "74da26a93c3eac22884a62bd8d70aab3434c9174";
const SHA1_BYTES: [u8; 20] = [
    0x74, 0xda, 0x26, 0xa9, 0x3c, 0x3e, 0xac, 0x22, 0x88, 0x4a, 0x62, 0xbd, 0x8d, 0x70, 0xaa, 0xb3,
    0x43, 0x4c, 0x91, 0x74,
];

#[test]
fn hex_of_a_sha1_gives_its_bytes() {
    let id = ObjectId::from_hex(SHA1).unwrap();
    assert_eq!(id.as_bytes(), &SHA1_BYTES[..]);
}

#[test]
fn hex_may_be_upper_case() {
    let id = ObjectId::from_hex("74DA26A93C3EAC22884A62BD8D70AAB3434C9174").unwrap();
    assert_eq!(id.as_bytes(), &SHA1_BYTES[..]);
    let mixed = ObjectId::from_hex("74dA26a93C3eac22884A62bd8d70AAB3434c9174").unwrap();
    assert_eq!(mixed, id);
}

#[test]
fn hex_of_a_sha256_gives_its_bytes() {
    let id = ObjectId::from_hex("0123456789abcdef0123456789abcdef0123456789abcdef0123456789abcdef")
        .unwrap();
    let expected: Vec<u8> =
        [0x01u8, 0x23, 0x45, 0x67, 0x89, 0xab, 0xcd, 0xef].iter().cycle().take(32).cloned().collect();
    assert_eq!(id.as_bytes(), &expected[..]);
}

#[test]
fn hex_of_a_wrong_length_is_refused() {
    for bad in [
        "",
        "74da",
        "eb6c43cb699caa2ccbc4e28f9ab75a2a17e4ee7c0",
        "eb6c43cb699caa2ccbc4e28f9ab75a2a17e4ee7",
        "0123456789abcdef0123456789abcdef0123456789abcdef0123456789abcde",
        "0123456789abcdef0123456789abcdef0123456789abcdef0123456789abcdef0",
    ] {
        assert_eq!(ObjectId::from_hex(bad), Err(HashParseError::LengthMismatch));
    }
}

#[test]
fn length_is_judged_before_the_digits() {
    assert_eq!(ObjectId::from_hex("zz"), Err(HashParseError::LengthMismatch));
}

#[test]
fn first_bad_character_is_reported() {
    assert_eq!(
        ObjectId::from_hex("eb6c43cb699caa2ccbc4e28f9ab75a2a17e4ee7!"),
        Err(HashParseError::BadCharacter('!'))
    );
    assert_eq!(
        ObjectId::from_hex("eb6c43cb69xcaa2ccbc4e28f9ab75a2a17e4eeg!"),
        Err(HashParseError::BadCharacter('x'))
    );
    assert_eq!(
        ObjectId::from_hex("gb6c43cb699caa2ccbc4e28f9ab75a2a17e4ee7c"),
        Err(HashParseError::BadCharacter('g'))
    );
}

#[test]
fn characters_next_to_the_digits_are_bad() {
    for bad in ['/', ':', '@', 'G', '`', 'g'] {
        let mut text = String::from(&SHA1[..39]);
        text.push(bad);
        assert_eq!(ObjectId::from_hex(&text), Err(HashParseError::BadCharacter(bad)));
    }
}

#[test]
fn text_beyond_ascii_is_judged_by_its_bytes() {
    // 38 digits and one character of two bytes: 40 bytes, the first of the two is at fault.
    let mut text = String::from(&SHA1[..38]);
    text.push('\u{e9}');
    assert_eq!(text.len(), 40);
    assert_eq!(ObjectId::from_hex(&text), Err(HashParseError::BadCharacter('\u{c3}')));
}

#[test]
fn twenty_or_thirty_two_bytes_make_a_reference() {
    let short = ObjectId::from_bytes(&[7u8; 20]).unwrap();
    assert_eq!(short.as_bytes(), &[7u8; 20][..]);
    let long = ObjectId::from_bytes(&[9u8; 32]).unwrap();
    assert_eq!(long.as_bytes(), &[9u8; 32][..]);
}

#[test]
fn other_lengths_make_no_reference() {
    for n in [0usize, 1, 19, 21, 31, 33, 40, 64] {
        assert_eq!(ObjectId::from_bytes(&vec![0u8; n]), Err(HashParseError::LengthMismatch));
    }
}

#[test]
fn bytes_and_hex_agree() {
    assert_eq!(ObjectId::from_bytes(&SHA1_BYTES), ObjectId::from_hex(SHA1));
}

#[test]
fn clone_keeps_the_bytes() {
    let id = ObjectId::from_hex(SHA1).unwrap();
    assert_eq!(id.clone(), id);
    let commit = id.clone().cast_commit();
    assert_eq!(commit.clone(), commit);
}

#[test]
fn cast_and_typeless_keep_the_bytes() {
    let id = ObjectId::from_hex(SHA1).unwrap();
    let commit: CommitId = id.clone().cast_commit();
    assert_eq!(commit.as_bytes(), &SHA1_BYTES[..]);
    assert_eq!(commit.typeless(), id);
}

#[test]
fn text_names_a_commit() {
    let expected = ObjectId::from_hex(SHA1).unwrap().cast_commit();
    assert_eq!(SHA1.try_into_commit_hash(), Ok(expected.clone()));
    assert_eq!(SHA1.to_string().try_into_commit_hash(), Ok(expected.clone()));
    assert_eq!((&SHA1.to_string()).try_into_commit_hash(), Ok(expected));
}

#[test]
fn bad_text_names_no_commit() {
    assert_eq!("".try_into_commit_hash(), Err(HashParseError::LengthMismatch));
    assert_eq!(String::from("abc").try_into_commit_hash(), Err(HashParseError::LengthMismatch));
    let bad = "z".repeat(40);
    assert_eq!((&bad).try_into_commit_hash(), Err(HashParseError::BadCharacter('z')));
}

#[test]
fn bytes_name_a_commit() {
    let expected = ObjectId::from_bytes(&SHA1_BYTES).unwrap().cast_commit();
    assert_eq!((&SHA1_BYTES[..]).try_into_commit_hash(), Ok(expected.clone()));
    assert_eq!(SHA1_BYTES.to_vec().try_into_commit_hash(), Ok(expected.clone()));
    assert_eq!((&SHA1_BYTES.to_vec()).try_into_commit_hash(), Ok(expected));
}

#[test]
fn bad_bytes_name_no_commit() {
    assert_eq!((&[1u8, 2, 3][..]).try_into_commit_hash(), Err(HashParseError::LengthMismatch));
    assert_eq!(vec![0u8; 21].try_into_commit_hash(), Err(HashParseError::LengthMismatch));
    assert_eq!((&Vec::<u8>::new()).try_into_commit_hash(), Err(HashParseError::LengthMismatch));
}

#[test]
fn references_name_a_commit_as_they_are() {
    let id = ObjectId::from_bytes(&[0xabu8; 32]).unwrap();
    let commit = id.clone().cast_commit();
    assert_eq!(commit.clone().try_into_commit_hash(), Ok(commit.clone()));
    assert_eq!((&commit).try_into_commit_hash(), Ok(commit.clone()));
    assert_eq!(id.clone().try_into_commit_hash(), Ok(commit.clone()));
    assert_eq!((&id).try_into_commit_hash(), Ok(commit));
}
