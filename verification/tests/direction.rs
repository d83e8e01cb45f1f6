use snake::Direction;

#[test]
fn reads_the_four_tokens() {
    assert_eq!(Direction::from_token(b"up"), Some(Direction::Up));
    assert_eq!(Direction::from_token(b"down"), Some(Direction::Down));
    assert_eq!(Direction::from_token(b"left"), Some(Direction::Left));
    assert_eq!(Direction::from_token(b"right"), Some(Direction::Right));
}

#[test]
fn reads_tokens_from_strings() {
    let token = String::from("left");
    assert_eq!(Direction::from_token(token.as_bytes()), Some(Direction::Left));
}

#[test]
fn refuses_the_empty_token() {
    assert_eq!(Direction::from_token(b""), None);
}

#[test]
fn refuses_other_spellings() {
    assert_eq!(Direction::from_token(b"UP"), None);
    assert_eq!(Direction::from_token(b"Up"), None);
    assert_eq!(Direction::from_token(b"Right"), None);
    assert_eq!(Direction::from_token(b"lefT"), None);
    assert_eq!(Direction::from_token(b" up"), None);
    assert_eq!(Direction::from_token(b"up "), None);
}

#[test]
fn refuses_prefixes_and_extensions() {
    assert_eq!(Direction::from_token(b"u"), None);
    assert_eq!(Direction::from_token(b"upp"), None);
    assert_eq!(Direction::from_token(b"dow"), None);
    assert_eq!(Direction::from_token(b"downn"), None);
    assert_eq!(Direction::from_token(b"lef"), None);
    assert_eq!(Direction::from_token(b"righ"), None);
    assert_eq!(Direction::from_token(b"rights"), None);
}

#[test]
fn refuses_tokens_of_the_right_length_with_one_wrong_byte() {
    assert_eq!(Direction::from_token(b"uq"), None);
    assert_eq!(Direction::from_token(b"xp"), None);
    assert_eq!(Direction::from_token(b"dawn"), None);
    assert_eq!(Direction::from_token(b"lift"), None);
    assert_eq!(Direction::from_token(b"light"), None);
    assert_eq!(Direction::from_token(b"nope"), None);
}

#[test]
fn refuses_bytes_that_are_not_text() {
    assert_eq!(Direction::from_token(&[0xff, 0xfe]), None);
    assert_eq!(Direction::from_token(&[0x75, 0x70, 0x00]), None);
}
