use request_identity::digest::{hash, Digest, DIGEST_LEN};
use request_identity::identity::{InsertableDatabaseUser, Login};

fn hex(text: &str) -> Vec<u8> {
    let digits: Vec<u8> = text
        .bytes()
        .map(|b| match b {
            b'0'..=b'9' => b - b'0',
            b'a'..=b'f' => b - b'a' + 10,
            _ => panic!("not a hex digit"),
        })
        .collect();
    digits.chunks(2).map(|pair| pair[0] * 16 + pair[1]).collect()
}

#[test]
fn hash_of_nothing_is_the_blake3_of_the_empty_stream() {
    let expected = hex("af1349b9f5f9a1a6a0404dea36dcc9499bcb25c9adc112b7cc9a93cae41f3262");
    assert_eq!(hash("", "").as_bytes().to_vec(), expected);
}

#[test]
fn hash_reads_username_then_secret_as_one_stream() {
    let expected = hex("6437b3ac38465133ffb63b75273a8db548c558465d79db03fd359c6cd5bd9d85");
    assert_eq!(hash("a", "bc").as_bytes().to_vec(), expected);
    assert_eq!(hash("ab", "c").as_bytes().to_vec(), expected);
    assert_eq!(hash("abc", "").as_bytes().to_vec(), expected);
    assert_eq!(hash("", "abc").as_bytes().to_vec(), expected);
}

#[test]
fn hash_agrees_with_the_hasher_fed_in_two_parts() {
    let mut hasher = blake3::Hasher::new();
    hasher.update("alice".as_bytes());
    hasher.update("pw1".as_bytes());
    assert_eq!(hash("alice", "pw1").as_bytes(), *hasher.finalize().as_bytes());
}

#[test]
fn hash_is_order_sensitive() {
    assert_ne!(hash("alice", "pw1"), hash("pw1", "alice"));
}

#[test]
fn hash_is_deterministic() {
    assert_eq!(hash("alice", "pw1"), hash("alice", "pw1"));
    assert!(hash("alice", "pw1").matches(&hash("alice", "pw1")));
}

#[test]
fn hash_separates_usernames_under_one_secret() {
    assert_ne!(hash("alice", "secret"), hash("bob", "secret"));
    assert!(!hash("alice", "secret").matches(&hash("bob", "secret")));
}

#[test]
fn hash_separates_secrets_under_one_username() {
    assert_ne!(hash("alice", "pw1"), hash("alice", "wrong"));
}

#[test]
fn hash_takes_text_beyond_ascii() {
    let expected = *blake3::hash("zoë日本".as_bytes()).as_bytes();
    assert_eq!(hash("zoë", "日本").as_bytes(), expected);
}

#[test]
fn digest_is_read_from_exactly_32_bytes() {
    let stored: Vec<u8> = (0u8..32).collect();
    let digest = Digest::from_slice(&stored).expect("32 bytes are a digest");
    assert_eq!(digest.as_bytes().to_vec(), stored);
    assert_eq!(DIGEST_LEN, 32);
    assert!(Digest::from_slice(&stored[..31]).is_none());
    assert!(Digest::from_slice(&[0u8; 33]).is_none());
    assert!(Digest::from_slice(&[]).is_none());
}

#[test]
fn digest_keeps_its_bytes() {
    let mut bytes = [0u8; 32];
    bytes[0] = 1;
    bytes[31] = 255;
    assert_eq!(Digest::from_bytes(bytes).as_bytes(), bytes);
}

#[test]
fn digests_match_when_every_byte_does() {
    let a = Digest::from_bytes([7u8; 32]);
    let mut other = [7u8; 32];
    assert!(a.matches(&Digest::from_bytes(other)));
    other[31] = 8;
    assert!(!a.matches(&Digest::from_bytes(other)));
    other[31] = 7;
    other[0] = 6;
    assert!(!a.matches(&Digest::from_bytes(other)));
}

#[test]
fn stored_row_holds_the_digest_in_place_of_the_password() {
    let login = Login { username: "alice".to_owned(), password: "pw1".to_owned() };
    let row = InsertableDatabaseUser::from(login);
    assert_eq!(row.username, "alice");
    assert_eq!(row.password, hash("alice", "pw1"));
    let again = InsertableDatabaseUser::from_credential("alice".to_owned(), "pw1");
    assert_eq!(row, again);
    let converted: InsertableDatabaseUser =
        Login { username: "alice".to_owned(), password: "pw1".to_owned() }.into();
    assert_eq!(row, converted);
}
