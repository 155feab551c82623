use bytes::BytesMut;
use tds_auth::{to_utf16_bytes, Error, FedAuthToken, TokenFedAuthInfo};

fn le(n: u32) -> [u8; 4] {
    n.to_le_bytes()
}

/// A message with the given option records `(id, text)`, texts laid out
/// after the table in record order.
fn message(options: &[(u8, &str)]) -> Vec<u8> {
    let texts: Vec<Vec<u8>> = options.iter().map(|(_, t)| to_utf16_bytes(t)).collect();
    let table_len = 9 * options.len();
    let mut table = Vec::new();
    let mut payload = Vec::new();
    for ((id, _), text) in options.iter().zip(texts.iter()) {
        // offsets count from the start of option_count
        let offset = 4 + table_len + payload.len();
        table.push(*id);
        table.extend_from_slice(&le(text.len() as u32));
        table.extend_from_slice(&le(offset as u32));
        payload.extend_from_slice(text);
    }
    let mut msg = Vec::new();
    msg.extend_from_slice(&le((4 + table.len() + payload.len()) as u32));
    msg.extend_from_slice(&le(options.len() as u32));
    msg.extend_from_slice(&table);
    msg.extend_from_slice(&payload);
    msg
}

#[test]
fn encodes_abc_token() {
    let mut dst = BytesMut::new();
    FedAuthToken::new("abc").encode(&mut dst).unwrap();
    assert_eq!(
        &dst[..],
        &[0x0A, 0, 0, 0, 0x06, 0, 0, 0, 0x61, 0, 0x62, 0, 0x63, 0][..]
    );
}

#[test]
fn encode_appends_after_existing_bytes() {
    let mut dst = BytesMut::new();
    dst.extend_from_slice(&[0xFF]);
    FedAuthToken::new("").encode(&mut dst).unwrap();
    assert_eq!(&dst[..], &[0xFF, 4, 0, 0, 0, 0, 0, 0, 0][..]);
}

#[test]
fn encode_non_ascii_token() {
    let mut dst = BytesMut::new();
    FedAuthToken::new("\u{20ac}").encode(&mut dst).unwrap();
    assert_eq!(&dst[..], &[6, 0, 0, 0, 2, 0, 0, 0, 0xac, 0x20][..]);
}

#[test]
fn decodes_sts_url_and_spn() {
    let msg = message(&[(1, "https://sts"), (2, "https://db")]);
    let info = TokenFedAuthInfo::decode(&msg).unwrap();
    assert_eq!(info.sts_url(), "https://sts");
    assert_eq!(info.spn(), "https://db");
}

#[test]
fn decodes_in_any_option_order() {
    let msg = message(&[(2, "https://db"), (1, "https://sts")]);
    let info = TokenFedAuthInfo::decode(&msg).unwrap();
    assert_eq!(info.sts_url(), "https://sts");
    assert_eq!(info.spn(), "https://db");
}

#[test]
fn unknown_ids_are_skipped_and_last_duplicate_wins() {
    let msg = message(&[(1, "first"), (7, "other"), (2, "spn"), (1, "second")]);
    let info = TokenFedAuthInfo::decode(&msg).unwrap();
    assert_eq!(info.sts_url(), "second");
    assert_eq!(info.spn(), "spn");
}

#[test]
fn missing_spn_is_rejected() {
    let msg = message(&[(1, "https://sts")]);
    assert!(matches!(TokenFedAuthInfo::decode(&msg), Err(Error::Protocol(_))));
}

#[test]
fn empty_table_is_rejected() {
    let msg = message(&[]);
    assert_eq!(msg, vec![4, 0, 0, 0, 0, 0, 0, 0]);
    assert!(matches!(TokenFedAuthInfo::decode(&msg), Err(Error::Protocol(_))));
}

#[test]
fn offset_outside_message_is_rejected() {
    let mut msg = message(&[(1, "https://sts"), (2, "https://db")]);
    // second record's offset, far past the end
    msg[8 + 9 + 5..8 + 9 + 9].copy_from_slice(&le(0xFFFF_FFF0));
    assert!(matches!(TokenFedAuthInfo::decode(&msg), Err(Error::Protocol(_))));
}

#[test]
fn length_outside_message_is_rejected() {
    let mut msg = message(&[(1, "https://sts"), (2, "https://db")]);
    msg[8 + 1..8 + 5].copy_from_slice(&le(0xFFFF_FFFF));
    assert!(matches!(TokenFedAuthInfo::decode(&msg), Err(Error::Protocol(_))));
}

#[test]
fn offset_below_option_count_is_rejected() {
    let mut msg = message(&[(1, "https://sts"), (2, "https://db")]);
    msg[8 + 5..8 + 9].copy_from_slice(&le(2));
    assert!(matches!(TokenFedAuthInfo::decode(&msg), Err(Error::Protocol(_))));
}

#[test]
fn option_count_too_large_is_rejected() {
    let mut msg = message(&[(1, "a"), (2, "b")]);
    msg[4..8].copy_from_slice(&le(1000));
    assert!(matches!(TokenFedAuthInfo::decode(&msg), Err(Error::Protocol(_))));
}

#[test]
fn truncated_message_is_rejected() {
    let msg = message(&[(1, "https://sts"), (2, "https://db")]);
    let short = &msg[..msg.len() - 1];
    assert!(matches!(TokenFedAuthInfo::decode(short), Err(Error::Protocol(_))));
    assert!(matches!(TokenFedAuthInfo::decode(&msg[..3]), Err(Error::Protocol(_))));
}

#[test]
fn token_length_below_four_is_rejected() {
    assert!(matches!(TokenFedAuthInfo::decode(&[3, 0, 0, 0, 0, 0, 0]), Err(Error::Protocol(_))));
}

#[test]
fn odd_payload_length_is_a_text_error() {
    let mut msg = message(&[(1, "https://sts"), (2, "https://db")]);
    msg[8 + 1..8 + 5].copy_from_slice(&le(3));
    assert_eq!(TokenFedAuthInfo::decode(&msg).err(), Some(Error::Utf16));
}

#[test]
fn trailing_bytes_are_ignored() {
    let mut msg = message(&[(1, "s"), (2, "p")]);
    msg.extend_from_slice(&[9, 9, 9]);
    let info = TokenFedAuthInfo::decode(&msg).unwrap();
    assert_eq!(info.sts_url(), "s");
    assert_eq!(info.spn(), "p");
}
