//! Parsing and round-trip behaviour of the piv-p256 stanza format.

use piv_p256::{EphemeralKeyBytes, PublicKeyHandle, Recipient, RecipientLine, Stanza};

fn hex(s: &str) -> Vec<u8> {
    assert!(s.len() % 2 == 0);
    (0..s.len() / 2)
        .map(|i| u8::from_str_radix(&s[2 * i..2 * i + 2], 16).unwrap())
        .collect()
}

/// The SEC1 compressed encoding of the P-256 generator point.
fn generator_compressed() -> Vec<u8> {
    hex("036b17d1f2e12c4247f8bce6e563a440f277037d812deb33a0f4a13945d898c296")
}

fn test_recipient(tag: [u8; 4]) -> Recipient {
    let encoded = generator_compressed();
    let pk = PublicKeyHandle::from_compressed(&encoded).unwrap();
    Recipient::new(pk, encoded, tag.to_vec())
}

fn valid_stanza() -> Stanza {
    Stanza {
        tag: b"piv-p256".to_vec(),
        args: vec![
            b"AQIDBA".to_vec(),
            b"A2sX0fLhLEJH+Lzm5WOkQPJ3A32BLeszoPShOUXYmMKW".to_vec(),
        ],
        body: vec![7u8; 32],
    }
}

#[test]
fn parse_valid_stanza_exact() {
    let s = valid_stanza();
    let line = RecipientLine::from_stanza(&s).unwrap().unwrap();
    assert_eq!(line.tag, vec![1u8, 2, 3, 4]);
    assert_eq!(line.epk_bytes.as_bytes(), &generator_compressed());
    assert_eq!(line.encrypted_file_key, vec![7u8; 32]);
}

#[test]
fn round_trip_wrap() {
    let file_key: Vec<u8> = (0u8..16).collect();
    let recipient = test_recipient([9, 8, 7, 6]);
    let line = RecipientLine::wrap_file_key(&file_key, &recipient);
    assert_eq!(line.tag, vec![9u8, 8, 7, 6]);
    assert_eq!(line.encrypted_file_key.len(), 32);

    let stanza = line.to_stanza();
    let parsed = RecipientLine::from_stanza(&stanza).unwrap().unwrap();
    assert_eq!(parsed.tag, line.tag);
    assert_eq!(parsed.epk_bytes.as_bytes(), line.epk_bytes.as_bytes());
    assert_eq!(parsed.encrypted_file_key, line.encrypted_file_key);
}

#[test]
fn wrap_is_nondeterministic() {
    let file_key: Vec<u8> = (0u8..16).collect();
    let recipient = test_recipient([1, 1, 1, 1]);
    let a = RecipientLine::wrap_file_key(&file_key, &recipient);
    let b = RecipientLine::wrap_file_key(&file_key, &recipient);
    assert_ne!(a.epk_bytes.as_bytes(), b.epk_bytes.as_bytes());
    assert_ne!(a.encrypted_file_key, b.encrypted_file_key);
}

#[test]
fn tag_mismatch_is_not_mine() {
    let mut s = valid_stanza();
    s.tag = b"ssh-ed25519".to_vec();
    assert!(RecipientLine::from_stanza(&s).is_none());

    let mut s = valid_stanza();
    s.tag = b"piv-p257".to_vec();
    assert!(RecipientLine::from_stanza(&s).is_none());

    // Tag mismatch wins over any argument or body content.
    let s = Stanza { tag: b"X25519".to_vec(), args: vec![], body: vec![] };
    assert!(RecipientLine::from_stanza(&s).is_none());
}

#[test]
fn wrong_argument_count_is_malformed() {
    let mut s = valid_stanza();
    s.args.pop();
    assert_eq!(RecipientLine::from_stanza(&s), Some(Err(())));

    let mut s = valid_stanza();
    s.args.push(b"AQIDBA".to_vec());
    assert_eq!(RecipientLine::from_stanza(&s), Some(Err(())));
}

#[test]
fn argument_length_is_preflighted() {
    // A 4-byte field must be exactly 6 base64 characters.
    let mut s = valid_stanza();
    s.args[0] = b"AQIDB".to_vec();
    assert_eq!(RecipientLine::from_stanza(&s), Some(Err(())));

    let mut s = valid_stanza();
    s.args[0] = b"AQIDBAA".to_vec();
    assert_eq!(RecipientLine::from_stanza(&s), Some(Err(())));

    // A 33-byte field must be exactly 44 base64 characters.
    let mut s = valid_stanza();
    s.args[1].pop();
    assert_eq!(RecipientLine::from_stanza(&s), Some(Err(())));

    let mut s = valid_stanza();
    s.args[1].push(b'A');
    assert_eq!(RecipientLine::from_stanza(&s), Some(Err(())));
}

#[test]
fn bad_base64_is_malformed() {
    // Right length, but a character outside the standard alphabet.
    let mut s = valid_stanza();
    s.args[0] = b"AQID@A".to_vec();
    assert_eq!(RecipientLine::from_stanza(&s), Some(Err(())));

    // Right length and alphabet, but non-zero trailing bits: the only
    // 6-character encoding of 01 02 03 04 is AQIDBA.
    let mut s = valid_stanza();
    s.args[0] = b"AQIDBB".to_vec();
    assert_eq!(RecipientLine::from_stanza(&s), Some(Err(())));

    // Padding characters never appear in this format.
    let mut s = valid_stanza();
    s.args[0] = b"AQIDBA==".to_vec();
    assert_eq!(RecipientLine::from_stanza(&s), Some(Err(())));
}

#[test]
fn invalid_point_is_rejected() {
    // 44 characters decoding to 33 well-formed bytes (0x02 prefix), but
    // x = 1 is not the x-coordinate of any P-256 point.
    let mut s = valid_stanza();
    s.args[1] = b"AgAAAAAAAAAAAAAAAAAAAAAAAAAAAAAAAAAAAAAAAAAB".to_vec();
    assert_eq!(RecipientLine::from_stanza(&s), Some(Err(())));
}

#[test]
fn compact_point_encoding_is_rejected() {
    // 33 bytes with the SEC1 compact format byte 0x05 and the generator's
    // x-coordinate: the curve library can parse this form, but it is not
    // a compressed encoding, so the stanza is malformed.
    let mut s = valid_stanza();
    s.args[1] = b"BWsX0fLhLEJH+Lzm5WOkQPJ3A32BLeszoPShOUXYmMKW".to_vec();
    assert_eq!(RecipientLine::from_stanza(&s), Some(Err(())));
}

#[test]
fn body_length_is_checked() {
    let mut s = valid_stanza();
    s.body = vec![7u8; 31];
    assert_eq!(RecipientLine::from_stanza(&s), Some(Err(())));

    let mut s = valid_stanza();
    s.body = vec![7u8; 33];
    assert_eq!(RecipientLine::from_stanza(&s), Some(Err(())));

    let mut s = valid_stanza();
    s.body = vec![0u8; 32];
    assert!(matches!(RecipientLine::from_stanza(&s), Some(Ok(_))));
}

#[test]
fn serialize_exact_fields() {
    let epk_bytes = EphemeralKeyBytes::from_bytes(generator_compressed()).unwrap();
    let line = RecipientLine {
        tag: vec![1, 2, 3, 4],
        epk_bytes,
        encrypted_file_key: vec![7u8; 32],
    };
    let s = line.to_stanza();
    assert_eq!(s.tag, b"piv-p256".to_vec());
    assert_eq!(s.args.len(), 2);
    assert_eq!(s.args[0], b"AQIDBA".to_vec());
    assert_eq!(s.args[1], b"A2sX0fLhLEJH+Lzm5WOkQPJ3A32BLeszoPShOUXYmMKW".to_vec());
    assert_eq!(s.body, vec![7u8; 32]);
}

#[test]
fn example_wrap_known_recipient() {
    let file_key: Vec<u8> = (0u8..16).collect();
    let tag = [0xaa, 0xbb, 0xcc, 0xdd];
    let recipient = test_recipient(tag);
    let line = RecipientLine::wrap_file_key(&file_key, &recipient);
    let stanza = line.to_stanza();

    // First argument decodes to the recipient's known 4-byte tag.
    let arg0 = base64::decode_config(&stanza.args[0], base64::STANDARD_NO_PAD).unwrap();
    assert_eq!(arg0, tag.to_vec());

    // Second argument decodes to a 33-byte compressed point.
    let arg1 = base64::decode_config(&stanza.args[1], base64::STANDARD_NO_PAD).unwrap();
    assert_eq!(arg1.len(), 33);
    assert!(arg1[0] == 0x02 || arg1[0] == 0x03);

    // Body is the 32-byte ciphertext.
    assert_eq!(stanza.body.len(), 32);

    // Re-parsing the exact stanza reproduces the three decoded values.
    let parsed = RecipientLine::from_stanza(&stanza).unwrap().unwrap();
    assert_eq!(parsed.tag, tag.to_vec());
    assert_eq!(parsed.epk_bytes.as_bytes(), &arg1);
    assert_eq!(parsed.encrypted_file_key, stanza.body);
}

#[test]
fn stanza_tag_constant() {
    assert_eq!(piv_p256::stanza_tag(), b"piv-p256".to_vec());
    assert_eq!(piv_p256::stanza_key_label(), b"piv-p256".to_vec());
}
