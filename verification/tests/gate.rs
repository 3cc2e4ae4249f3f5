use discord_interactions::crypto::VerifyKey;
use discord_interactions::gate::{verify_signature, GateError};
use discord_interactions::timestamp::{check_clock_skew, parse_i64};
use ed25519_dalek::Signer;
use ed25519_dalek::SigningKey;

fn signing_key() -> SigningKey {
    SigningKey::from_bytes(&[7u8; 32])
}

fn verify_key_of(sk: &SigningKey) -> VerifyKey {
    VerifyKey::new(sk.verifying_key().to_bytes().to_vec()).unwrap()
}

fn sign_hex(sk: &SigningKey, ts: &[u8], body: &[u8]) -> Vec<u8> {
    let mut msg = ts.to_vec();
    msg.extend_from_slice(body);
    hex::encode(sk.sign(&msg).to_bytes()).into_bytes()
}

#[test]
fn valid_signature_accepted() {
    let sk = signing_key();
    let key = verify_key_of(&sk);
    let body = b"{\"type\":1}".to_vec();
    let ts = b"1700000000".to_vec();
    let sig = sign_hex(&sk, &ts, &body);
    let r = verify_signature(&key, Some(&sig), Some(&ts), &body, 1_700_000_000, 300);
    assert_eq!(r, Ok(()));
}

#[test]
fn signed_timestamp_bytes_are_used_verbatim() {
    // A plus sign changes the header bytes, so it is part of the signed
    // message, and the decimal value is unchanged.
    let sk = signing_key();
    let key = verify_key_of(&sk);
    let body = b"payload".to_vec();
    let ts = b"+1700000000".to_vec();
    let sig = sign_hex(&sk, &ts, &body);
    let r = verify_signature(&key, Some(&sig), Some(&ts), &body, 1_700_000_000, 300);
    assert_eq!(r, Ok(()));
}

#[test]
fn empty_body_can_be_signed_and_verified() {
    let sk = signing_key();
    let key = verify_key_of(&sk);
    let body: Vec<u8> = Vec::new();
    let ts = b"1700000000".to_vec();
    let sig = sign_hex(&sk, &ts, &body);
    let r = verify_signature(&key, Some(&sig), Some(&ts), &body, 1_700_000_000, 300);
    assert_eq!(r, Ok(()));
}

#[test]
fn body_bytes_need_not_be_text() {
    let sk = signing_key();
    let key = verify_key_of(&sk);
    let body = vec![0xffu8, 0x00, 0x80, 0x7f];
    let ts = b"1700000000".to_vec();
    let sig = sign_hex(&sk, &ts, &body);
    let r = verify_signature(&key, Some(&sig), Some(&ts), &body, 1_700_000_000, 300);
    assert_eq!(r, Ok(()));
}

#[test]
fn flipped_body_byte_rejected() {
    let sk = signing_key();
    let key = verify_key_of(&sk);
    let body = b"{\"type\":1}".to_vec();
    let ts = b"1700000000".to_vec();
    let sig = sign_hex(&sk, &ts, &body);
    let mut tampered = body.clone();
    tampered[0] ^= 1;
    let r = verify_signature(&key, Some(&sig), Some(&ts), &tampered, 1_700_000_000, 300);
    assert_eq!(r, Err(GateError::SignatureMismatch));
}

#[test]
fn flipped_signature_byte_rejected() {
    let sk = signing_key();
    let key = verify_key_of(&sk);
    let body = b"{\"type\":1}".to_vec();
    let ts = b"1700000000".to_vec();
    let mut sig = sign_hex(&sk, &ts, &body);
    sig[0] = if sig[0] == b'0' { b'1' } else { b'0' };
    let r = verify_signature(&key, Some(&sig), Some(&ts), &body, 1_700_000_000, 300);
    assert_eq!(r, Err(GateError::SignatureMismatch));
}

#[test]
fn changed_timestamp_rejected() {
    let sk = signing_key();
    let key = verify_key_of(&sk);
    let body = b"{\"type\":1}".to_vec();
    let ts = b"1700000000".to_vec();
    let sig = sign_hex(&sk, &ts, &body);
    // Still inside the tolerance window, so only the signature can complain.
    let other_ts = b"1700000001".to_vec();
    let r = verify_signature(&key, Some(&sig), Some(&other_ts), &body, 1_700_000_000, 300);
    assert_eq!(r, Err(GateError::SignatureMismatch));
}

#[test]
fn wrong_key_rejected() {
    let sk = signing_key();
    let other = SigningKey::from_bytes(&[9u8; 32]);
    let key = verify_key_of(&other);
    let body = b"{\"type\":1}".to_vec();
    let ts = b"1700000000".to_vec();
    let sig = sign_hex(&sk, &ts, &body);
    let r = verify_signature(&key, Some(&sig), Some(&ts), &body, 1_700_000_000, 300);
    assert_eq!(r, Err(GateError::SignatureMismatch));
}

#[test]
fn tolerance_boundary_past() {
    let sk = signing_key();
    let key = verify_key_of(&sk);
    let body = b"x".to_vec();
    let now: i64 = 1_700_000_000;

    let ts = b"1699999700".to_vec(); // now - 300
    let sig = sign_hex(&sk, &ts, &body);
    assert_eq!(verify_signature(&key, Some(&sig), Some(&ts), &body, now, 300), Ok(()));

    let ts = b"1699999699".to_vec(); // now - 301
    let sig = sign_hex(&sk, &ts, &body);
    assert_eq!(
        verify_signature(&key, Some(&sig), Some(&ts), &body, now, 300),
        Err(GateError::ClockSkewExceeded)
    );
}

#[test]
fn tolerance_boundary_future() {
    let sk = signing_key();
    let key = verify_key_of(&sk);
    let body = b"x".to_vec();
    let now: i64 = 1_700_000_000;

    let ts = b"1700000300".to_vec(); // now + 300
    let sig = sign_hex(&sk, &ts, &body);
    assert_eq!(verify_signature(&key, Some(&sig), Some(&ts), &body, now, 300), Ok(()));

    let ts = b"1700000301".to_vec(); // now + 301
    let sig = sign_hex(&sk, &ts, &body);
    assert_eq!(
        verify_signature(&key, Some(&sig), Some(&ts), &body, now, 300),
        Err(GateError::ClockSkewExceeded)
    );
}

#[test]
fn sixty_three_byte_signature_rejected_as_malformed() {
    let key = verify_key_of(&signing_key());
    let body = b"x".to_vec();
    let ts = b"1700000000".to_vec();
    let sig = vec![b'a'; 126]; // decodes to 63 bytes
    let r = verify_signature(&key, Some(&sig), Some(&ts), &body, 1_700_000_000, 300);
    assert_eq!(r, Err(GateError::MalformedSignature));
}

#[test]
fn sixty_five_byte_signature_rejected_as_malformed() {
    let key = verify_key_of(&signing_key());
    let body = b"x".to_vec();
    let ts = b"1700000000".to_vec();
    let sig = vec![b'a'; 130]; // decodes to 65 bytes
    let r = verify_signature(&key, Some(&sig), Some(&ts), &body, 1_700_000_000, 300);
    assert_eq!(r, Err(GateError::MalformedSignature));
}

#[test]
fn odd_length_hex_rejected_as_malformed() {
    let key = verify_key_of(&signing_key());
    let body = b"x".to_vec();
    let ts = b"1700000000".to_vec();
    let sig = vec![b'a'; 127];
    let r = verify_signature(&key, Some(&sig), Some(&ts), &body, 1_700_000_000, 300);
    assert_eq!(r, Err(GateError::MalformedSignature));
}

#[test]
fn non_hex_signature_rejected_as_malformed() {
    let key = verify_key_of(&signing_key());
    let body = b"x".to_vec();
    let ts = b"1700000000".to_vec();
    let sig = vec![b'z'; 128];
    let r = verify_signature(&key, Some(&sig), Some(&ts), &body, 1_700_000_000, 300);
    assert_eq!(r, Err(GateError::MalformedSignature));
}

#[test]
fn missing_headers_rejected() {
    let key = verify_key_of(&signing_key());
    let body = b"x".to_vec();
    let ts = b"1700000000".to_vec();
    let sig = vec![b'a'; 128];
    assert_eq!(
        verify_signature(&key, None, Some(&ts), &body, 1_700_000_000, 300),
        Err(GateError::MalformedHeader)
    );
    assert_eq!(
        verify_signature(&key, Some(&sig), None, &body, 1_700_000_000, 300),
        Err(GateError::MalformedHeader)
    );
}

#[test]
fn non_numeric_timestamp_rejected() {
    let key = verify_key_of(&signing_key());
    let body = b"x".to_vec();
    let sig = vec![b'a'; 128];
    for ts in [&b"abc"[..], &b""[..], &b"+"[..], &b"12a"[..], &b"99999999999999999999"[..]] {
        let ts = ts.to_vec();
        let r = verify_signature(&key, Some(&sig), Some(&ts), &body, 1_700_000_000, 300);
        assert_eq!(r, Err(GateError::MalformedTimestamp));
    }
}

#[test]
fn signature_checked_before_timestamp() {
    // A request that is both malformed in its signature and non-numeric in
    // its timestamp reports the signature first.
    let key = verify_key_of(&signing_key());
    let body = b"x".to_vec();
    let ts = b"abc".to_vec();
    let sig = vec![b'z'; 128];
    let r = verify_signature(&key, Some(&sig), Some(&ts), &body, 1_700_000_000, 300);
    assert_eq!(r, Err(GateError::MalformedSignature));
}

#[test]
fn parse_i64_values() {
    assert_eq!(parse_i64(b"123"), Some(123));
    assert_eq!(parse_i64(b"0"), Some(0));
    assert_eq!(parse_i64(b"007"), Some(7));
    assert_eq!(parse_i64(b"+42"), Some(42));
    assert_eq!(parse_i64(b"-42"), Some(-42));
    assert_eq!(parse_i64(b"-0"), Some(0));
    assert_eq!(parse_i64(b"9223372036854775807"), Some(i64::MAX));
    assert_eq!(parse_i64(b"9223372036854775808"), None);
    assert_eq!(parse_i64(b"-9223372036854775808"), Some(i64::MIN));
    assert_eq!(parse_i64(b"-9223372036854775809"), None);
    assert_eq!(parse_i64(b"00000000000000000000001"), Some(1));
    assert_eq!(parse_i64(b""), None);
    assert_eq!(parse_i64(b"+"), None);
    assert_eq!(parse_i64(b"-"), None);
    assert_eq!(parse_i64(b" 1"), None);
    assert_eq!(parse_i64(b"1 "), None);
    assert_eq!(parse_i64(b"12a"), None);
}

#[test]
fn clock_skew_window() {
    assert!(check_clock_skew(1000, 1000, 0));
    assert!(check_clock_skew(700, 1000, 300));
    assert!(!check_clock_skew(699, 1000, 300));
    assert!(check_clock_skew(1300, 1000, 300));
    assert!(!check_clock_skew(1301, 1000, 300));
    assert!(!check_clock_skew(i64::MIN, 1000, 300));
    assert!(!check_clock_skew(i64::MAX, -1000, 300));
}

#[test]
fn verify_key_length_checked() {
    assert!(VerifyKey::new(vec![0u8; 31]).is_none());
    assert!(VerifyKey::new(vec![0u8; 33]).is_none());
    assert!(VerifyKey::new(vec![0u8; 32]).is_some());
    assert!(VerifyKey::from_hex(&[b'a'; 64]).is_some());
    assert!(VerifyKey::from_hex(&[b'a'; 62]).is_none());
    assert!(VerifyKey::from_hex(&[b'z'; 64]).is_none());
}
