use rshare::keys::generate_keys;
use rshare::keys::keypair_from_bytes;
use rshare::keys::keypair_from_secret;
use rshare::keys::public_key_fingerprint;
use rshare::keys::validate_keypair;
use rshare::errors::Error;
use rshare::signing::metadata_message;
use rshare::signing::sign_metadata;
use rshare::signing::verify_metadata;
use rshare::signing::verify_incoming_metadata;
use rshare::text::hex_decode;
use rshare::text::hex_encode;
use rshare::text::json_escape;
use rshare::text::str_eq;
use rshare::text::u64_to_dec;

#[test]
fn decimal_rendering() {
    assert_eq!(u64_to_dec(0), "0");
    assert_eq!(u64_to_dec(7), "7");
    assert_eq!(u64_to_dec(10), "10");
    assert_eq!(u64_to_dec(2048), "2048");
    assert_eq!(u64_to_dec(u64::MAX), "18446744073709551615");
}

#[test]
fn hex_rendering() {
    assert_eq!(hex_encode(&[]), "");
    assert_eq!(hex_encode(&[0x00, 0x01, 0xab, 0xff]), "0001abff");
    assert_eq!(hex_encode(&[0xde, 0xad, 0xbe, 0xef]), "deadbeef");
}

#[test]
fn string_equality() {
    assert!(str_eq("abc", "abc"));
    assert!(!str_eq("abc", "abd"));
    assert!(!str_eq("abc", "abcd"));
    assert!(!str_eq("ABC", "abc"));
    assert!(str_eq("", ""));
}

#[test]
fn metadata_message_format() {
    assert_eq!(metadata_message("report.pdf", 2048), "report.pdf|2048");
    assert_eq!(metadata_message("", 0), "|0");
}

#[test]
fn signature_round_trip() {
    let kp = generate_keys().expect("key generation");
    let sig = sign_metadata(&kp.secret, "report.pdf", 2048);
    assert_eq!(sig.len(), 64);
    assert!(verify_metadata(&kp.public, "report.pdf", 2048, &sig));
}

#[test]
fn signature_rejects_mutated_filename() {
    let kp = generate_keys().expect("key generation");
    let sig = sign_metadata(&kp.secret, "report.pdf", 2048);
    assert!(!verify_metadata(&kp.public, "report.pdg", 2048, &sig));
    assert!(!verify_metadata(&kp.public, "Report.pdf", 2048, &sig));
}

#[test]
fn signature_rejects_mutated_size() {
    let kp = generate_keys().expect("key generation");
    let sig = sign_metadata(&kp.secret, "report.pdf", 2048);
    assert!(!verify_metadata(&kp.public, "report.pdf", 2049, &sig));
    assert!(!verify_metadata(&kp.public, "report.pdf", 204, &sig));
}

#[test]
fn signature_rejects_mutated_signature() {
    let kp = generate_keys().expect("key generation");
    let mut sig = sign_metadata(&kp.secret, "report.pdf", 2048);
    sig[0] ^= 1;
    assert!(!verify_metadata(&kp.public, "report.pdf", 2048, &sig));
}

#[test]
fn signature_rejects_wrong_key() {
    let kp = generate_keys().expect("key generation");
    let other = generate_keys().expect("key generation");
    let sig = sign_metadata(&kp.secret, "report.pdf", 2048);
    assert!(!verify_metadata(&other.public, "report.pdf", 2048, &sig));
}

#[test]
fn generated_pair_validates() {
    let kp = generate_keys().expect("key generation");
    assert_eq!(kp.secret.len(), 32);
    assert_eq!(kp.public.len(), 32);
    assert!(validate_keypair(&kp.secret, &kp.public).is_ok());
}

#[test]
fn mismatched_pair_fails_validation() {
    let kp = generate_keys().expect("key generation");
    let other = generate_keys().expect("key generation");
    let r = validate_keypair(&kp.secret, &other.public);
    assert!(matches!(r, Err(Error::CryptoError(_))));
}

#[test]
fn keypair_from_bytes_round_trip() {
    let kp = generate_keys().expect("key generation");
    let rebuilt = keypair_from_bytes(kp.secret.clone(), kp.public.clone()).expect("rebuild");
    assert_eq!(rebuilt.secret, kp.secret);
    assert_eq!(rebuilt.public, kp.public);
}

#[test]
fn keypair_from_bytes_rejects_wrong_lengths() {
    let kp = generate_keys().expect("key generation");
    match keypair_from_bytes(vec![0u8; 31], kp.public.clone()) {
        Err(Error::InvalidInput(m)) => assert_eq!(m, "Invalid private key size"),
        _ => panic!("expected InvalidInput for a short private key"),
    }
    match keypair_from_bytes(kp.secret.clone(), vec![0u8; 33]) {
        Err(Error::InvalidInput(m)) => assert_eq!(m, "Invalid public key size"),
        _ => panic!("expected InvalidInput for a long public key"),
    }
}

#[test]
fn keypair_from_secret_is_deterministic_and_valid() {
    let secret = vec![7u8; 32];
    let a = keypair_from_secret(secret.clone());
    let b = keypair_from_secret(secret.clone());
    assert_eq!(a.secret, secret);
    assert_eq!(a.public, b.public);
    assert_eq!(a.public.len(), 32);
    assert!(validate_keypair(&a.secret, &a.public).is_ok());
}

#[test]
fn keypair_from_bytes_rejects_undecodable_key() {
    // About half of all 32-byte strings are not points on the curve, so some
    // constant-filled key among these must be rejected.
    let secret = vec![7u8; 32];
    let mut saw_crypto_error = false;
    for b in 0u8..=255 {
        match keypair_from_bytes(secret.clone(), vec![b; 32]) {
            Err(Error::CryptoError(m)) => {
                assert_eq!(m, "Invalid public key");
                saw_crypto_error = true;
                break;
            }
            _ => {}
        }
    }
    assert!(saw_crypto_error);
}

#[test]
fn fingerprint_is_hex_of_first_eight_bytes() {
    let public: Vec<u8> = vec![
        0x01, 0x02, 0x03, 0x04, 0xaa, 0xbb, 0xcc, 0xdd, 0x10, 0x20, 0x30, 0x40, 0x50, 0x60, 0x70,
        0x80, 0x90, 0xa0, 0xb0, 0xc0, 0xd0, 0xe0, 0xf0, 0x00, 0x11, 0x22, 0x33, 0x44, 0x55, 0x66,
        0x77, 0x88,
    ];
    assert_eq!(public_key_fingerprint(&public), "01020304aabbccdd");
    assert_eq!(public_key_fingerprint(&public).len(), 16);
}

#[test]
fn hex_decoding() {
    assert_eq!(hex_decode("0001abff"), Some(vec![0x00, 0x01, 0xab, 0xff]));
    assert_eq!(hex_decode("DEADbeef"), Some(vec![0xde, 0xad, 0xbe, 0xef]));
    assert_eq!(hex_decode(""), Some(vec![]));
    assert_eq!(hex_decode("abc"), None);
    assert_eq!(hex_decode("zz"), None);
    let bytes = vec![3u8, 255, 0, 128];
    assert_eq!(hex_decode(&hex_encode(&bytes)), Some(bytes));
}

#[test]
fn json_escaping() {
    assert_eq!(json_escape("plain"), "plain");
    assert_eq!(json_escape("a\"b"), "a\\\"b");
    assert_eq!(json_escape("a\\b"), "a\\\\b");
    assert_eq!(json_escape("a\nb\tc\rd"), "a\\nb\\tc\\rd");
    assert_eq!(json_escape("\u{1}"), "\\u0001");
    assert_eq!(json_escape("\u{1f}"), "\\u001f");
}

#[test]
fn incoming_metadata_check_accepts_honest_sender() {
    let kp = generate_keys().expect("key generation");
    let fp_hex = hex_encode(&kp.public);
    let sig_hex = hex_encode(&sign_metadata(&kp.secret, "report.pdf", 2048));
    assert!(verify_incoming_metadata(&fp_hex, "report.pdf", 2048, &sig_hex).is_ok());
}

#[test]
fn incoming_metadata_check_rejects_tampering() {
    let kp = generate_keys().expect("key generation");
    let fp_hex = hex_encode(&kp.public);
    let sig_hex = hex_encode(&sign_metadata(&kp.secret, "report.pdf", 2048));
    let r = verify_incoming_metadata(&fp_hex, "report.pdf", 2049, &sig_hex);
    assert!(matches!(r, Err(Error::CryptoError(_))));
    let r = verify_incoming_metadata(&fp_hex, "report.pdx", 2048, &sig_hex);
    assert!(matches!(r, Err(Error::CryptoError(_))));
}

#[test]
fn incoming_metadata_check_rejects_malformed_hex() {
    let kp = generate_keys().expect("key generation");
    let fp_hex = hex_encode(&kp.public);
    let sig_hex = hex_encode(&sign_metadata(&kp.secret, "report.pdf", 2048));
    let r = verify_incoming_metadata("zz", "report.pdf", 2048, &sig_hex);
    assert!(matches!(r, Err(Error::InvalidInput(_))));
    let r = verify_incoming_metadata(&fp_hex[..10], "report.pdf", 2048, &sig_hex);
    assert!(matches!(r, Err(Error::InvalidInput(_))));
    let r = verify_incoming_metadata(&fp_hex, "report.pdf", 2048, "abcd");
    assert!(matches!(r, Err(Error::InvalidInput(_))));
}

#[test]
fn full_fingerprint_is_hex_of_key() {
    let kp = generate_keys().expect("key generation");
    let fp = hex_encode(&kp.public);
    assert_eq!(fp.len(), 64);
    assert!(fp.chars().all(|c| c.is_ascii_hexdigit()));
}
