use blockchain::server::{admit_transaction, Admission};
use sha2::Digest;
use blockchain::cryptography::ecdsa::ECDSA;

fn hex_ok(s: &str) -> bool {
    s.len() % 2 == 0 && s.bytes().all(|b| b.is_ascii_digit() || (b'a'..=b'f').contains(&b))
}

#[test]
fn generated_keys_are_hex_of_the_right_length() {
    let (public_key, secret_key) = ECDSA::generate_keys();
    assert_eq!(public_key.len(), 130);
    assert_eq!(secret_key.len(), 64);
    assert!(public_key.starts_with("04"));
    assert!(hex_ok(&public_key) && hex_ok(&secret_key));
}

#[test]
fn signature_verifies_under_matching_key() {
    let (public_key, secret_key) = ECDSA::generate_keys();
    let data = String::from("{\"amount\":5.0,\"recipient\":\"bob\",\"sender\":\"alice\"}");
    let signature = ECDSA::sign_message(&data, &secret_key);
    assert!(hex_ok(&signature));
    assert!(ECDSA::verify(&data, &public_key, &signature));
    assert_eq!(ECDSA::try_verify(&data, &public_key, &signature), Some(true));
}

#[test]
fn signature_fails_for_other_data_or_key() {
    let (public_key, secret_key) = ECDSA::generate_keys();
    let (other_public, _) = ECDSA::generate_keys();
    let data = String::from("payload");
    let signature = ECDSA::sign_message(&data, &secret_key);
    assert!(!ECDSA::verify(&String::from("payload!"), &public_key, &signature));
    assert!(!ECDSA::verify(&data, &other_public, &signature));
}

#[test]
fn signing_is_deterministic() {
    let secret_key = String::from("0000000000000000000000000000000000000000000000000000000000000001");
    let data = String::from("hello");
    assert_eq!(ECDSA::sign_message(&data, &secret_key), ECDSA::sign_message(&data, &secret_key));
}

#[test]
fn compact_signature_is_accepted() {
    let secret = secp256k1::SecretKey::from_slice(&[0x11; 32]).unwrap();
    let secp = secp256k1::Secp256k1::new();
    let public = secp256k1::PublicKey::from_secret_key(&secp, &secret);
    let digest = sha2::Sha256::digest(b"compact");
    let msg = secp256k1::Message::from_digest_slice(&digest).unwrap();
    let sig = secp.sign_ecdsa(&msg, &secret).serialize_compact();
    let sig_hex = hex::encode(sig);
    assert_eq!(sig_hex.len(), 128);
    let pk_hex = hex::encode(public.serialize_uncompressed());
    assert!(ECDSA::verify(&String::from("compact"), &pk_hex, &sig_hex));
}

#[test]
fn try_verify_reports_unreadable_input() {
    let (public_key, secret_key) = ECDSA::generate_keys();
    let data = String::from("x");
    let signature = ECDSA::sign_message(&data, &secret_key);
    assert_eq!(ECDSA::try_verify(&data, &public_key, &String::from("zz")), None);
    assert_eq!(ECDSA::try_verify(&data, &String::from("abc"), &signature), None);
    assert_eq!(ECDSA::try_verify(&data, &String::from("0102"), &signature), None);
    assert_eq!(ECDSA::try_verify(&data, &public_key, &String::from("3000")), None);
    let bad_compact = "ff".repeat(64);
    assert_eq!(ECDSA::try_verify(&data, &public_key, &bad_compact), None);
}

#[test]
fn signature_text_is_der_hex() {
    let (_, secret_key) = ECDSA::generate_keys();
    let signature = ECDSA::sign_message(&String::from("shape"), &secret_key);
    assert!(signature.starts_with("30"));
    assert!(signature.len() >= 16 && signature.len() <= 144);
}

#[test]
fn try_sign_message_checks_the_key() {
    let data = String::from("d");
    let zero = "00".repeat(32);
    assert_eq!(ECDSA::try_sign_message(&data, &zero), None);
    assert_eq!(ECDSA::try_sign_message(&data, &String::from("xyz")), None);
    assert_eq!(ECDSA::try_sign_message(&data, &"ff".repeat(32)), None);
    let (_, secret_key) = ECDSA::generate_keys();
    assert_eq!(ECDSA::try_sign_message(&data, &secret_key), Some(ECDSA::sign_message(&data, &secret_key)));
}

#[test]
fn verify_reads_compressed_keys_alike() {
    let secret = secp256k1::SecretKey::from_slice(&[0x22; 32]).unwrap();
    let secp = secp256k1::Secp256k1::new();
    let public = secp256k1::PublicKey::from_secret_key(&secp, &secret);
    let secret_hex = hex::encode(secret.secret_bytes());
    let data = String::from("encodings");
    let signature = ECDSA::sign_message(&data, &secret_hex);
    let uncompressed = hex::encode(public.serialize_uncompressed());
    let compressed = hex::encode(public.serialize());
    assert_eq!(
        ECDSA::verify(&data, &uncompressed, &signature),
        ECDSA::verify(&data, &compressed, &signature)
    );
    assert!(ECDSA::verify(&data, &compressed.to_uppercase(), &signature));
}

#[test]
fn admission_of_submitted_transactions() {
    let (public_key, secret_key) = ECDSA::generate_keys();
    let text = String::from("{\"amount\":1.0}");
    let signature = ECDSA::sign_message(&text, &secret_key);
    assert_eq!(admit_transaction(None, &text, &public_key), Some(Admission::MissingSignature));
    assert_eq!(admit_transaction(Some(signature.clone()), &text, &public_key), Some(Admission::Accepted));
    assert_eq!(
        admit_transaction(Some(signature), &String::from("other"), &public_key),
        Some(Admission::Rejected)
    );
    assert_eq!(admit_transaction(Some(String::from("zz")), &text, &public_key), None);
    assert_eq!(Admission::MissingSignature.reply(), "Signature must be empty");
    assert_eq!(Admission::Accepted.reply(), "OK");
    assert_eq!(Admission::Rejected.reply(), "Signature error.");
}
