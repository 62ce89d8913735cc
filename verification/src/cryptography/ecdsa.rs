//! ECDSA over secp256k1: key generation, signing of data and verification of
//! signatures given as hexadecimal text.
use secp256k1::ecdsa::Signature;
use secp256k1::rand::rngs::OsRng;
use secp256k1::{Message, PublicKey, Secp256k1, SecretKey};
use vstd::prelude::*;
use vstd::utf8::*;

use crate::digest::{sha256, sha256_digest};
use crate::encoding::{
    hex_ascii, hex_decode, hex_decode_text, hex_encode, law_hex_round_trip,
    lemma_ascii_decodes, lower_hex,
};

verus! {

/// The number that the big-endian bytes `bytes` spell.
pub open spec fn be_value(bytes: Seq<u8>) -> nat
    decreases bytes.len(),
{
    if bytes.len() == 0 {
        0
    } else {
        be_value(bytes.drop_last()) * 256 + bytes.last() as nat
    }
}

/// The order of the group of secp256k1.
pub open spec fn curve_order() -> nat {
    0xFFFFFFFFFFFFFFFFFFFFFFFFFFFFFFFEBAAEDCE6AF48A03BBFD25E8CD0364141nat
}

/// True when `bytes` is a secret key that `SecretKey::from_slice` accepts:
/// 32 big-endian bytes of a number in `1 .. curve_order()`.
pub open spec fn secret_key_valid(bytes: Seq<u8>) -> bool {
    &&& bytes.len() == 32
    &&& 0 < be_value(bytes) < curve_order()
}

/// True when `bytes` is a compact signature that `Signature::from_compact`
/// accepts: 64 bytes, `r` and then `s`, each big-endian and below the order.
pub open spec fn compact_signature_valid(bytes: Seq<u8>) -> bool {
    &&& bytes.len() == 64
    &&& be_value(bytes.subrange(0, 32)) < curve_order()
    &&& be_value(bytes.subrange(32, 64)) < curve_order()
}

/// The compact form of the signature that `Signature::from_der` reads from
/// `der`, or `None` where it refuses the bytes.
pub uninterp spec fn der_signature_compact(der: Seq<u8>) -> Option<Seq<u8>>;

/// The 65-byte uncompressed encoding of the point that
/// `PublicKey::from_slice` reads from `bytes` (compressed or uncompressed),
/// or `None` where it refuses the bytes.
pub uninterp spec fn parsed_public_key(bytes: Seq<u8>) -> Option<Seq<u8>>;

/// True when `key` is the uncompressed encoding of a point: the encoding
/// that `PublicKey::from_slice` reads back unchanged.
pub open spec fn public_key_canonical(key: Seq<u8>) -> bool {
    parsed_public_key(key) == Some(key)
}

/// The uncompressed encoding of the public key of the secret key `secret`.
pub uninterp spec fn public_key_uncompressed(secret: Seq<u8>) -> Seq<u8>;

/// The DER encoding of the signature that `sign_ecdsa` (RFC 6979 nonce)
/// makes for the 32-byte `digest` with the secret key `secret`.
pub uninterp spec fn ecdsa_signature_der(digest: Seq<u8>, secret: Seq<u8>) -> Seq<u8>;

/// True when `verify_ecdsa` accepts the compact signature `signature` of
/// `digest` under the encoded public key `public_key`.
pub uninterp spec fn ecdsa_verifies(digest: Seq<u8>, signature: Seq<u8>, public_key: Seq<u8>) -> bool;

/// Wraps `SecretKey::from_slice` (secp256k1 0.29): it accepts 32 bytes whose
/// big-endian value is neither zero nor at least the group order
/// (`secp256k1_ec_seckey_verify`).
#[verifier::external_body]
fn secret_key_accepted(bytes: &[u8]) -> (res: bool)
    ensures
        res == secret_key_valid(bytes@),
{
    SecretKey::from_slice(bytes).is_ok()
}

/// Wraps `Signature::from_compact` (secp256k1 0.29): it accepts 64 bytes
/// whose two halves are each below the group order
/// (`secp256k1_ecdsa_signature_parse_compact`).
#[verifier::external_body]
fn compact_signature_accepted(bytes: &[u8]) -> (res: bool)
    ensures
        res == compact_signature_valid(bytes@),
{
    Signature::from_compact(bytes).is_ok()
}

/// Wraps `Signature::from_der` (secp256k1 0.29) and hands the parsed
/// signature out in its 64-byte compact form (`serialize_compact`). What is
/// accepted is named `der_signature_compact`; the parser stores `r` and `s`
/// as scalars below the group order, so the compact form is one that
/// `Signature::from_compact` accepts.
#[verifier::external_body]
fn der_signature_to_compact(der: &[u8]) -> (res: Option<Vec<u8>>)
    ensures
        match res {
            Some(v) => der_signature_compact(der@) == Some(v@) && compact_signature_valid(v@),
            None => der_signature_compact(der@) is None,
        },
{
    match Signature::from_der(der) {
        Ok(sig) => Some(sig.serialize_compact().to_vec()),
        Err(_) => None,
    }
}

/// Wraps `PublicKey::from_slice` (secp256k1 0.29) and hands the parsed point
/// out in its 65-byte uncompressed encoding (`serialize_uncompressed`, whose
/// first byte is 4): the outcome is named `parsed_public_key`. Parsing that
/// encoding again gives the same point, so it is read back unchanged.
#[verifier::external_body]
fn public_key_to_uncompressed(bytes: &[u8]) -> (res: Option<Vec<u8>>)
    ensures
        match res {
            Some(v) => parsed_public_key(bytes@) == Some(v@) && v@.len() == 65 && v@[0] == 4
                && public_key_canonical(v@),
            None => parsed_public_key(bytes@) is None,
        },
{
    match PublicKey::from_slice(bytes) {
        Ok(pk) => Some(pk.serialize_uncompressed().to_vec()),
        Err(_) => None,
    }
}

/// Wraps `SecretKey::new` with `OsRng` (secp256k1 0.29): the key is random;
/// what holds of every outcome is that it is a valid secret key, handed out
/// as its 32 bytes (`secret_bytes`).
#[verifier::external_body]
fn random_secret_key() -> (res: Vec<u8>)
    ensures
        secret_key_valid(res@),
{
    SecretKey::new(&mut OsRng).secret_bytes().to_vec()
}

/// Wraps `PublicKey::from_secret_key` (secp256k1 0.29) on a valid secret key
/// and hands the key out in its 65-byte uncompressed encoding
/// (`serialize_uncompressed`, whose first byte is 4), which
/// `PublicKey::from_slice` reads back unchanged.
#[verifier::external_body]
fn public_key_of(secret: &[u8]) -> (res: Vec<u8>)
    requires
        secret_key_valid(secret@),
    ensures
        res@ == public_key_uncompressed(secret@),
        res@.len() == 65,
        res@[0] == 4,
        public_key_canonical(res@),
{
    let secp = Secp256k1::new();
    let sk = SecretKey::from_slice(secret).unwrap();
    PublicKey::from_secret_key(&secp, &sk).serialize_uncompressed().to_vec()
}

/// Wraps `Secp256k1::sign_ecdsa` (secp256k1 0.29) on a 32-byte digest and a
/// valid secret key and hands the signature out DER-encoded
/// (`serialize_der`: a DER sequence, first byte `0x30`, of two integers of 1
/// to 33 bytes each, so 8 to 72 bytes long). The signature is a function of the
/// digest and the key (RFC 6979 nonce), named `ecdsa_signature_der`. As the
/// crate's documentation of `verify_ecdsa` shows, `Signature::from_der`
/// reads it back and `verify_ecdsa` accepts it under the public key of the
/// same secret key.
#[verifier::external_body]
fn sign_digest_der(digest: &[u8], secret: &[u8]) -> (res: Vec<u8>)
    requires
        digest@.len() == 32,
        secret_key_valid(secret@),
    ensures
        res@ == ecdsa_signature_der(digest@, secret@),
        8 <= res@.len() <= 72,
        res@[0] == 0x30,
        der_signature_compact(res@) is Some && ecdsa_verifies(
            digest@,
            der_signature_compact(res@).unwrap(),
            public_key_uncompressed(secret@),
        ),
{
    let secp = Secp256k1::new();
    let msg = Message::from_digest_slice(digest).unwrap();
    let sk = SecretKey::from_slice(secret).unwrap();
    secp.sign_ecdsa(&msg, &sk).serialize_der().to_vec()
}

/// Wraps `Secp256k1::verify_ecdsa` (secp256k1 0.29) on a 32-byte digest, a
/// compact signature and an encoded public key that the crate accepts: the
/// outcome is named `ecdsa_verifies`. (The crate refuses signatures whose
/// `s` is in the upper half of the order; that is left to the name.)
#[verifier::external_body]
fn verify_digest(digest: &[u8], signature: &[u8], public_key: &[u8]) -> (res: bool)
    requires
        digest@.len() == 32,
        compact_signature_valid(signature@),
        parsed_public_key(public_key@) is Some,
    ensures
        res == ecdsa_verifies(digest@, signature@, public_key@),
{
    let secp = Secp256k1::verification_only();
    let msg = Message::from_digest_slice(digest).unwrap();
    let sig = Signature::from_compact(signature).unwrap();
    let pk = PublicKey::from_slice(public_key).unwrap();
    secp.verify_ecdsa(&msg, &sig, &pk).is_ok()
}

/// The signature that `ECDSA::sign_message` makes of the bytes `data` with
/// the hexadecimal secret key `secret_hex`, DER-encoded; `None` where the
/// key is no hexadecimal text of a valid secret key (there the signing
/// panics).
pub open spec fn sign_outcome(data: Seq<u8>, secret_hex: Seq<u8>) -> Option<Seq<u8>> {
    match hex_decode_text(secret_hex) {
        Some(secret) => if secret_key_valid(secret) {
            Some(ecdsa_signature_der(sha256_digest(data), secret))
        } else {
            None
        },
        None => None,
    }
}

/// The compact signature that `ECDSA::verify` reads from the decoded
/// signature bytes `signature`: compact where the hexadecimal text is 128
/// characters long, DER otherwise.
pub open spec fn parsed_signature(signature: Seq<u8>, hex_len: nat) -> Option<Seq<u8>> {
    if hex_len == 128 {
        if compact_signature_valid(signature) {
            Some(signature)
        } else {
            None
        }
    } else {
        der_signature_compact(signature)
    }
}

/// The signature, in compact form, that `ECDSA::verify` reads from the
/// hexadecimal text `signature_hex`; `None` where it does not decode or
/// parse.
pub open spec fn signature_of_text(signature_hex: Seq<u8>) -> Option<Seq<u8>> {
    match hex_decode_text(signature_hex) {
        Some(signature) => parsed_signature(signature, signature_hex.len()),
        None => None,
    }
}

/// The point, in uncompressed encoding, that `ECDSA::verify` reads from the
/// hexadecimal text `public_key_hex`; `None` where it does not decode or
/// parse.
pub open spec fn point_of_text(public_key_hex: Seq<u8>) -> Option<Seq<u8>> {
    match hex_decode_text(public_key_hex) {
        Some(public_key) => parsed_public_key(public_key),
        None => None,
    }
}

/// What `ECDSA::verify` answers for the bytes `data`, the hexadecimal public
/// key `public_key_hex` and the hexadecimal signature `signature_hex`;
/// `None` where one of the texts does not decode or parse (there the
/// verification panics).
pub open spec fn verify_outcome(data: Seq<u8>, public_key_hex: Seq<u8>, signature_hex: Seq<u8>) -> Option<bool> {
    match (signature_of_text(signature_hex), point_of_text(public_key_hex)) {
        (Some(compact), Some(point)) => Some(ecdsa_verifies(sha256_digest(data), compact, point)),
        _ => None,
    }
}

/// The answer of `ECDSA::verify` depends on the signature and the point that
/// the texts encode, not on how they encode them: DER or compact signature,
/// compressed or uncompressed key, upper- or lower-case digits.
pub proof fn law_verify_reads_signature_and_point(
    data: Seq<u8>,
    public_key_hex_1: Seq<u8>,
    public_key_hex_2: Seq<u8>,
    signature_hex_1: Seq<u8>,
    signature_hex_2: Seq<u8>,
)
    requires
        signature_of_text(signature_hex_1) == signature_of_text(signature_hex_2),
        point_of_text(public_key_hex_1) == point_of_text(public_key_hex_2),
    ensures
        verify_outcome(data, public_key_hex_1, signature_hex_1) == verify_outcome(
            data,
            public_key_hex_2,
            signature_hex_2,
        ),
{
}

/// The hexadecimal text of a DER signature that is not 64 bytes long and the
/// text of the compact form of the same signature are read as the same
/// signature.
pub proof fn law_der_and_compact_texts_agree(der: Seq<u8>, compact: Seq<u8>)
    requires
        der.len() != 64,
        der_signature_compact(der) == Some(compact),
        compact_signature_valid(compact),
    ensures
        signature_of_text(hex_ascii(der)) == Some(compact),
        signature_of_text(hex_ascii(compact)) == Some(compact),
{
    law_hex_round_trip(der);
    law_hex_round_trip(compact);
}

/// Signing with the hexadecimal text of a valid secret key signs the SHA-256
/// digest of all the bytes of the data with that key.
pub proof fn law_sign_signs_digest_of_all_bytes(data: Seq<u8>, secret: Seq<u8>)
    requires
        secret_key_valid(secret),
    ensures
        sign_outcome(data, hex_ascii(secret)) == Some(ecdsa_signature_der(sha256_digest(data), secret)),
{
    law_hex_round_trip(secret);
}

/// Verifying a compact signature, given in hexadecimal, under the hexadecimal
/// text of an uncompressed public key checks the signature against the
/// SHA-256 digest of all the bytes of the data under that key.
pub proof fn law_verify_checks_digest_of_all_bytes(data: Seq<u8>, compact: Seq<u8>, key: Seq<u8>)
    requires
        compact_signature_valid(compact),
        public_key_canonical(key),
    ensures
        verify_outcome(data, hex_ascii(key), hex_ascii(compact)) == Some(
            ecdsa_verifies(sha256_digest(data), compact, key),
        ),
{
    law_hex_round_trip(compact);
    law_hex_round_trip(key);
}

/// The same for a DER signature that is not 64 bytes long: it is checked, in
/// its compact form, against the SHA-256 digest of all the bytes of the data.
pub proof fn law_verify_der_checks_digest_of_all_bytes(
    data: Seq<u8>,
    der: Seq<u8>,
    compact: Seq<u8>,
    key: Seq<u8>,
)
    requires
        der.len() != 64,
        der_signature_compact(der) == Some(compact),
        public_key_canonical(key),
    ensures
        verify_outcome(data, hex_ascii(key), hex_ascii(der)) == Some(
            ecdsa_verifies(sha256_digest(data), compact, key),
        ),
{
    law_hex_round_trip(der);
    law_hex_round_trip(key);
}

/// ECDSA over secp256k1 with SHA-256 digests and hexadecimal texts.
pub struct ECDSA;

impl ECDSA {
    /// Makes a random key pair: the hexadecimal text of the uncompressed
    /// public key (130 digits, starting `04`), which `ECDSA::verify` reads
    /// back as that point, and that of the secret key (64 digits).
    pub fn generate_keys() -> (res: (String, String))
        ensures
            exists|secret: Seq<u8>|
                #![trigger lower_hex(secret)]
                secret_key_valid(secret) && res.1@ == lower_hex(secret) && res.0@ == lower_hex(
                    public_key_uncompressed(secret),
                ) && public_key_canonical(public_key_uncompressed(secret))
                    && public_key_uncompressed(secret).len() == 65
                    && public_key_uncompressed(secret)[0] == 4,
            res.0@.len() == 130,
            res.0@[0] == '0' && res.0@[1] == '4',
            res.1@.len() == 64,
    {
        let secret = random_secret_key();
        let public_key = public_key_of(secret.as_slice());
        let public_hex = hex_encode(public_key.as_slice());
        let secret_hex = hex_encode(secret.as_slice());
        assert(secret_key_valid(secret@) && secret_hex@ == lower_hex(secret@));
        assert(public_hex@[0] == '0' && public_hex@[1] == '4');
        (public_hex, secret_hex)
    }

    /// Signs `data` with the secret key given in hexadecimal: SHA-256 of the
    /// UTF-8 bytes of `data`, signed, DER-encoded, written in lower-case
    /// hexadecimal: a DER sequence of 8 to 72 bytes, so 16 to 144 digits
    /// starting `30`. A signature whose DER form is not 64 bytes long is
    /// accepted by `ECDSA::verify` under the public key of the same secret
    /// key, as `ECDSA::generate_keys` writes it.
    pub fn sign_message(data: &String, secret_key_hex: &String) -> (res: String)
        requires
            sign_outcome(encode_utf8(data@), encode_utf8(secret_key_hex@)) is Some,
        ensures
            ({
                let der = sign_outcome(encode_utf8(data@), encode_utf8(secret_key_hex@)).unwrap();
                let secret = hex_decode_text(encode_utf8(secret_key_hex@)).unwrap();
                &&& der == ecdsa_signature_der(sha256_digest(encode_utf8(data@)), secret)
                &&& res@ == lower_hex(der)
                &&& encode_utf8(res@) == hex_ascii(der)
                &&& 8 <= der.len() <= 72 && der[0] == 0x30
                &&& 16 <= res@.len() <= 144 && res@[0] == '3' && res@[1] == '0'
                &&& der.len() != 64 && public_key_canonical(public_key_uncompressed(secret))
                    ==> verify_outcome(
                    encode_utf8(data@),
                    hex_ascii(public_key_uncompressed(secret)),
                    encode_utf8(res@),
                ) == Some(true)
            }),
    {
        let secret = hex_decode(secret_key_hex.as_str());
        let secret = match secret {
            Some(s) => s,
            None => {
                // The precondition makes the key decode.
                return String::new();
            },
        };
        let digest = sha256(data.as_str().as_bytes());
        let der = sign_digest_der(digest.as_slice(), secret.as_slice());
        let res = hex_encode(der.as_slice());
        proof {
            lemma_hex_text_bytes(der@);
            law_hex_round_trip(der@);
            law_hex_round_trip(public_key_uncompressed(secret@));
        }
        res
    }

    /// Checks that the secret key is the hexadecimal text of a valid secret
    /// key, and signs `data` with it where it is; `None` where
    /// `ECDSA::sign_message` cannot be called (there the signing panics).
    pub fn try_sign_message(data: &String, secret_key_hex: &String) -> (res: Option<String>)
        ensures
            match res {
                Some(s) => sign_outcome(encode_utf8(data@), encode_utf8(secret_key_hex@)) matches Some(der)
                    && s@ == lower_hex(der),
                None => sign_outcome(encode_utf8(data@), encode_utf8(secret_key_hex@)) is None,
            },
    {
        let secret = match hex_decode(secret_key_hex.as_str()) {
            Some(s) => s,
            None => {
                return None;
            },
        };
        if !secret_key_accepted(secret.as_slice()) {
            return None;
        }
        Some(Self::sign_message(data, secret_key_hex))
    }

    /// Verifies the hexadecimal signature `signature_hex` of `data` under the
    /// hexadecimal public key `public_key_hex`: SHA-256 of the UTF-8 bytes of
    /// `data`; a signature of 128 hexadecimal digits (64 bytes once decoded)
    /// is read in compact form, any other in DER. The texts must decode and
    /// parse.
    pub fn verify(data: &String, public_key_hex: &String, signature_hex: &String) -> (res: bool)
        requires
            verify_outcome(encode_utf8(data@), encode_utf8(public_key_hex@), encode_utf8(signature_hex@)) is Some,
        ensures
            Some(res) == verify_outcome(encode_utf8(data@), encode_utf8(public_key_hex@), encode_utf8(signature_hex@)),
    {
        // Under the precondition none of the early returns is taken.
        let digest = sha256(data.as_str().as_bytes());
        let signature = match hex_decode(signature_hex.as_str()) {
            Some(s) => s,
            None => {
                return false;
            },
        };
        let compact = if signature.len() == 64 {
            if !compact_signature_accepted(signature.as_slice()) {
                return false;
            }
            signature
        } else {
            match der_signature_to_compact(signature.as_slice()) {
                Some(c) => c,
                None => {
                    return false;
                },
            }
        };
        let public_key = match hex_decode(public_key_hex.as_str()) {
            Some(p) => p,
            None => {
                return false;
            },
        };
        let point = match public_key_to_uncompressed(public_key.as_slice()) {
            Some(k) => k,
            None => {
                return false;
            },
        };
        verify_digest(digest.as_slice(), compact.as_slice(), point.as_slice())
    }

    /// Checks that the texts decode and parse, and verifies the signature
    /// where they do; `None` where `ECDSA::verify` cannot be called (there
    /// the verification panics).
    pub fn try_verify(data: &String, public_key_hex: &String, signature_hex: &String) -> (res: Option<bool>)
        ensures
            res == verify_outcome(encode_utf8(data@), encode_utf8(public_key_hex@), encode_utf8(signature_hex@)),
    {
        let signature = match hex_decode(signature_hex.as_str()) {
            Some(s) => s,
            None => {
                return None;
            },
        };
        if signature.len() == 64 {
            if !compact_signature_accepted(signature.as_slice()) {
                return None;
            }
        } else {
            if der_signature_to_compact(signature.as_slice()).is_none() {
                return None;
            }
        }
        let public_key = match hex_decode(public_key_hex.as_str()) {
            Some(p) => p,
            None => {
                return None;
            },
        };
        if public_key_to_uncompressed(public_key.as_slice()).is_none() {
            return None;
        }
        Some(Self::verify(data, public_key_hex, signature_hex))
    }
}

/// The UTF-8 bytes of the hexadecimal text of `bytes` are its ASCII codes.
pub proof fn lemma_hex_text_bytes(bytes: Seq<u8>)
    ensures
        encode_utf8(lower_hex(bytes)) == hex_ascii(bytes),
{
    let codes = hex_ascii(bytes);
    assert forall|i: int| 0 <= i < codes.len() implies codes[i] < 128 by {
        let b = bytes[i / 2];
        assert(b / 16 < 16 && b % 16 < 16);
    }
    lemma_ascii_decodes(codes);
    vstd::utf8::decode_utf8_encode_utf8(codes);
}

} // verus!
