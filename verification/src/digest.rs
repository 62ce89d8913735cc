//! SHA-256 digests and the lower-case hexadecimal texts of them that serve
//! as transaction and block hashes.
use sha2::Digest;
use vstd::prelude::*;
use vstd::string::StringSliceAdditionalSpecFns;

use crate::cryptography::ecdsa::lemma_hex_text_bytes;
use crate::encoding::{hex_ascii, hex_decode_text, hex_encode, law_hex_round_trip, lower_hex, to_lower_hex};
use vstd::utf8::encode_utf8;

verus! {

/// The SHA-256 digest of `data`, as `sha2::Sha256` computes it.
pub uninterp spec fn sha256_digest(data: Seq<u8>) -> Seq<u8>;

/// Wraps `<sha2::Sha256 as Digest>::digest` (sha2 0.10): the digest is a
/// function of the input alone, named `sha256_digest`, and is 32 bytes long.
#[verifier::external_body]
pub(crate) fn sha256(data: &[u8]) -> (res: Vec<u8>)
    ensures
        res@ == sha256_digest(data@),
        res@.len() == 32,
{
    sha2::Sha256::digest(data).to_vec()
}

/// The hash text of `data`: the lower-case hexadecimal text of the SHA-256
/// digest of its UTF-8 bytes.
pub open spec fn hash_text(data: Seq<u8>) -> Seq<char> {
    lower_hex(sha256_digest(data))
}

/// The hash text of `data` is the hexadecimal text of the SHA-256 digest of
/// all of its bytes: its UTF-8 bytes are two digits per digest byte, and it
/// decodes back to that digest.
pub proof fn law_hash_text_is_digest_of_all_bytes(data: Seq<u8>)
    ensures
        encode_utf8(hash_text(data)) == hex_ascii(sha256_digest(data)),
        hex_decode_text(encode_utf8(hash_text(data))) == Some(sha256_digest(data)),
        hash_text(data).len() == 2 * sha256_digest(data).len(),
{
    lemma_hex_text_bytes(sha256_digest(data));
    law_hex_round_trip(sha256_digest(data));
}

/// Two texts get the same hash text exactly when the SHA-256 digests of all
/// of their bytes are the same.
pub proof fn law_same_hash_text_same_digest(a: Seq<u8>, b: Seq<u8>)
    ensures
        (hash_text(a) == hash_text(b)) == (sha256_digest(a) == sha256_digest(b)),
{
    law_hash_text_is_digest_of_all_bytes(a);
    law_hash_text_is_digest_of_all_bytes(b);
}

/// Hashes the UTF-8 bytes of `data` and writes the digest byte by byte as
/// two lower-case hexadecimal digits, as a transaction hash is written.
pub fn sha256_hex_by_bytes(data: &str) -> (res: String)
    ensures
        res@ == hash_text(data.spec_bytes()),
        res@.len() == 64,
        hex_decode_text(encode_utf8(res@)) == Some(sha256_digest(data.spec_bytes())),
{
    let digest = sha256(data.as_bytes());
    proof {
        law_hash_text_is_digest_of_all_bytes(data.spec_bytes());
    }
    to_lower_hex(digest.as_slice())
}

/// Hashes the UTF-8 bytes of `data` and encodes the digest with
/// `hex::encode`, as a block hash is written.
pub fn sha256_hex_encoded(data: &str) -> (res: String)
    ensures
        res@ == hash_text(data.spec_bytes()),
        res@.len() == 64,
        hex_decode_text(encode_utf8(res@)) == Some(sha256_digest(data.spec_bytes())),
{
    let digest = sha256(data.as_bytes());
    proof {
        law_hash_text_is_digest_of_all_bytes(data.spec_bytes());
    }
    hex_encode(digest.as_slice())
}

} // verus!
