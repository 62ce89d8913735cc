//! The server's decision on a submitted transaction.
use vstd::prelude::*;
use vstd::utf8::encode_utf8;

use crate::cryptography::ecdsa::{verify_outcome, ECDSA};

verus! {

/// What the server answers a submitted transaction.
#[derive(Debug, PartialEq, Eq, Structural)]
pub enum Admission {
    /// No signature was sent along.
    MissingSignature,
    /// The signature verifies: the transaction is queued.
    Accepted,
    /// The signature does not verify.
    Rejected,
}

impl Admission {
    /// The text of the answer.
    pub fn reply(&self) -> (res: String)
        ensures
            res@ == match self {
                Admission::MissingSignature => "Signature must be empty"@,
                Admission::Accepted => "OK"@,
                Admission::Rejected => "Signature error."@,
            },
    {
        match self {
            Admission::MissingSignature => String::from_str("Signature must be empty"),
            Admission::Accepted => String::from_str("OK"),
            Admission::Rejected => String::from_str("Signature error."),
        }
    }
}

/// Decides on a submitted transaction: without a signature it is refused;
/// otherwise it is accepted exactly when `signature` verifies as a signature
/// of `signed_text` under the sender's public key `sender`. `None` where the
/// signature or the key does not decode or parse (there the check panics).
pub fn admit_transaction(signature: Option<String>, signed_text: &String, sender: &String) -> (res: Option<Admission>)
    ensures
        match signature {
            None => res == Some(Admission::MissingSignature),
            Some(sig) => match verify_outcome(encode_utf8(signed_text@), encode_utf8(sender@), encode_utf8(sig@)) {
                Some(true) => res == Some(Admission::Accepted),
                Some(false) => res == Some(Admission::Rejected),
                None => res is None,
            },
        },
{
    match signature {
        None => Some(Admission::MissingSignature),
        Some(sig) => match ECDSA::try_verify(signed_text, sender, &sig) {
            Some(true) => Some(Admission::Accepted),
            Some(false) => Some(Admission::Rejected),
            None => None,
        },
    }
}

} // verus!
