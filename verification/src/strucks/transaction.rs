//! A transfer between two accounts, with the hash and the timestamp that the
//! node gives it.
use vstd::prelude::*;
use vstd::string::StringSliceAdditionalSpecFns;

use crate::clock;
use crate::digest::{hash_text, sha256_hex_by_bytes};

verus! {

/// The view of an optional string.
pub open spec fn opt_text(s: Option<String>) -> Option<Seq<char>> {
    match s {
        Some(t) => Some(t@),
        None => None,
    }
}

/// The text of an optional string, empty where there is none
/// (`unwrap_or_default`).
pub open spec fn text_or_empty(s: Option<Seq<char>>) -> Seq<char> {
    match s {
        Some(t) => t,
        None => Seq::empty(),
    }
}

/// What a transaction holds. Amounts are kept as the IEEE-754 bit patterns
/// of the 64-bit floating-point numbers that the accounts use.
pub struct TransactionView {
    pub sender: Seq<char>,
    pub recipient: Seq<char>,
    pub amount_bits: u64,
    pub timestamp: Option<u64>,
    pub fee_bits: Option<u64>,
    pub hash: Option<Seq<char>>,
}

/// A transfer of `amount` from `sender` to `recipient`. The amount and the
/// fee are floating-point numbers, held here by their bit patterns
/// (`f64::to_bits`).
#[derive(Debug)]
pub struct Transaction {
    pub sender: String,
    pub recipient: String,
    pub amount_bits: u64,
    pub timestamp: Option<u64>,
    pub fee_bits: Option<u64>,
    pub hash: Option<String>,
}

impl View for Transaction {
    type V = TransactionView;

    open spec fn view(&self) -> TransactionView {
        TransactionView {
            sender: self.sender@,
            recipient: self.recipient@,
            amount_bits: self.amount_bits,
            timestamp: self.timestamp,
            fee_bits: self.fee_bits,
            hash: opt_text(self.hash),
        }
    }
}

pub(crate) fn clone_opt_string(s: &Option<String>) -> (res: Option<String>)
    ensures
        opt_text(res) == opt_text(*s),
{
    match s {
        Some(t) => Some(t.clone()),
        None => None,
    }
}

impl Transaction {
    /// A transaction with every field given.
    pub fn from_parts(
        sender: String,
        recipient: String,
        amount_bits: u64,
        timestamp: Option<u64>,
        fee_bits: Option<u64>,
        hash: Option<String>,
    ) -> (res: Transaction)
        ensures
            res@ == (TransactionView {
                sender: sender@,
                recipient: recipient@,
                amount_bits,
                timestamp,
                fee_bits,
                hash: opt_text(hash),
            }),
    {
        Transaction { sender, recipient, amount_bits, timestamp, fee_bits, hash }
    }

    /// A copy of the transaction.
    pub fn duplicate(&self) -> (res: Transaction)
        ensures
            res@ == self@,
    {
        Transaction {
            sender: self.sender.clone(),
            recipient: self.recipient.clone(),
            amount_bits: self.amount_bits,
            timestamp: self.timestamp,
            fee_bits: self.fee_bits,
            hash: clone_opt_string(&self.hash),
        }
    }

    /// Sets the hash of the transaction to the SHA-256 digest of the UTF-8
    /// bytes of `hash_data`, each byte written as two lower-case hexadecimal
    /// digits. `hash_data` is the JSON text of the transaction without its
    /// hash (`build_json_hash`).
    pub fn calculate_hash(&mut self, hash_data: &str)
        ensures
            final(self)@ == (TransactionView { hash: Some(hash_text(hash_data.spec_bytes())), ..old(self)@ }),
            final(self)@.hash.unwrap().len() == 64,
    {
        let hash = sha256_hex_by_bytes(hash_data);
        self.hash = Some(hash);
    }

    /// The current time in milliseconds since the Unix epoch (see
    /// `clock::current_time_millis`).
    pub fn current_time_millis() -> (res: Option<u64>)
        ensures
            clock::is_clock_reading(res),
    {
        clock::current_time_millis()
    }

    /// The UTC and local texts of the time `unix_millis` (see
    /// `clock::format_unix_millis`).
    pub fn format_unix_millis(unix_millis: u64) -> (res: String)
        requires
            unix_millis < clock::MAX_FORMATTED_MILLIS,
        ensures
            exists|local: Seq<char>|
                res@ == "UTC: "@ + clock::utc_time_text(unix_millis) + ", Local: "@ + local
                    && clock::ends_with(local, clock::local_text_end(unix_millis)),
            clock::ends_with(clock::utc_time_text(unix_millis), clock::utc_text_end(unix_millis)),
            clock::ends_with(res@, clock::local_text_end(unix_millis)),
            exists|local: Seq<char>|
                res@ == "UTC: "@ + clock::utc_time_text(unix_millis) + ", Local: "@ + local
                    && clock::is_local_text(unix_millis, local),
    {
        clock::format_unix_millis(unix_millis)
    }

    /// Stamps the transaction with the current time: the timestamp is what
    /// `current_time_millis` returned, a reading of the clock in milliseconds
    /// since the Unix epoch; where the clock reads no such time that fits, no
    /// time is recorded. Nothing else changes.
    pub fn set_timestamp(&mut self)
        ensures
            final(self)@ == (TransactionView { timestamp: final(self)@.timestamp, ..old(self)@ }),
            call_ensures(Transaction::current_time_millis, (), final(self)@.timestamp),
            clock::is_clock_reading(final(self)@.timestamp),
    {
        let now = Self::current_time_millis();
        self.set_timestamp_to(now);
    }

    /// Records `timestamp` (milliseconds since the Unix epoch, or none) as
    /// the time of the transaction; nothing else changes.
    pub fn set_timestamp_to(&mut self, timestamp: Option<u64>)
        ensures
            final(self)@ == (TransactionView { timestamp: timestamp, ..old(self)@ }),
    {
        self.timestamp = timestamp;
    }

    /// Sets the fee (the bit pattern of a floating-point number).
    pub fn set_fee(&mut self, fee_bits: u64)
        ensures
            final(self)@ == (TransactionView { fee_bits: Some(fee_bits), ..old(self)@ }),
    {
        self.fee_bits = Some(fee_bits);
    }

    /// The hash, or the empty string before one is calculated.
    pub fn get_hash(&self) -> (res: String)
        ensures
            res@ == text_or_empty(self@.hash),
    {
        match &self.hash {
            Some(h) => h.clone(),
            None => String::new(),
        }
    }

    /// The sender.
    pub fn get_sender(&self) -> (res: String)
        ensures
            res@ == self@.sender,
    {
        self.sender.clone()
    }

    /// The recipient.
    pub fn get_recipient(&self) -> (res: String)
        ensures
            res@ == self@.recipient,
    {
        self.recipient.clone()
    }

    /// The amount (bit pattern).
    pub fn get_amount(&self) -> (res: u64)
        ensures
            res == self@.amount_bits,
    {
        self.amount_bits
    }

    /// The timestamp, if one was recorded.
    pub fn get_timestamp(&self) -> (res: Option<u64>)
        ensures
            res == self@.timestamp,
    {
        self.timestamp
    }

    /// The fee (bit pattern), if one was set.
    pub fn get_fee(&self) -> (res: Option<u64>)
        ensures
            res == self@.fee_bits,
    {
        self.fee_bits
    }

    /// The hash, if one was calculated.
    pub fn hash_value(&self) -> (res: Option<String>)
        ensures
            opt_text(res) == self@.hash,
    {
        clone_opt_string(&self.hash)
    }
}

/// The views of a list of transactions.
pub open spec fn transaction_views(list: Seq<Transaction>) -> Seq<TransactionView> {
    list.map_values(|t: Transaction| t@)
}

/// A copy of a list of transactions.
pub fn duplicate_all(list: &Vec<Transaction>) -> (res: Vec<Transaction>)
    ensures
        transaction_views(res@) == transaction_views(list@),
{
    let mut res: Vec<Transaction> = Vec::new();
    let n = list.len();
    for i in 0..n
        invariant
            n == list@.len(),
            res@.len() == i,
            forall|j: int| 0 <= j < i ==> (#[trigger] res@[j])@ == list@[j]@,
    {
        res.push(list[i].duplicate());
    }
    assert(transaction_views(res@) =~= transaction_views(list@));
    res
}

} // verus!
