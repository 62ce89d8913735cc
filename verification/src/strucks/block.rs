//! A block of transactions, linked to its predecessor by that block's hash.
use vstd::prelude::*;
use vstd::string::StringSliceAdditionalSpecFns;

use crate::clock;
use crate::digest::{hash_text, sha256_hex_encoded};
use crate::strucks::transaction::{
    clone_opt_string, duplicate_all, opt_text, text_or_empty, transaction_views, Transaction, TransactionView,
};

verus! {

/// What a block holds.
pub struct BlockView {
    pub index: u64,
    pub timestamp: Option<u64>,
    pub previous_hash: Seq<char>,
    pub hash: Option<Seq<char>>,
    pub validator: Option<Seq<char>>,
    pub transactions: Seq<TransactionView>,
}

/// A block: its height `index`, the hash of the block before it, the
/// transactions that it records and, once calculated, its own hash.
#[derive(Debug)]
pub struct Block {
    index: u64,
    timestamp: Option<u64>,
    previous_hash: String,
    hash: Option<String>,
    validator: Option<String>,
    transactions: Vec<Transaction>,
}

impl View for Block {
    type V = BlockView;

    closed spec fn view(&self) -> BlockView {
        BlockView {
            index: self.index,
            timestamp: self.timestamp,
            previous_hash: self.previous_hash@,
            hash: opt_text(self.hash),
            validator: opt_text(self.validator),
            transactions: transaction_views(self.transactions@),
        }
    }
}

/// The text that `serde_json::to_string_pretty` writes for the JSON object
/// with the number `number_1` under the key `key_1`, the number `number_2`
/// under `key_2`, the string `text_3` under `key_3`, the string `text_4`
/// under `key_4` and the number `number_5` under `key_5`.
pub uninterp spec fn json_object_text(
    key_1: Seq<char>,
    number_1: u64,
    key_2: Seq<char>,
    number_2: u64,
    key_3: Seq<char>,
    text_3: Seq<char>,
    key_4: Seq<char>,
    text_4: Seq<char>,
    key_5: Seq<char>,
    number_5: usize,
) -> Seq<char>;

/// Wraps `serde_json::to_string_pretty` (serde_json 1) on the JSON object
/// made of the given keys and values (`serde_json::Map::insert` of each
/// pair in turn): the text is a function of the keys and values, named
/// `json_object_text`. An object of strings and numbers always serializes.
#[verifier::external_body]
fn pretty_json_object(
    key_1: &str,
    number_1: u64,
    key_2: &str,
    number_2: u64,
    key_3: &str,
    text_3: &str,
    key_4: &str,
    text_4: &str,
    key_5: &str,
    number_5: usize,
) -> (res: String)
    ensures
        res@ == json_object_text(
            key_1@,
            number_1,
            key_2@,
            number_2,
            key_3@,
            text_3@,
            key_4@,
            text_4@,
            key_5@,
            number_5,
        ),
{
    let mut map = serde_json::Map::new();
    map.insert(key_1.to_string(), serde_json::Value::from(number_1));
    map.insert(key_2.to_string(), serde_json::Value::from(number_2));
    map.insert(key_3.to_string(), serde_json::Value::from(text_3));
    map.insert(key_4.to_string(), serde_json::Value::from(text_4));
    map.insert(key_5.to_string(), serde_json::Value::from(number_5));
    serde_json::to_string_pretty(&serde_json::Value::Object(map)).unwrap()
}

impl Block {
    /// A block of height `index_block` after the block with hash
    /// `previous_hash_block`, recording `transactions`; it has no timestamp,
    /// hash or validator yet.
    pub fn new(index_block: u64, previous_hash_block: String, transactions: Vec<Transaction>) -> (res: Block)
        ensures
            res@ == (BlockView {
                index: index_block,
                timestamp: None,
                previous_hash: previous_hash_block@,
                hash: None,
                validator: None,
                transactions: transaction_views(transactions@),
            }),
    {
        Block {
            index: index_block,
            timestamp: None,
            previous_hash: previous_hash_block,
            hash: None,
            validator: None,
            transactions: transactions,
        }
    }

    /// A block with every field given.
    pub fn from_parts(
        index: u64,
        timestamp: Option<u64>,
        previous_hash: String,
        hash: Option<String>,
        validator: Option<String>,
        transactions: Vec<Transaction>,
    ) -> (res: Block)
        ensures
            res@ == (BlockView {
                index,
                timestamp,
                previous_hash: previous_hash@,
                hash: opt_text(hash),
                validator: opt_text(validator),
                transactions: transaction_views(transactions@),
            }),
    {
        Block { index, timestamp, previous_hash, hash, validator, transactions }
    }

    /// The height of the block.
    pub fn get_index(&self) -> (res: u64)
        ensures
            res == self@.index,
    {
        self.index
    }

    /// The hash, or the empty string before one is calculated.
    pub fn get_hash(&self) -> (res: String)
        ensures
            res@ == text_or_empty(self@.hash),
    {
        match &self.hash {
            Some(h) => h.clone(),
            None => String::new(),
        }
    }

    /// Does nothing.
    pub fn build_block(&self) {
    }

    /// Sets the hash of the block to the SHA-256 digest of the UTF-8 bytes of
    /// `hash_data`, written in lower-case hexadecimal (`hex::encode`).
    /// `hash_data` is the JSON text of the block (`build_json_hash`).
    pub fn calculate_hash(&mut self, hash_data: &str)
        ensures
            final(self)@ == (BlockView { hash: Some(hash_text(hash_data.spec_bytes())), ..old(self)@ }),
            final(self)@.hash.unwrap().len() == 64,
    {
        let hash = sha256_hex_encoded(hash_data);
        self.hash = Some(hash);
    }

    /// The current time in milliseconds since the Unix epoch (see
    /// `clock::current_time_millis`).
    pub fn current_time_millis() -> (res: Option<u64>)
        ensures
            clock::is_clock_reading(res),
    {
        clock::current_time_millis()
    }

    /// Stamps the block with the current time: the timestamp is what
    /// `current_time_millis` returned, a reading of the clock in milliseconds
    /// since the Unix epoch; where the clock reads no such time that fits, no
    /// time is recorded. Nothing else changes.
    pub fn set_timestamp(&mut self)
        ensures
            final(self)@ == (BlockView { timestamp: final(self)@.timestamp, ..old(self)@ }),
            call_ensures(Block::current_time_millis, (), final(self)@.timestamp),
            clock::is_clock_reading(final(self)@.timestamp),
    {
        let now = Self::current_time_millis();
        self.set_timestamp_to(now);
    }

    /// Records `timestamp` (milliseconds since the Unix epoch, or none) as
    /// the time of the block; nothing else changes.
    pub fn set_timestamp_to(&mut self, timestamp: Option<u64>)
        ensures
            final(self)@ == (BlockView { timestamp: timestamp, ..old(self)@ }),
    {
        self.timestamp = timestamp;
    }

    /// The summary of the block printed when it is created or loaded: the
    /// pretty JSON object of its index, timestamp (0 where there is none),
    /// previous hash, hash (empty where there is none) and number of
    /// transactions.
    pub fn build_json_print(&self) -> (res: String)
        ensures
            res@ == json_object_text(
                "index"@,
                self@.index,
                "timestamp"@,
                match self@.timestamp {
                    Some(t) => t,
                    None => 0,
                },
                "previous_hash"@,
                self@.previous_hash,
                "hash"@,
                text_or_empty(self@.hash),
                "transactions"@,
                self@.transactions.len() as usize,
            ),
    {
        let timestamp = match self.timestamp {
            Some(t) => t,
            None => 0,
        };
        let hash = self.get_hash();
        pretty_json_object(
            "index",
            self.index,
            "timestamp",
            timestamp,
            "previous_hash",
            self.previous_hash.as_str(),
            "hash",
            hash.as_str(),
            "transactions",
            self.transactions.len(),
        )
    }

    /// A copy of the transactions of the block.
    pub fn get_transactions(&self) -> (res: Vec<Transaction>)
        ensures
            transaction_views(res@) == self@.transactions,
    {
        duplicate_all(&self.transactions)
    }

    /// The timestamp, if one was recorded.
    pub fn get_timestamp(&self) -> (res: Option<u64>)
        ensures
            res == self@.timestamp,
    {
        self.timestamp
    }

    /// The hash of the block before this one.
    pub fn get_previous_hash(&self) -> (res: String)
        ensures
            res@ == self@.previous_hash,
    {
        self.previous_hash.clone()
    }

    /// The validator, if one is named.
    pub fn get_validator(&self) -> (res: Option<String>)
        ensures
            opt_text(res) == self@.validator,
    {
        clone_opt_string(&self.validator)
    }

    /// The hash, if one was calculated.
    pub fn hash_value(&self) -> (res: Option<String>)
        ensures
            opt_text(res) == self@.hash,
    {
        clone_opt_string(&self.hash)
    }
}

} // verus!
