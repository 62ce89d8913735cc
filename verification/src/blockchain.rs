//! The chain state of the node: the height and hash of the last block and
//! the transactions waiting for the next one, and how a block is made of
//! them.
use vstd::prelude::*;
use vstd::string::StringSliceAdditionalSpecFns;

use crate::encoding::{decimal_digits, parse_block_key, parse_u64_text};
use crate::strucks::block::{Block, BlockView};
use crate::digest::hash_text;
use crate::strucks::transaction::{
    duplicate_all, text_or_empty, transaction_views, Transaction, TransactionView,
};

verus! {

/// What the chain state holds.
pub struct ChainView {
    pub index_last_block: u64,
    pub previous_hash_block: Option<Seq<char>>,
    pub transactions: Seq<TransactionView>,
}

/// The chain state: the height of the last block, its hash (none before a
/// block is known) and the transactions that the next block will record.
pub struct Blockchain {
    pub index_last_block: u64,
    pub previous_hash_block: Option<String>,
    pub transactions: Vec<Transaction>,
}

impl View for Blockchain {
    type V = ChainView;

    open spec fn view(&self) -> ChainView {
        ChainView {
            index_last_block: self.index_last_block,
            previous_hash_block: match self.previous_hash_block {
                Some(h) => Some(h@),
                None => None,
            },
            transactions: transaction_views(self.transactions@),
        }
    }
}

/// True when a block can be made in the state `c`: the hash of the last
/// block is known and the height can grow.
pub open spec fn can_create_block(c: ChainView) -> bool {
    c.index_last_block < u64::MAX && c.previous_hash_block is Some
}

/// The block made in the state `c`: one higher than the last block, linked
/// to its hash, recording the pending transactions, not yet stamped or
/// hashed.
pub open spec fn next_block_view(c: ChainView) -> BlockView {
    BlockView {
        index: (c.index_last_block + 1) as u64,
        timestamp: None,
        previous_hash: c.previous_hash_block.unwrap(),
        hash: None,
        validator: None,
        transactions: c.transactions,
    }
}

/// The block made in the state `c`, stamped with `timestamp` and given the
/// hash `hash`.
pub open spec fn created_block(c: ChainView, timestamp: Option<u64>, hash: Seq<char>) -> BlockView {
    BlockView { timestamp: timestamp, hash: Some(hash), ..next_block_view(c) }
}

/// The state once a block with the hash `hash` is made: the height has grown
/// by one, its hash is the last hash, and no transaction is pending.
pub open spec fn after_create_block(c: ChainView, hash: Seq<char>) -> ChainView {
    ChainView {
        index_last_block: (c.index_last_block + 1) as u64,
        previous_hash_block: Some(hash),
        transactions: Seq::empty(),
    }
}

/// The state once the stored block `b` is loaded as the last block.
pub open spec fn after_restore(c: ChainView, b: BlockView) -> ChainView {
    ChainView {
        index_last_block: b.index,
        previous_hash_block: Some(text_or_empty(b.hash)),
        ..c
    }
}

/// The height of the last stored block, read from the stored keys: the
/// greatest key, or 0 where there is none.
pub open spec fn is_last_key(keys: Seq<Seq<u8>>, res: u64) -> bool {
    &&& forall|i: int| 0 <= i < keys.len() ==> (#[trigger] parse_u64_text(keys[i])).unwrap() <= res
    &&& res == 0 || exists|i: int| 0 <= i < keys.len() && #[trigger] parse_u64_text(keys[i]) == Some(res)
}

impl Blockchain {
    /// An empty chain state: height 0, no last hash, nothing pending.
    pub fn new() -> (res: Blockchain)
        ensures
            res@ == (ChainView {
                index_last_block: 0,
                previous_hash_block: None,
                transactions: Seq::empty(),
            }),
    {
        let res = Blockchain { index_last_block: 0, previous_hash_block: None, transactions: Vec::new() };
        assert(res@.transactions =~= Seq::empty());
        res
    }

    /// The block that `create_block` makes next, before it is stamped and
    /// hashed: one higher than the last block, after the last hash,
    /// recording a copy of the pending transactions. The state is unchanged;
    /// the JSON text whose digest becomes the block's hash is built from it.
    pub fn next_block(&self) -> (res: Block)
        requires
            can_create_block(self@),
        ensures
            res@ == next_block_view(self@),
    {
        let previous_hash = match &self.previous_hash_block {
            Some(h) => h.clone(),
            None => String::new(),
        };
        Block::new(self.index_last_block + 1, previous_hash, duplicate_all(&self.transactions))
    }

    /// Makes the next block: raises the height by one; the block of that
    /// height after the last hash records the pending transactions, is
    /// stamped with `timestamp` and hashed (SHA-256 of the UTF-8 bytes of
    /// `hash_data`, in lower-case hexadecimal; `hash_data` is the JSON text of
    /// the stamped `next_block`). Its hash becomes the last hash and the
    /// pending transactions are dropped. The block is handed out to be
    /// stored, and the balances updated, by the caller.
    pub fn create_block(&mut self, timestamp: Option<u64>, hash_data: &str) -> (res: Block)
        requires
            can_create_block(old(self)@),
        ensures
            res@ == created_block(old(self)@, timestamp, hash_text(hash_data.spec_bytes())),
            final(self)@ == after_create_block(old(self)@, hash_text(hash_data.spec_bytes())),
            hash_text(hash_data.spec_bytes()).len() == 64,
    {
        let mut block = self.next_block();
        block.set_timestamp_to(timestamp);
        block.calculate_hash(hash_data);
        self.index_last_block = self.index_last_block + 1;
        self.transactions.clear();
        self.previous_hash_block = Some(block.get_hash());
        assert(transaction_views(self.transactions@) =~= Seq::empty());
        block
    }

    /// Takes a stored block as the last one, as loading does: its height and
    /// its hash (empty where it has none).
    pub fn restore_last_block(&mut self, block: &Block)
        ensures
            final(self)@ == after_restore(old(self)@, block@),
    {
        self.index_last_block = block.get_index();
        self.previous_hash_block = Some(block.get_hash());
    }

    /// The height of the last stored block, from the keys of the block
    /// store: each key read as a number, the greatest, 0 where there is no
    /// key. Every key must read as a number (elsewhere the scan panics).
    pub fn last_block_key(keys: &Vec<Vec<u8>>) -> (res: u64)
        requires
            forall|i: int| 0 <= i < keys@.len() ==> (#[trigger] parse_u64_text(keys@[i]@)) is Some,
        ensures
            is_last_key(keys@.map_values(|k: Vec<u8>| k@), res),
    {
        let ghost views = keys@.map_values(|k: Vec<u8>| k@);
        let mut max_key: u64 = 0;
        let n = keys.len();
        for i in 0..n
            invariant
                n == keys@.len(),
                views == keys@.map_values(|k: Vec<u8>| k@),
                forall|j: int| 0 <= j < keys@.len() ==> (#[trigger] parse_u64_text(keys@[j]@)) is Some,
                forall|j: int| 0 <= j < i ==> (#[trigger] parse_u64_text(views[j])).unwrap() <= max_key,
                max_key == 0 || exists|j: int| 0 <= j < i && #[trigger] parse_u64_text(views[j]) == Some(max_key),
        {
            let k = parse_block_key(keys[i].as_slice());
            assert(views[i as int] == keys@[i as int]@);
            match k {
                Some(v) => {
                    if max_key < v {
                        max_key = v;
                    }
                },
                None => {},
            }
        }
        max_key
    }
}

/// Blocks made one after another are linked: the second is one higher than
/// the first, links to the first one's hash, and records only what was
/// received after the first was made.
pub proof fn law_blocks_link(
    c: ChainView,
    timestamp_1: Option<u64>,
    hash_1: Seq<char>,
    timestamp_2: Option<u64>,
    hash_2: Seq<char>,
)
    requires
        can_create_block(c),
        c.index_last_block + 1 < u64::MAX,
    ensures
        can_create_block(after_create_block(c, hash_1)),
        created_block(after_create_block(c, hash_1), timestamp_2, hash_2).previous_hash
            == created_block(c, timestamp_1, hash_1).hash.unwrap(),
        created_block(after_create_block(c, hash_1), timestamp_2, hash_2).index
            == created_block(c, timestamp_1, hash_1).index + 1,
        created_block(after_create_block(c, hash_1), timestamp_2, hash_2).transactions
            == Seq::<TransactionView>::empty(),
{
}

/// The block made after a stored block is loaded follows the stored block:
/// one higher, and linked to its hash.
pub proof fn law_load_then_create(c: ChainView, b: BlockView)
    requires
        b.index < u64::MAX,
    ensures
        can_create_block(after_restore(c, b)),
        next_block_view(after_restore(c, b)).index == b.index + 1,
        next_block_view(after_restore(c, b)).previous_hash == text_or_empty(b.hash),
{
}

/// The height read back from the keys of the block store is at least the
/// height of every block stored under `encoding::block_key`.
pub proof fn law_last_key_covers_stored(keys: Seq<Seq<u8>>, res: u64, index: u64)
    requires
        is_last_key(keys, res),
        keys.contains(decimal_digits(index as nat)),
    ensures
        index <= res,
{
    crate::encoding::law_block_key_round_trip(index);
    let i = choose|i: int| 0 <= i < keys.len() && keys[i] == decimal_digits(index as nat);
    assert(parse_u64_text(keys[i]) == Some(index));
}

} // verus!
