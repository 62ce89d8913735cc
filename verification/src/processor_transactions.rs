//! The decisions of the transaction processor: received transactions are
//! queued on the chain state, and a block is made once enough are pending.
use vstd::prelude::*;

use crate::blockchain::{Blockchain, ChainView};
use crate::strucks::transaction::{transaction_views, Transaction};

verus! {

/// The number of pending transactions at which a block is made.
pub const BLOCK_SIZE: usize = 100;

/// The processor's decision state: whether a block is to be made.
pub struct Processor {
    pub state: bool,
}

impl Processor {
    /// A processor with no block to make.
    pub fn new() -> (res: Processor)
        ensures
            !res.state,
    {
        Processor { state: false }
    }

    /// Queues a received transaction on the chain state. Once at least
    /// `BLOCK_SIZE` transactions are pending, a block is to be made; the
    /// result says whether one is.
    pub fn receive(&mut self, blockchain: &mut Blockchain, transaction: Transaction) -> (create: bool)
        ensures
            final(blockchain)@ == (ChainView {
                transactions: old(blockchain)@.transactions.push(transaction@),
                ..old(blockchain)@
            }),
            final(self).state == (old(self).state || old(blockchain)@.transactions.len() + 1 >= BLOCK_SIZE),
            create == final(self).state,
    {
        blockchain.transactions.push(transaction);
        assert(transaction_views(blockchain.transactions@) =~= old(blockchain)@.transactions.push(transaction@));
        if blockchain.transactions.len() >= BLOCK_SIZE {
            self.state = true;
        }
        self.state
    }

    /// Notes that the block was made.
    pub fn block_created(&mut self)
        ensures
            !final(self).state,
    {
        self.state = false;
    }
}

} // verus!
