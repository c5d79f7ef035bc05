//! Blocks, their canonical bytes and their hash.

use crate::digest::{hash_hex, hash_text};
use crate::encoding::{append_i64, append_text_field, append_u64, i64_field, text_field, u64_field};
use crate::transaction::{transaction_bytes, transaction_views, Transaction, TransactionView};
use vstd::prelude::*;

verus! {

/// A block of the chain. The hash is derived from all the other fields.
#[derive(Debug, PartialEq, Eq)]
pub struct Block {
    pub hash: String,
    pub previous_hash: String,
    pub timestamp: i64,
    pub transactions: Vec<Transaction>,
    pub poh_hash: String,
    pub poh_count: u64,
}

/// A block as a mathematical value.
pub struct BlockView {
    pub hash: Seq<char>,
    pub previous_hash: Seq<char>,
    pub timestamp: i64,
    pub transactions: Seq<TransactionView>,
    pub poh_hash: Seq<char>,
    pub poh_count: u64,
}

impl View for Block {
    type V = BlockView;

    open spec fn view(&self) -> BlockView {
        BlockView {
            hash: self.hash@,
            previous_hash: self.previous_hash@,
            timestamp: self.timestamp,
            transactions: transaction_views(self.transactions@),
            poh_hash: self.poh_hash@,
            poh_count: self.poh_count,
        }
    }
}

/// The views of a sequence of blocks, in the same order.
pub open spec fn block_views(blocks: Seq<Block>) -> Seq<BlockView> {
    blocks.map_values(|b: Block| b@)
}

/// The canonical bytes of a list of transactions: those of each transaction,
/// one after the other.
pub open spec fn transactions_bytes(transactions: Seq<TransactionView>) -> Seq<u8>
    decreases transactions.len(),
{
    if transactions.len() == 0 {
        Seq::empty()
    } else {
        transactions_bytes(transactions.drop_last()) + transaction_bytes(transactions.last())
    }
}

/// The bytes that a block's hash is computed from: every field but the hash
/// itself. In order: previous hash, timestamp, number of transactions, the
/// transactions, clock hash, clock count.
pub open spec fn block_preimage(b: BlockView) -> Seq<u8> {
    text_field(b.previous_hash) + i64_field(b.timestamp) + u64_field(b.transactions.len() as u64)
        + transactions_bytes(b.transactions) + text_field(b.poh_hash) + u64_field(b.poh_count)
}

/// The hash that a block with these fields must carry.
pub open spec fn block_hash(b: BlockView) -> Seq<char> {
    hash_text(block_preimage(b))
}

/// Copies a list of transactions.
pub fn clone_transactions(transactions: &Vec<Transaction>) -> (copy: Vec<Transaction>)
    ensures
        transaction_views(copy@) == transaction_views(transactions@),
{
    let mut copy: Vec<Transaction> = Vec::new();
    let mut i: usize = 0;
    while i < transactions.len()
        invariant
            i <= transactions.len(),
            copy@.len() == i,
            forall|k: int| 0 <= k < i ==> copy@[k]@ == transactions@[k]@,
        decreases transactions.len() - i,
    {
        copy.push(transactions[i].clone());
        i += 1;
    }
    copy
}

impl Clone for Block {
    fn clone(&self) -> (copy: Block)
        ensures
            copy@ == self@,
    {
        Block {
            hash: self.hash.clone(),
            previous_hash: self.previous_hash.clone(),
            timestamp: self.timestamp,
            transactions: clone_transactions(&self.transactions),
            poh_hash: self.poh_hash.clone(),
            poh_count: self.poh_count,
        }
    }
}

impl Block {
    /// The bytes that the block's hash is computed from.
    pub fn canonical_bytes(&self) -> (bytes: Vec<u8>)
        ensures
            bytes@ == block_preimage(self@),
    {
        let mut out: Vec<u8> = Vec::new();
        append_text_field(&mut out, self.previous_hash.as_str());
        append_i64(&mut out, self.timestamp);
        append_u64(&mut out, self.transactions.len() as u64);
        let ghost head = out@;
        let mut i: usize = 0;
        while i < self.transactions.len()
            invariant
                i <= self.transactions.len(),
                out@ == head + transactions_bytes(self@.transactions.take(i as int)),
            decreases self.transactions.len() - i,
        {
            self.transactions[i].append_canonical_bytes(&mut out);
            i += 1;
            proof {
                let upto = self@.transactions.take(i as int);
                assert(upto.drop_last() =~= self@.transactions.take(i - 1));
            }
        }
        assert(self@.transactions.take(i as int) =~= self@.transactions);
        append_text_field(&mut out, self.poh_hash.as_str());
        append_u64(&mut out, self.poh_count);
        out
    }

    /// Recomputes the hash from the block's other fields.
    pub fn compute_hash(&self) -> (hash: String)
        ensures
            hash@ == block_hash(self@),
            hash@.len() == 64,
    {
        let bytes = self.canonical_bytes();
        hash_hex(bytes.as_slice())
    }

    /// Whether the stored hash is the hash of the block's other fields.
    pub fn hash_matches(&self) -> (ok: bool)
        ensures
            ok == (self@.hash == block_hash(self@)),
    {
        let expected = self.compute_hash();
        expected == self.hash
    }
}

} // verus!
