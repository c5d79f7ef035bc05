//! What holds of the ledger in every state it can reach, proved from the
//! model that the operations are verified against.

use crate::block::{block_hash, block_preimage, BlockView};
use crate::blockchain::{
    block_consistent, chain_consistent, first_corruption, ids_of, is_genesis, LedgerView,
};
use crate::canonical::{block_fits, law_block_bytes_determine_block};
use crate::clock::{entry_follows, ticks_follow, ClockView, StampView};
use crate::digest::sha256_digest;
use crate::encoding::{lemma_hex_determines_bytes, zeros};
use crate::error::ValidationError;
use crate::transaction::TransactionView;
use vstd::prelude::*;

verus! {

/// A new ledger holds exactly one block, the genesis block: its clock count
/// is zero, its previous hash is 64 zero characters, it has no
/// transactions, and its hash is the hash of its fields. Nothing waits in
/// the pool, and the invariant holds.
pub proof fn law_initial_ledger(timestamp: i64)
    ensures
        LedgerView::initial(timestamp).blocks.len() == 1,
        LedgerView::initial(timestamp).blocks[0].poh_count == 0,
        LedgerView::initial(timestamp).blocks[0].previous_hash == zeros(64),
        LedgerView::initial(timestamp).blocks[0].previous_hash.len() == 64,
        forall|i: int|
            0 <= i < 64 ==> LedgerView::initial(timestamp).blocks[0].previous_hash[i] == '0',
        LedgerView::initial(timestamp).blocks[0].transactions.len() == 0,
        LedgerView::initial(timestamp).blocks[0].hash == block_hash(
            LedgerView::initial(timestamp).blocks[0],
        ),
        LedgerView::initial(timestamp).pending.len() == 0,
        LedgerView::initial(timestamp).pool.dom() == Set::<Seq<char>>::empty(),
        LedgerView::initial(timestamp).is_valid(),
{
}

/// Admission keeps the invariant: an accepted transaction joins a valid
/// ledger without breaking it.
pub proof fn law_admission_keeps_valid(l: LedgerView, t: TransactionView, signature_ok: bool)
    requires
        l.is_valid(),
        l.admission(t, signature_ok) is Ok,
    ensures
        l.admitted(t).is_valid(),
{
    let after = l.admitted(t);
    assert(after.pool_matches_queue()) by {
        assert forall|id: Seq<char>| #[trigger] after.pool.contains_key(id) implies ids_of(
            after.pending,
        ).contains(id) by {
            if id == t.id {
                assert(after.pending[l.pending.len() as int].id == id);
            } else {
                let w = choose|w: int|
                    0 <= w < l.pending.len() && (#[trigger] l.pending[w]).id == id;
                assert(after.pending[w].id == id);
            }
        }
    }
}

/// Mining keeps the invariant. In particular the new block links to the
/// block before it, carries the next clock stamp, and its hash is the hash
/// of its fields.
pub proof fn law_mining_keeps_valid(l: LedgerView, timestamp: i64)
    requires
        l.is_valid(),
        l.mining() is Ok,
    ensures
        l.mined(timestamp).is_valid(),
{
    let after = l.mined(timestamp);
    let n = l.blocks.len() as int;
    assert(chain_consistent(after.blocks)) by {
        assert forall|i: int| 0 <= i < after.blocks.len() implies block_consistent(
            after.blocks,
            i,
        ) by {
            if i < n {
                assert(block_consistent(l.blocks, i));
            }
        }
    }
}

/// Hash round-trip: in a valid ledger, the stored hash of every block, the
/// genesis block included, is the hash recomputed from its other fields.
pub proof fn law_hash_round_trip(l: LedgerView, i: int)
    requires
        l.is_valid(),
        0 <= i < l.blocks.len(),
    ensures
        l.blocks[i].hash == block_hash(l.blocks[i]),
{
    assert(block_consistent(l.blocks, i));
}

/// Linkage: in a valid ledger, every block after the genesis block names
/// the hash of the block before it.
pub proof fn law_linkage(l: LedgerView, i: int)
    requires
        l.is_valid(),
        0 < i < l.blocks.len(),
    ensures
        l.blocks[i].previous_hash == l.blocks[i - 1].hash,
{
    assert(block_consistent(l.blocks, i));
}

/// Ordering: when two transactions are admitted one after the other and a
/// block is mined, the block holds what waited before, then these two, in
/// the order of admission; with nothing waiting before, it holds exactly
/// these two. The pool is empty afterwards.
pub proof fn law_fifo_order(
    l: LedgerView,
    a: TransactionView,
    b: TransactionView,
    a_signed: bool,
    b_signed: bool,
    timestamp: i64,
)
    requires
        l.is_valid(),
        l.admission(a, a_signed) is Ok,
        l.admitted(a).admission(b, b_signed) is Ok,
        l.mining() is Ok,
    ensures
        l.admitted(a).admitted(b).sealed_block(timestamp).transactions == l.pending + seq![a, b],
        l.pending.len() == 0 ==> l.admitted(a).admitted(b).sealed_block(timestamp).transactions
            == seq![a, b],
        l.admitted(a).admitted(b).mined(timestamp).blocks.last() == l.admitted(a).admitted(
            b,
        ).sealed_block(timestamp),
        l.admitted(a).admitted(b).mined(timestamp).pending.len() == 0,
        l.admitted(a).admitted(b).mined(timestamp).pool.dom() == Set::<Seq<char>>::empty(),
{
    let filled = l.admitted(a).admitted(b);
    law_admission_keeps_valid(l, a, a_signed);
    law_admission_keeps_valid(l.admitted(a), b, b_signed);
    assert(filled.pending =~= l.pending + seq![a, b]);
    law_mining_drains_pool(filled, timestamp);
}

/// Mining moves every waiting transaction, in queue order, into the new
/// block, and leaves both the queue and the pool empty.
pub proof fn law_mining_drains_pool(l: LedgerView, timestamp: i64)
    requires
        l.pool_matches_queue(),
    ensures
        l.sealed_block(timestamp).transactions == l.pending,
        l.mined(timestamp).blocks.last().transactions == l.pending,
        l.mined(timestamp).pending.len() == 0,
        l.mined(timestamp).pool.dom() == Set::<Seq<char>>::empty(),
{
    assert(l.mined(timestamp).pool.dom() =~= Set::<Seq<char>>::empty());
}

/// Duplicate rejection: once a transaction is admitted, any transaction
/// with the same identifier is rejected, whether the first one still waits
/// or has been sealed into a block; with a positive amount the reason is
/// the duplicate identifier.
pub proof fn law_duplicate_rejected(
    l: LedgerView,
    first: TransactionView,
    second: TransactionView,
    signature_ok: bool,
    timestamp: i64,
)
    requires
        second.id == first.id,
    ensures
        l.admitted(first).admission(second, signature_ok) is Err,
        second.amount > 0 ==> l.admitted(first).admission(second, signature_ok) == Err::<
            (),
            ValidationError,
        >(ValidationError::DuplicateId),
        l.admitted(first).mined(timestamp).admission(second, signature_ok) is Err,
        second.amount > 0 ==> l.admitted(first).mined(timestamp).admission(second, signature_ok)
            == Err::<(), ValidationError>(ValidationError::DuplicateId),
{
    let waiting = l.admitted(first);
    let sealed = waiting.mined(timestamp);
    let n = waiting.blocks.len() as int;
    let k = l.pending.len() as int;
    assert(sealed.blocks[n].transactions[k].id == second.id);
}

/// Non-positive amount: a transaction whose amount is zero or negative is
/// rejected by every ledger, whatever its signature.
pub proof fn law_non_positive_rejected(l: LedgerView, t: TransactionView, signature_ok: bool)
    requires
        t.amount <= 0,
    ensures
        l.admission(t, signature_ok) == Err::<(), ValidationError>(
            ValidationError::NonPositiveAmount,
        ),
{
}

/// In a valid ledger no transaction with a non-positive amount waits in
/// the pool or stands in a block.
pub proof fn law_no_non_positive_amount(l: LedgerView, t: TransactionView)
    requires
        l.is_valid(),
        t.amount <= 0,
    ensures
        !l.pending.contains(t),
        forall|i: int|
            0 <= i < l.blocks.len() ==> !(#[trigger] l.blocks[i]).transactions.contains(t),
{
}

/// Whether mining can go on for `n` more blocks.
pub open spec fn can_mine(l: LedgerView, n: nat) -> bool {
    l.blocks.len() > 0 && l.clock.count + n <= u64::MAX
}

/// What a run of minings does to the chain and the clock: one block per
/// mining is appended after the blocks that were there, which stay as they
/// were, and the clock has ticked once per block.
pub proof fn law_mined_each_shape(l: LedgerView, timestamps: Seq<i64>)
    requires
        can_mine(l, timestamps.len()),
    ensures
        l.mined_each(timestamps).blocks.len() == l.blocks.len() + timestamps.len(),
        l.mined_each(timestamps).clock == l.clock.ticks(timestamps.len()),
        l.mined_each(timestamps).clock.count == l.clock.count + timestamps.len(),
        forall|i: int|
            0 <= i < l.blocks.len() ==> l.mined_each(timestamps).blocks[i] == l.blocks[i],
    decreases timestamps.len(),
{
    if timestamps.len() > 0 {
        law_mined_each_shape(l, timestamps.drop_last());
    }
}

/// Monotonic clock: across a run of minings, the block of the `k`-th mining
/// records the clock count `k + 1` above where the clock stood, so the
/// counts in the new blocks rise by exactly one from each block to the
/// next.
pub proof fn law_monotonic_clock(l: LedgerView, timestamps: Seq<i64>, k: int)
    requires
        can_mine(l, timestamps.len()),
        0 <= k < timestamps.len(),
    ensures
        l.mined_each(timestamps).blocks[l.blocks.len() + k].poh_count == l.clock.count + k + 1,
        k > 0 ==> l.mined_each(timestamps).blocks[l.blocks.len() + k].poh_count
            == l.mined_each(timestamps).blocks[l.blocks.len() + k - 1].poh_count + 1,
    decreases timestamps.len(),
{
    let shorter = timestamps.drop_last();
    law_mined_each_shape(l, shorter);
    if k < shorter.len() {
        law_monotonic_clock(l, shorter, k);
    }
    if 0 < k && k - 1 < shorter.len() {
        law_monotonic_clock(l, shorter, k - 1);
    }
}

/// One tick raises the count by exactly one, so the count never repeats
/// and never falls.
pub proof fn law_tick_counts(clock: ClockView, n: nat)
    ensures
        clock.tick().count == clock.count + 1,
        clock.ticks(n).count == clock.count + n,
        clock.ticks(n).tick_rate == clock.tick_rate,
    decreases n,
{
    if n > 0 {
        law_tick_counts(clock, (n - 1) as nat);
    }
}

/// Append-only: admission leaves the chain untouched, and mining leaves
/// every block that was there exactly as it was.
pub proof fn law_append_only(l: LedgerView, t: TransactionView, timestamp: i64)
    ensures
        l.admitted(t).blocks == l.blocks,
        l.mined(timestamp).blocks.len() == l.blocks.len() + 1,
        l.mined(timestamp).blocks.take(l.blocks.len() as int) == l.blocks,
{
}

/// At most one position is the first failure of a chain.
pub proof fn law_first_corruption_unique(blocks: Seq<BlockView>, i: int, j: int)
    requires
        first_corruption(blocks, i),
        first_corruption(blocks, j),
    ensures
        i == j,
{
}

/// A chain with a first failure is not consistent, so verification accepts
/// a chain exactly when it is consistent.
pub proof fn law_corruption_excludes_consistency(blocks: Seq<BlockView>, i: int)
    requires
        first_corruption(blocks, i),
    ensures
        !chain_consistent(blocks),
{
}

/// Tamper detection: when a block of a consistent chain is replaced by one
/// that no longer fits its place, the chain's first failure is at that
/// very position.
pub proof fn law_tamper_detected(blocks: Seq<BlockView>, i: int, tampered: BlockView)
    requires
        chain_consistent(blocks),
        0 <= i < blocks.len(),
        !block_consistent(blocks.update(i, tampered), i),
    ensures
        first_corruption(blocks.update(i, tampered), i),
{
    let changed = blocks.update(i, tampered);
    assert forall|j: int| 0 <= j < i implies block_consistent(changed, j) by {
        assert(block_consistent(blocks, j));
    }
}

/// Tamper detection for a sealed transaction: when the transactions of a
/// sealed block are altered, and the block's hash no longer matches the
/// hash of its fields, the chain's first failure is at that block.
pub proof fn law_tampered_transactions_detected(
    blocks: Seq<BlockView>,
    i: int,
    altered: Seq<TransactionView>,
)
    requires
        chain_consistent(blocks),
        0 <= i < blocks.len(),
        block_hash(BlockView { transactions: altered, ..blocks[i] }) != blocks[i].hash,
    ensures
        first_corruption(blocks.update(i, BlockView { transactions: altered, ..blocks[i] }), i),
{
    let tampered = BlockView { transactions: altered, ..blocks[i] };
    law_tamper_detected(blocks, i, tampered);
}

/// Whether SHA-256 tells the two byte strings apart: they are equal, or
/// their digests differ.
pub open spec fn told_apart(a: Seq<u8>, b: Seq<u8>) -> bool {
    sha256_digest(a) == sha256_digest(b) ==> a == b
}

/// Tamper detection, in full: when anything inside the transactions of a
/// sealed block is changed, verification fails first at that very block,
/// and every block before it still checks. The one thing assumed is that
/// SHA-256 tells the bytes of the changed block apart from the bytes of
/// the sealed one.
pub proof fn law_altered_transactions_detected(
    blocks: Seq<BlockView>,
    i: int,
    altered: Seq<TransactionView>,
)
    requires
        chain_consistent(blocks),
        0 <= i < blocks.len(),
        altered != blocks[i].transactions,
        block_fits(blocks[i]),
        block_fits(BlockView { transactions: altered, ..blocks[i] }),
        told_apart(
            block_preimage(BlockView { transactions: altered, ..blocks[i] }),
            block_preimage(blocks[i]),
        ),
    ensures
        first_corruption(blocks.update(i, BlockView { transactions: altered, ..blocks[i] }), i),
{
    let sealed = blocks[i];
    let tampered = BlockView { transactions: altered, ..sealed };
    assert(block_consistent(blocks, i));
    assert(sealed.hash == block_hash(sealed));
    law_tamper_changes_hashed_bytes(sealed, tampered);
    if block_hash(tampered) == block_hash(sealed) {
        lemma_hex_determines_bytes(
            sha256_digest(block_preimage(tampered)),
            sha256_digest(block_preimage(sealed)),
        );
    }
    law_tampered_transactions_detected(blocks, i, altered);
}

/// Tamper detection, at the level of bytes: a block that differs from a
/// sealed block in its transactions, or in any other hashed field, is
/// hashed over different bytes than the sealed block was.
pub proof fn law_tamper_changes_hashed_bytes(sealed: BlockView, tampered: BlockView)
    requires
        block_fits(sealed),
        block_fits(tampered),
        sealed.transactions != tampered.transactions || sealed.previous_hash
            != tampered.previous_hash || sealed.timestamp != tampered.timestamp || sealed.poh_hash
            != tampered.poh_hash || sealed.poh_count != tampered.poh_count,
    ensures
        block_preimage(sealed) != block_preimage(tampered),
{
    if block_preimage(sealed) == block_preimage(tampered) {
        law_block_bytes_determine_block(sealed, tampered);
    }
}

/// The clock stamps of the blocks after the genesis block, in chain order.
pub open spec fn stamps_after_genesis(blocks: Seq<BlockView>) -> Seq<StampView> {
    Seq::new((blocks.len() - 1) as nat, |k: int| (blocks[k + 1].poh_hash, blocks[k + 1].poh_count))
}

/// In a consistent chain the clock stamps of the blocks form an unbroken
/// run of ticks that starts at the genesis block's clock hash.
pub proof fn law_chain_ticks_follow(blocks: Seq<BlockView>)
    requires
        chain_consistent(blocks),
    ensures
        ticks_follow(zeros(64), stamps_after_genesis(blocks)),
{
    let stamps = stamps_after_genesis(blocks);
    assert(is_genesis(blocks[0])) by {
        assert(block_consistent(blocks, 0));
    }
    assert forall|k: int| 0 <= k < stamps.len() implies entry_follows(zeros(64), stamps, k) by {
        assert(block_consistent(blocks, k + 1));
    }
}

} // verus!
