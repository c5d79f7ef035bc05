//! The ledger: the chain of sealed blocks, the pool of admitted
//! transactions waiting for a block, and the hash clock that stamps each
//! block.
//!
//! The behaviour is first written down on mathematical values
//! (`LedgerView`); every operation of `Blockchain` is then proved to do
//! exactly what the model says.

use crate::block::{block_hash, block_preimage, block_views, Block, BlockView};
use crate::clock::{compute_tick, tick_hash, ClockView, PoHVerifier, HASH_CHARS};
use crate::encoding::{zero_text, zeros};
use crate::error::{CorruptionError, MiningError, ProductionError, ValidationError};
use crate::laws::{law_admission_keeps_valid, law_mining_keeps_valid};
use crate::signature::{signature_verifies, verify_signature};
use crate::time::now_millis;
use crate::transaction::{signing_message, transaction_views, Transaction, TransactionView};
use crate::wallet::{generate_wallet_address, wallet_address};
use vstd::hash_map::StringHashMap;
use vstd::prelude::*;

verus! {

/// The genesis block before its hash is computed: the previous hash and
/// the clock hash are 64 zero characters, the clock count is zero and
/// there are no transactions.
pub open spec fn unsealed_genesis(timestamp: i64) -> BlockView {
    BlockView {
        hash: Seq::empty(),
        previous_hash: zeros(64),
        timestamp,
        transactions: Seq::empty(),
        poh_hash: zeros(64),
        poh_count: 0,
    }
}

/// The genesis block. Like every block it is sealed: its hash is the hash
/// of its other fields.
pub open spec fn genesis_block(timestamp: i64) -> BlockView {
    BlockView { hash: block_hash(unsealed_genesis(timestamp)), ..unsealed_genesis(timestamp) }
}

/// Whether a block has the fixed form of a genesis block.
pub open spec fn is_genesis(b: BlockView) -> bool {
    b == genesis_block(b.timestamp)
}

/// Whether `b` may stand directly after `previous`: it names the hash of
/// `previous`, its clock stamp is exactly one tick after the stamp of
/// `previous`, and its own hash is the hash of its other fields.
pub open spec fn block_follows(previous: BlockView, b: BlockView) -> bool {
    &&& b.previous_hash == previous.hash
    &&& b.poh_count == previous.poh_count + 1
    &&& b.poh_hash == tick_hash(previous.poh_hash, previous.poh_count as nat)
    &&& b.hash == block_hash(b)
}

/// Whether the block at position `i` is what the chain allows there: a
/// genesis block at position zero, a block that follows its predecessor
/// anywhere else.
pub open spec fn block_consistent(blocks: Seq<BlockView>, i: int) -> bool {
    if i == 0 {
        is_genesis(blocks[0])
    } else {
        block_follows(blocks[i - 1], blocks[i])
    }
}

/// Whether the chain starts with a genesis block and every later block
/// follows the one before it.
pub open spec fn chain_consistent(blocks: Seq<BlockView>) -> bool {
    &&& blocks.len() > 0
    &&& forall|i: int| 0 <= i < blocks.len() ==> block_consistent(blocks, i)
}

/// Whether `index` is the first position at which the chain fails. A chain
/// without any block fails at position zero, where its genesis block is
/// missing.
pub open spec fn first_corruption(blocks: Seq<BlockView>, index: int) -> bool {
    &&& 0 <= index
    &&& if blocks.len() == 0 {
        index == 0
    } else {
        index < blocks.len() && !block_consistent(blocks, index)
    }
    &&& forall|j: int| 0 <= j < index ==> block_consistent(blocks, j)
}

/// Whether `public_key` is the key of the sender that the transaction
/// claims. A sender is named by the wallet address of its public key.
pub open spec fn is_sender_key(t: TransactionView, public_key: Seq<u8>) -> bool {
    t.from == wallet_address(public_key)
}

/// Whether the transaction is signed by the sender it claims: `public_key`
/// is that sender's key, and the signature verifies under it over the
/// transaction's signing bytes.
pub open spec fn signed_by_sender(t: TransactionView, public_key: Seq<u8>) -> bool {
    is_sender_key(t, public_key) && signature_verifies(
        public_key,
        signing_message(t),
        t.signature,
    )
}

/// The identifiers that occur in a list of transactions.
pub open spec fn ids_of(transactions: Seq<TransactionView>) -> Set<Seq<char>> {
    Set::new(
        |id: Seq<char>|
            exists|k: int| 0 <= k < transactions.len() && (#[trigger] transactions[k]).id == id,
    )
}

/// The ledger as a mathematical value.
pub struct LedgerView {
    /// The chain, genesis block first.
    pub blocks: Seq<BlockView>,
    /// The admitted transactions that wait for a block, oldest first.
    pub pending: Seq<TransactionView>,
    /// The waiting transactions by identifier.
    pub pool: Map<Seq<char>, TransactionView>,
    /// The hash clock.
    pub clock: ClockView,
}

impl LedgerView {
    /// The ledger right after its creation at `timestamp`.
    pub open spec fn initial(timestamp: i64) -> LedgerView {
        LedgerView {
            blocks: seq![genesis_block(timestamp)],
            pending: Seq::empty(),
            pool: Map::empty(),
            clock: ClockView::initial(),
        }
    }

    /// Whether some sealed block holds a transaction with this identifier.
    pub open spec fn is_sealed_id(self, id: Seq<char>) -> bool {
        exists|i: int, j: int|
            0 <= i < self.blocks.len() && 0 <= j < self.blocks[i].transactions.len() && (
            #[trigger] self.blocks[i].transactions[j]).id == id
    }

    /// Whether the identifier is taken: by a waiting transaction or by one in
    /// a sealed block.
    pub open spec fn is_known_id(self, id: Seq<char>) -> bool {
        self.pool.contains_key(id) || self.is_sealed_id(id)
    }

    /// The checks that need no signature: the amount must be positive and
    /// the identifier new. The amount is looked at first.
    pub open spec fn screening(self, t: TransactionView) -> Result<(), ValidationError> {
        if t.amount <= 0 {
            Err(ValidationError::NonPositiveAmount)
        } else if self.is_known_id(t.id) {
            Err(ValidationError::DuplicateId)
        } else {
            Ok(())
        }
    }

    /// The verdict of admission on `t`, given whether its signature
    /// verifies. The signature counts only for a transaction that passes
    /// the screening.
    pub open spec fn admission(self, t: TransactionView, signature_ok: bool) -> Result<
        (),
        ValidationError,
    > {
        match self.screening(t) {
            Err(e) => Err(e),
            Ok(_) => if signature_ok {
                Ok(())
            } else {
                Err(ValidationError::InvalidSignature)
            },
        }
    }

    /// The ledger after `t` has joined the pool: last in the queue, and
    /// found under its identifier.
    pub open spec fn admitted(self, t: TransactionView) -> LedgerView {
        LedgerView { pending: self.pending.push(t), pool: self.pool.insert(t.id, t), ..self }
    }

    /// Whether a block can be produced, and if not, why.
    pub open spec fn mining(self) -> Result<(), MiningError> {
        if self.blocks.len() == 0 {
            Err(MiningError::EmptyChain)
        } else if self.clock.count >= u64::MAX {
            Err(MiningError::ClockExhausted)
        } else {
            Ok(())
        }
    }

    /// The next block before its hash is computed: it links to the latest
    /// block, carries every waiting transaction in queue order, and is
    /// stamped with the next tick of the clock.
    pub open spec fn unsealed_block(self, timestamp: i64) -> BlockView {
        BlockView {
            hash: Seq::empty(),
            previous_hash: self.blocks.last().hash,
            timestamp,
            transactions: self.pending,
            poh_hash: self.clock.tick().current_hash,
            poh_count: self.clock.tick().count as u64,
        }
    }

    /// The block that mining at `timestamp` produces.
    pub open spec fn sealed_block(self, timestamp: i64) -> BlockView {
        BlockView {
            hash: block_hash(self.unsealed_block(timestamp)),
            ..self.unsealed_block(timestamp)
        }
    }

    /// The ledger after mining at `timestamp`: the new block is last in the
    /// chain, the queue is empty, the identifiers of the drained
    /// transactions have left the pool, and the clock has ticked once.
    pub open spec fn mined(self, timestamp: i64) -> LedgerView {
        LedgerView {
            blocks: self.blocks.push(self.sealed_block(timestamp)),
            pending: Seq::empty(),
            pool: self.pool.remove_keys(ids_of(self.pending)),
            clock: self.clock.tick(),
        }
    }

    /// The ledger after mining once for each of `timestamps`, in order.
    pub open spec fn mined_each(self, timestamps: Seq<i64>) -> LedgerView
        decreases timestamps.len(),
    {
        if timestamps.len() == 0 {
            self
        } else {
            self.mined_each(timestamps.drop_last()).mined(timestamps.last())
        }
    }

    /// Whether the pool and the queue hold the same transactions: every
    /// waiting transaction is found under its identifier, the pool holds
    /// nothing else, and no identifier waits twice.
    pub open spec fn pool_matches_queue(self) -> bool {
        &&& forall|k: int|
            0 <= k < self.pending.len() ==> self.pool.contains_key(
                (#[trigger] self.pending[k]).id,
            ) && self.pool[self.pending[k].id] == self.pending[k]
        &&& forall|id: Seq<char>| #[trigger]
            self.pool.contains_key(id) ==> ids_of(self.pending).contains(id)
        &&& forall|a: int, b: int|
            0 <= a < b < self.pending.len() ==> (#[trigger] self.pending[a]).id != (
            #[trigger] self.pending[b]).id
    }

    /// Whether every identifier occurs at most once across the queue and
    /// all sealed blocks.
    pub open spec fn ids_unique(self) -> bool {
        &&& forall|k: int|
            0 <= k < self.pending.len() ==> !self.is_sealed_id((#[trigger] self.pending[k]).id)
        &&& forall|i: int, j: int, m: int, n: int|
            0 <= i < self.blocks.len() && 0 <= j < self.blocks[i].transactions.len() && 0 <= m
                < self.blocks.len() && 0 <= n < self.blocks[m].transactions.len() && (i != m || j
                != n) ==> (#[trigger] self.blocks[i].transactions[j]).id != (
            #[trigger] self.blocks[m].transactions[n]).id
    }

    /// Whether every transaction in the queue and in the chain has a
    /// positive amount.
    pub open spec fn amounts_positive(self) -> bool {
        &&& forall|k: int| 0 <= k < self.pending.len() ==> (#[trigger] self.pending[k]).amount > 0
        &&& forall|i: int, j: int|
            0 <= i < self.blocks.len() && 0 <= j < self.blocks[i].transactions.len() ==> (
            #[trigger] self.blocks[i].transactions[j]).amount > 0
    }

    /// Whether the clock stands where the latest block was stamped.
    pub open spec fn clock_at_tip(self) -> bool {
        &&& self.blocks.len() > 0
        &&& self.clock.current_hash == self.blocks.last().poh_hash
        &&& self.clock.count == self.blocks.last().poh_count
    }

    /// The invariant of the ledger. It holds of a new ledger, and admission
    /// and mining keep it.
    pub open spec fn is_valid(self) -> bool {
        &&& chain_consistent(self.blocks)
        &&& self.pool_matches_queue()
        &&& self.ids_unique()
        &&& self.amounts_positive()
        &&& self.clock_at_tip()
    }
}

/// The ledger: chain, waiting transactions and hash clock, owned as one
/// value.
pub struct Blockchain {
    pub blocks: Vec<Block>,
    pub pending_transactions: Vec<Transaction>,
    pub transaction_pool: StringHashMap<Transaction>,
    pub poh_verifier: PoHVerifier,
}

impl View for Blockchain {
    type V = LedgerView;

    open spec fn view(&self) -> LedgerView {
        LedgerView {
            blocks: block_views(self.blocks@),
            pending: transaction_views(self.pending_transactions@),
            pool: self.transaction_pool@.map_values(|t: Transaction| t@),
            clock: self.poh_verifier@,
        }
    }
}

/// Whether `b` may stand directly after `previous`.
pub fn follows(previous: &Block, b: &Block) -> (ok: bool)
    ensures
        ok == block_follows(previous@, b@),
{
    if b.previous_hash != previous.hash {
        return false;
    }
    if previous.poh_count == u64::MAX || b.poh_count != previous.poh_count + 1 {
        return false;
    }
    let expected = compute_tick(previous.poh_hash.as_str(), previous.poh_count);
    if expected != b.poh_hash {
        return false;
    }
    b.hash_matches()
}

/// Whether `b` has the form of a genesis block, its hash included.
pub fn has_genesis_form(b: &Block) -> (ok: bool)
    ensures
        ok == is_genesis(b@),
{
    let zero = zero_text(HASH_CHARS);
    let shaped = b.previous_hash == zero && b.poh_hash == zero && b.poh_count == 0
        && b.transactions.len() == 0;
    proof {
        assert(b@.transactions.len() == b.transactions@.len());
        if shaped {
            assert(b@.transactions =~= Seq::<TransactionView>::empty());
            assert(block_preimage(b@) == block_preimage(unsealed_genesis(b.timestamp)));
        }
    }
    shaped && b.hash_matches()
}

impl Blockchain {
    /// A ledger whose genesis block carries the given timestamp.
    pub fn genesis_at(timestamp: i64) -> (ledger: Blockchain)
        ensures
            ledger@ == LedgerView::initial(timestamp),
            ledger@.is_valid(),
    {
        let mut genesis = Block {
            hash: String::new(),
            previous_hash: zero_text(HASH_CHARS),
            timestamp,
            transactions: Vec::new(),
            poh_hash: zero_text(HASH_CHARS),
            poh_count: 0,
        };
        assert(genesis@.transactions =~= Seq::<TransactionView>::empty());
        assert(genesis@ == unsealed_genesis(timestamp));
        genesis.hash = genesis.compute_hash();
        let mut blocks: Vec<Block> = Vec::new();
        blocks.push(genesis);
        let ledger = Blockchain {
            blocks,
            pending_transactions: Vec::new(),
            transaction_pool: StringHashMap::new(),
            poh_verifier: PoHVerifier::new(),
        };
        assert(ledger@.blocks =~= seq![genesis_block(timestamp)]);
        assert(ledger@.pool =~= Map::<Seq<char>, TransactionView>::empty());
        ledger
    }

    /// A ledger whose genesis block carries the current time.
    pub fn new() -> (ledger: Blockchain)
        ensures
            ledger@.blocks.len() == 1,
            ledger@ == LedgerView::initial(ledger@.blocks[0].timestamp),
            ledger@.is_valid(),
    {
        Blockchain::genesis_at(now_millis())
    }

    /// Whether some sealed block holds a transaction with this identifier.
    pub fn is_sealed_id(&self, id: &str) -> (found: bool)
        ensures
            found == self@.is_sealed_id(id@),
    {
        let wanted = id.to_owned();
        let mut i: usize = 0;
        while i < self.blocks.len()
            invariant
                i <= self.blocks.len(),
                wanted@ == id@,
                forall|a: int, b: int|
                    0 <= a < i && 0 <= b < self@.blocks[a].transactions.len() ==> (
                    #[trigger] self@.blocks[a].transactions[b]).id != id@,
            decreases self.blocks.len() - i,
        {
            let block = &self.blocks[i];
            let mut j: usize = 0;
            while j < block.transactions.len()
                invariant
                    i < self.blocks.len(),
                    block == &self.blocks[i as int],
                    j <= block.transactions.len(),
                    wanted@ == id@,
                    forall|b: int|
                        0 <= b < j ==> (#[trigger] self@.blocks[i as int].transactions[b]).id
                            != id@,
                decreases block.transactions.len() - j,
            {
                if block.transactions[j].id == wanted {
                    assert(self@.blocks[i as int].transactions[j as int].id == id@);
                    return true;
                }
                j += 1;
            }
            i += 1;
        }
        false
    }

    /// Whether the identifier is taken by a waiting or a sealed transaction.
    pub fn is_known_id(&self, id: &str) -> (known: bool)
        ensures
            known == self@.is_known_id(id@),
    {
        self.transaction_pool.contains_key(id) || self.is_sealed_id(id)
    }

    /// The checks of admission that need no signature.
    pub fn screen(&self, transaction: &Transaction) -> (verdict: Result<(), ValidationError>)
        ensures
            verdict == self@.screening(transaction@),
    {
        if transaction.amount <= 0 {
            Err(ValidationError::NonPositiveAmount)
        } else if self.is_known_id(transaction.id.as_str()) {
            Err(ValidationError::DuplicateId)
        } else {
            Ok(())
        }
    }

    /// Puts a transaction that passed every check into the pool.
    fn enqueue(&mut self, transaction: Transaction)
        ensures
            final(self)@ == old(self)@.admitted(transaction@),
    {
        self.transaction_pool.insert(transaction.id.clone(), transaction.clone());
        self.pending_transactions.push(transaction);
        assert(self@.pending =~= old(self)@.pending.push(transaction@));
        assert(self@.pool =~= old(self)@.pool.insert(transaction@.id, transaction@));
    }

    /// Admission, given the verdict on the signature. The transaction joins
    /// the pool exactly when `admission` says `Ok`; a rejection leaves the
    /// ledger as it was.
    pub fn accept(&mut self, transaction: Transaction, signature_ok: bool) -> (verdict: Result<
        (),
        ValidationError,
    >)
        ensures
            verdict == old(self)@.admission(transaction@, signature_ok),
            verdict is Ok ==> final(self)@ == old(self)@.admitted(transaction@),
            verdict is Err ==> final(self)@ == old(self)@,
            old(self)@.is_valid() ==> final(self)@.is_valid(),
    {
        match self.screen(&transaction) {
            Err(e) => Err(e),
            Ok(_) => {
                if signature_ok {
                    proof {
                        if self@.is_valid() {
                            law_admission_keeps_valid(self@, transaction@, signature_ok);
                        }
                    }
                    self.enqueue(transaction);
                    Ok(())
                } else {
                    Err(ValidationError::InvalidSignature)
                }
            },
        }
    }

    /// Whether the transaction is signed by the sender it claims.
    pub fn is_signed_by_sender(transaction: &Transaction, public_key: &[u8]) -> (ok: bool)
        ensures
            ok == signed_by_sender(transaction@, public_key@),
    {
        let address = generate_wallet_address(public_key);
        if address != transaction.from {
            return false;
        }
        let message = transaction.signing_bytes();
        verify_signature(message.as_slice(), transaction.signature.as_slice(), public_key)
    }

    /// Admission of a transaction, given the public key of its sender. The
    /// key must be the key of the sender that the transaction claims, and
    /// the signature must verify under it over the transaction's signing
    /// bytes; both are checked only for a transaction that passes the
    /// screening.
    pub fn add_transaction(&mut self, transaction: Transaction, public_key: &[u8]) -> (verdict:
        Result<(), ValidationError>)
        ensures
            verdict == old(self)@.admission(
                transaction@,
                signed_by_sender(transaction@, public_key@),
            ),
            verdict is Ok ==> final(self)@ == old(self)@.admitted(transaction@),
            verdict is Err ==> final(self)@ == old(self)@,
            old(self)@.is_valid() ==> final(self)@.is_valid(),
    {
        match self.screen(&transaction) {
            Err(e) => Err(e),
            Ok(_) => {
                let signature_ok = Blockchain::is_signed_by_sender(&transaction, public_key);
                if signature_ok {
                    proof {
                        if self@.is_valid() {
                            law_admission_keeps_valid(self@, transaction@, signature_ok);
                        }
                    }
                    self.enqueue(transaction);
                    Ok(())
                } else {
                    Err(ValidationError::InvalidSignature)
                }
            },
        }
    }

    /// Takes the identifiers of `drained` out of the pool.
    fn forget(&mut self, drained: &Vec<Transaction>)
        ensures
            final(self)@.pool == old(self)@.pool.remove_keys(ids_of(transaction_views(drained@))),
            final(self).blocks == old(self).blocks,
            final(self).pending_transactions == old(self).pending_transactions,
            final(self).poh_verifier == old(self).poh_verifier,
    {
        let ghost all = transaction_views(drained@);
        let mut k: usize = 0;
        while k < drained.len()
            invariant
                k <= drained.len(),
                all == transaction_views(drained@),
                self@.pool == old(self)@.pool.remove_keys(ids_of(all.take(k as int))),
                self.blocks == old(self).blocks,
                self.pending_transactions == old(self).pending_transactions,
                self.poh_verifier == old(self).poh_verifier,
            decreases drained.len() - k,
        {
            let ghost pool_before = self@.pool;
            self.transaction_pool.remove(drained[k].id.as_str());
            proof {
                let id = all[k as int].id;
                assert(all.take(k + 1)[k as int] == all[k as int]);
                assert(ids_of(all.take(k + 1)) =~= ids_of(all.take(k as int)).insert(id));
                assert(self@.pool =~= pool_before.remove(id));
            }
            k += 1;
        }
        assert(all.take(k as int) =~= all);
    }

    /// Produces the next block with the given timestamp: drains the queue in
    /// order, ticks the clock once, links to the latest block, computes the
    /// hash and appends the block to the chain. Without a block to link to,
    /// or with the clock at its last count, nothing changes.
    pub fn mine_block_at(&mut self, timestamp: i64) -> (outcome: Result<Block, MiningError>)
        ensures
            outcome matches Err(e) ==> {
                &&& old(self)@.mining() == Err::<(), MiningError>(e)
                &&& final(self)@ == old(self)@
            },
            outcome matches Ok(block) ==> {
                &&& old(self)@.mining() is Ok
                &&& block@ == old(self)@.sealed_block(timestamp)
                &&& block@.hash.len() == 64
                &&& block@.poh_hash.len() == 64
                &&& final(self)@ == old(self)@.mined(timestamp)
            },
            old(self)@.is_valid() ==> final(self)@.is_valid(),
    {
        if self.blocks.len() == 0 {
            return Err(MiningError::EmptyChain);
        }
        if self.poh_verifier.count == u64::MAX {
            return Err(MiningError::ClockExhausted);
        }
        let previous_hash = self.blocks[self.blocks.len() - 1].hash.clone();
        let mut transactions: Vec<Transaction> = Vec::new();
        core::mem::swap(&mut self.pending_transactions, &mut transactions);
        self.forget(&transactions);
        let stamp = self.poh_verifier.generate_hash();
        let mut block = Block {
            hash: String::new(),
            previous_hash,
            timestamp,
            transactions,
            poh_hash: stamp.0,
            poh_count: stamp.1,
        };
        block.hash = block.compute_hash();
        self.blocks.push(block.clone());
        proof {
            assert(self@.blocks =~= old(self)@.blocks.push(block@));
            assert(self@.pending =~= Seq::<TransactionView>::empty());
            if old(self)@.is_valid() {
                law_mining_keeps_valid(old(self)@, timestamp);
            }
        }
        Ok(block)
    }

    /// Produces the next block, stamped with the current time.
    pub fn mine_block(&mut self) -> (outcome: Result<Block, MiningError>)
        ensures
            outcome matches Err(e) ==> {
                &&& old(self)@.mining() == Err::<(), MiningError>(e)
                &&& final(self)@ == old(self)@
            },
            outcome matches Ok(block) ==> {
                &&& old(self)@.mining() is Ok
                &&& block@ == old(self)@.sealed_block(block.timestamp)
                &&& block@.hash.len() == 64
                &&& block@.poh_hash.len() == 64
                &&& final(self)@ == old(self)@.mined(block.timestamp)
            },
            old(self)@.is_valid() ==> final(self)@.is_valid(),
    {
        self.mine_block_at(now_millis())
    }

    /// The latest block of the chain.
    pub fn latest(&self) -> (block: Option<&Block>)
        ensures
            self@.blocks.len() == 0 ==> block is None,
            self@.blocks.len() > 0 ==> block is Some && block.unwrap()@ == self@.blocks.last(),
    {
        if self.blocks.len() == 0 {
            None
        } else {
            Some(&self.blocks[self.blocks.len() - 1])
        }
    }

    /// The first block of the chain that carries the given hash.
    pub fn get(&self, hash: &str) -> (block: Option<&Block>)
        ensures
            block is None ==> forall|i: int|
                0 <= i < self@.blocks.len() ==> (#[trigger] self@.blocks[i]).hash != hash@,
            block matches Some(b) ==> exists|i: int|
                0 <= i < self@.blocks.len() && b@ == #[trigger] self@.blocks[i] && b@.hash == hash@
                    && forall|j: int| 0 <= j < i ==> (#[trigger] self@.blocks[j]).hash != hash@,
    {
        let wanted = hash.to_owned();
        let mut i: usize = 0;
        while i < self.blocks.len()
            invariant
                i <= self.blocks.len(),
                wanted@ == hash@,
                forall|j: int| 0 <= j < i ==> (#[trigger] self@.blocks[j]).hash != hash@,
            decreases self.blocks.len() - i,
        {
            if self.blocks[i].hash == wanted {
                assert(self.blocks[i as int]@ == self@.blocks[i as int]);
                return Some(&self.blocks[i]);
            }
            i += 1;
        }
        None
    }

    /// Walks the chain from the genesis block: checks the form of the
    /// genesis block and, for every later block, its link to the block
    /// before it, its clock stamp and its hash. The first block that fails
    /// is reported by its position.
    pub fn verify(&self) -> (verdict: Result<(), CorruptionError>)
        ensures
            verdict is Ok <==> chain_consistent(self@.blocks),
            verdict matches Err(e) ==> first_corruption(self@.blocks, e.index as int),
    {
        if self.blocks.len() == 0 {
            return Err(CorruptionError { index: 0 });
        }
        if !has_genesis_form(&self.blocks[0]) {
            assert(!block_consistent(self@.blocks, 0));
            return Err(CorruptionError { index: 0 });
        }
        let mut i: usize = 1;
        while i < self.blocks.len()
            invariant
                1 <= i <= self.blocks.len(),
                forall|j: int| 0 <= j < i ==> block_consistent(self@.blocks, j),
            decreases self.blocks.len() - i,
        {
            if !follows(&self.blocks[i - 1], &self.blocks[i]) {
                assert(!block_consistent(self@.blocks, i as int));
                return Err(CorruptionError { index: i });
            }
            i += 1;
        }
        Ok(())
    }

    /// Produces the next block only on a chain that verifies. On a corrupt
    /// chain nothing changes and the first block that fails is reported;
    /// on a sound chain this is `mine_block_at`.
    pub fn mine_verified_at(&mut self, timestamp: i64) -> (outcome: Result<
        Block,
        ProductionError,
    >)
        ensures
            !chain_consistent(old(self)@.blocks) ==> {
                &&& outcome matches Err(ProductionError::Corrupt(e))
                &&& first_corruption(old(self)@.blocks, e.index as int)
                &&& final(self)@ == old(self)@
            },
            chain_consistent(old(self)@.blocks) && old(self)@.mining() is Err ==> {
                &&& outcome matches Err(ProductionError::Blocked(e))
                &&& old(self)@.mining() == Err::<(), MiningError>(e)
                &&& final(self)@ == old(self)@
            },
            chain_consistent(old(self)@.blocks) && old(self)@.mining() is Ok ==> {
                &&& outcome matches Ok(block)
                &&& block@ == old(self)@.sealed_block(timestamp)
                &&& block@.hash.len() == 64
                &&& block@.poh_hash.len() == 64
                &&& final(self)@ == old(self)@.mined(timestamp)
            },
            old(self)@.is_valid() ==> final(self)@.is_valid(),
    {
        match self.verify() {
            Err(corruption) => Err(ProductionError::Corrupt(corruption)),
            Ok(_) => match self.mine_block_at(timestamp) {
                Ok(block) => Ok(block),
                Err(e) => Err(ProductionError::Blocked(e)),
            },
        }
    }

    /// Produces the next block, stamped with the current time, only on a
    /// chain that verifies.
    pub fn mine_verified(&mut self) -> (outcome: Result<Block, ProductionError>)
        ensures
            !chain_consistent(old(self)@.blocks) ==> {
                &&& outcome matches Err(ProductionError::Corrupt(e))
                &&& first_corruption(old(self)@.blocks, e.index as int)
                &&& final(self)@ == old(self)@
            },
            chain_consistent(old(self)@.blocks) && old(self)@.mining() is Err ==> {
                &&& outcome matches Err(ProductionError::Blocked(e))
                &&& old(self)@.mining() == Err::<(), MiningError>(e)
                &&& final(self)@ == old(self)@
            },
            chain_consistent(old(self)@.blocks) && old(self)@.mining() is Ok ==> {
                &&& outcome matches Ok(block)
                &&& block@ == old(self)@.sealed_block(block.timestamp)
                &&& block@.hash.len() == 64
                &&& block@.poh_hash.len() == 64
                &&& final(self)@ == old(self)@.mined(block.timestamp)
            },
            old(self)@.is_valid() ==> final(self)@.is_valid(),
    {
        self.mine_verified_at(now_millis())
    }
}

} // verus!
