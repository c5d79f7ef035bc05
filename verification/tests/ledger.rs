use ed25519_dalek::{Signer, SigningKey};
use poh_ledger::block::Block;
use poh_ledger::blockchain::{follows, has_genesis_form, Blockchain};
use poh_ledger::error::{CorruptionError, MiningError, ValidationError};
use poh_ledger::transaction::Transaction;
use poh_ledger::wallet::generate_wallet_address;
use sha2::{Digest, Sha256};

const TICK_1: &str = "e531ef0f962409170917abf9de3287afec23dd1c42c9e1fea66c5feab99e8f7c";
const TICK_2: &str = "78bfc883be934340ac839dcb172ccc44fb71e321660ff5f96a2fde51987e6dde";
const GENESIS_AT_0: &str = "105cf0ceb363ed7469146fd9bc8242ca3987488cebd92bcb671d474a87cc2c84";

fn zeros64() -> String {
    "0".repeat(64)
}

fn key(seed: u8) -> SigningKey {
    SigningKey::from_bytes(&[seed; 32])
}

fn unsigned(id: &str, amount: i64) -> Transaction {
    Transaction {
        id: id.to_string(),
        from: "alice".to_string(),
        to: "bob".to_string(),
        amount,
        timestamp: 1_700_000_000_000,
        signature: vec![7u8; 64],
    }
}

fn address_of(signer: &SigningKey) -> String {
    generate_wallet_address(&signer.verifying_key().to_bytes())
}

fn signed(id: &str, amount: i64, signer: &SigningKey) -> Transaction {
    let mut t = unsigned(id, amount);
    t.from = address_of(signer);
    t.signature = signer.sign(&t.signing_bytes()).to_bytes().to_vec();
    t
}

fn chain_of(blocks: usize) -> Blockchain {
    let mut chain = Blockchain::genesis_at(1);
    for i in 1..blocks {
        let id = format!("tx-{}", i);
        assert_eq!(chain.accept(unsigned(&id, i as i64), true), Ok(()));
        assert!(chain.mine_block_at(10 + i as i64).is_ok());
    }
    chain
}

#[test]
fn new_chain_has_only_the_genesis_block() {
    let chain = Blockchain::new();
    assert_eq!(chain.blocks.len(), 1);
    let genesis = &chain.blocks[0];
    assert_eq!(genesis.poh_count, 0);
    assert_eq!(genesis.previous_hash, zeros64());
    assert_eq!(genesis.previous_hash.len(), 64);
    assert_eq!(genesis.hash, genesis.compute_hash());
    assert_eq!(genesis.hash.len(), 64);
    assert!(genesis.hash_matches());
    assert_eq!(genesis.poh_hash, zeros64());
    assert!(genesis.transactions.is_empty());
    assert!(genesis.timestamp > 0);
    assert!(chain.pending_transactions.is_empty());
    assert_eq!(chain.transaction_pool.len(), 0);
    assert_eq!(chain.poh_verifier.count, 0);
    assert_eq!(chain.poh_verifier.current_hash, zeros64());
    assert_eq!(chain.verify(), Ok(()));
}

#[test]
fn genesis_at_records_the_given_time() {
    let chain = Blockchain::genesis_at(-42);
    assert_eq!(chain.blocks.len(), 1);
    assert_eq!(chain.blocks[0].timestamp, -42);
    assert!(has_genesis_form(&chain.blocks[0]));
    assert_eq!(
        chain.blocks[0].hash,
        "0ff8e378f1dcaa91ad1a0d2f48d7347efda252acbabbc354cd8e0aa439a907c2"
    );
    assert_eq!(Blockchain::genesis_at(0).blocks[0].hash, GENESIS_AT_0);
}

#[test]
fn genesis_block_is_hashed_like_every_block() {
    let mut chain = chain_of(3);
    assert_eq!(chain.verify(), Ok(()));
    assert_eq!(chain.blocks[0].hash, chain.blocks[0].compute_hash());
    assert_eq!(chain.blocks[1].previous_hash, chain.blocks[0].hash);

    chain.blocks[0].timestamp += 1;
    assert!(!has_genesis_form(&chain.blocks[0]));
    assert_eq!(chain.verify(), Err(CorruptionError { index: 0 }));

    chain.blocks[0].hash = chain.blocks[0].compute_hash();
    assert!(has_genesis_form(&chain.blocks[0]));
    assert_eq!(chain.verify(), Err(CorruptionError { index: 1 }));

    let mut zeroed = Blockchain::genesis_at(5);
    zeroed.blocks[0].hash = zeros64();
    assert_eq!(zeroed.verify(), Err(CorruptionError { index: 0 }));
}

#[test]
fn admitted_then_rejected_then_mined() {
    let signer = key(1);
    let public = signer.verifying_key().to_bytes();
    let mut chain = Blockchain::genesis_at(5);
    let a = signed("A", 10, &signer);
    let b = signed("B", -5, &signer);
    assert_eq!(chain.add_transaction(a.clone(), &public), Ok(()));
    assert_eq!(
        chain.add_transaction(b, &public),
        Err(ValidationError::NonPositiveAmount)
    );
    assert_eq!(chain.pending_transactions, vec![a.clone()]);
    assert_eq!(chain.transaction_pool.len(), 1);
    assert_eq!(chain.transaction_pool.get("A"), Some(&a));
    assert!(!chain.transaction_pool.contains_key("B"));
    let block = chain.mine_block().unwrap();
    assert_eq!(block.transactions, vec![a]);
    assert_eq!(chain.blocks.len(), 2);
    assert_eq!(chain.blocks[1], block);
    assert!(chain.pending_transactions.is_empty());
    assert_eq!(chain.transaction_pool.len(), 0);
    assert_eq!(chain.verify(), Ok(()));
}

#[test]
fn block_holds_transactions_in_order_of_admission() {
    let signer = key(2);
    let public = signer.verifying_key().to_bytes();
    let mut chain = Blockchain::genesis_at(0);
    let a = signed("A", 1, &signer);
    let b = signed("B", 2, &signer);
    assert_eq!(chain.add_transaction(a.clone(), &public), Ok(()));
    assert_eq!(chain.add_transaction(b.clone(), &public), Ok(()));
    let block = chain.mine_block_at(77).unwrap();
    assert_eq!(block.transactions, vec![a, b]);
    assert_eq!(block.timestamp, 77);
    assert!(chain.pending_transactions.is_empty());
    assert_eq!(chain.transaction_pool.len(), 0);
}

#[test]
fn second_admission_of_an_identifier_is_rejected() {
    let mut chain = Blockchain::genesis_at(0);
    let first = unsigned("dup", 10);
    let mut second = unsigned("dup", 99);
    second.to = "carol".to_string();
    assert_eq!(chain.accept(first.clone(), true), Ok(()));
    assert_eq!(
        chain.accept(second, true),
        Err(ValidationError::DuplicateId)
    );
    assert_eq!(chain.pending_transactions, vec![first.clone()]);
    assert_eq!(chain.transaction_pool.len(), 1);
    assert_eq!(chain.transaction_pool.get("dup"), Some(&first));
}

#[test]
fn sealed_identifier_stays_taken() {
    let mut chain = Blockchain::genesis_at(0);
    assert_eq!(chain.accept(unsigned("once", 10), true), Ok(()));
    chain.mine_block_at(1).unwrap();
    assert!(!chain.transaction_pool.contains_key("once"));
    assert!(chain.is_sealed_id("once"));
    assert!(chain.is_known_id("once"));
    assert!(!chain.is_known_id("never"));
    assert_eq!(
        chain.accept(unsigned("once", 10), true),
        Err(ValidationError::DuplicateId)
    );
    assert!(chain.pending_transactions.is_empty());
}

#[test]
fn zero_and_negative_amounts_are_rejected() {
    let mut chain = Blockchain::genesis_at(0);
    for amount in [0, -1, i64::MIN] {
        assert_eq!(
            chain.accept(unsigned("bad", amount), true),
            Err(ValidationError::NonPositiveAmount)
        );
    }
    assert!(chain.pending_transactions.is_empty());
    assert_eq!(chain.transaction_pool.len(), 0);
    let block = chain.mine_block_at(1).unwrap();
    assert!(block.transactions.is_empty());
    assert_eq!(chain.accept(unsigned("good", 1), true), Ok(()));
}

#[test]
fn amount_is_looked_at_before_the_identifier() {
    let mut chain = Blockchain::genesis_at(0);
    assert_eq!(chain.accept(unsigned("x", 1), true), Ok(()));
    assert_eq!(
        chain.accept(unsigned("x", 0), false),
        Err(ValidationError::NonPositiveAmount)
    );
    assert_eq!(
        chain.accept(unsigned("x", 1), false),
        Err(ValidationError::DuplicateId)
    );
    assert_eq!(
        chain.screen(&unsigned("y", 1)),
        Ok(())
    );
}

#[test]
fn bad_signature_is_rejected() {
    let signer = key(3);
    let other = key(4);
    let public = signer.verifying_key().to_bytes();
    let mut chain = Blockchain::genesis_at(0);

    let mut forged = signed("F", 10, &signer);
    forged.amount = 11;
    assert_eq!(
        chain.add_transaction(forged, &public),
        Err(ValidationError::InvalidSignature)
    );
    let by_other = signed("G", 10, &other);
    assert_eq!(
        chain.add_transaction(by_other, &public),
        Err(ValidationError::InvalidSignature)
    );
    let good = signed("H", 10, &signer);
    assert_eq!(
        chain.add_transaction(good.clone(), &public[..31]),
        Err(ValidationError::InvalidSignature)
    );
    let mut short = good.clone();
    short.signature.pop();
    assert_eq!(
        chain.add_transaction(short, &public),
        Err(ValidationError::InvalidSignature)
    );
    assert_eq!(chain.accept(good.clone(), false), Err(ValidationError::InvalidSignature));
    assert!(chain.pending_transactions.is_empty());
    assert_eq!(chain.add_transaction(good, &public), Ok(()));
    assert_eq!(chain.pending_transactions.len(), 1);
}

#[test]
fn key_must_be_the_key_of_the_claimed_sender() {
    let signer = key(3);
    let other = key(4);
    let public = signer.verifying_key().to_bytes();
    let other_public = other.verifying_key().to_bytes();
    let mut chain = Blockchain::genesis_at(0);

    let mut claims_other = unsigned("I", 10);
    claims_other.from = address_of(&other);
    claims_other.signature = signer.sign(&claims_other.signing_bytes()).to_bytes().to_vec();
    assert!(poh_ledger::signature::verify_signature(
        &claims_other.signing_bytes(),
        &claims_other.signature,
        &public
    ));
    assert!(!Blockchain::is_signed_by_sender(&claims_other, &public));
    assert_eq!(
        chain.add_transaction(claims_other.clone(), &public),
        Err(ValidationError::InvalidSignature)
    );
    assert_eq!(
        chain.add_transaction(claims_other, &other_public),
        Err(ValidationError::InvalidSignature)
    );

    let mut by_name = unsigned("J", 10);
    by_name.signature = signer.sign(&by_name.signing_bytes()).to_bytes().to_vec();
    assert_eq!(by_name.from, "alice");
    assert_eq!(
        chain.add_transaction(by_name, &public),
        Err(ValidationError::InvalidSignature)
    );
    assert!(chain.pending_transactions.is_empty());

    let good = signed("K", 10, &signer);
    assert_eq!(good.from, address_of(&signer));
    assert_eq!(good.from.chars().count(), 16);
    assert!(Blockchain::is_signed_by_sender(&good, &public));
    assert_eq!(chain.add_transaction(good, &public), Ok(()));
}

#[test]
fn clock_counts_rise_by_one_per_block() {
    let mut chain = Blockchain::genesis_at(0);
    let mut counts = Vec::new();
    for i in 0..6 {
        counts.push(chain.mine_block_at(i).unwrap().poh_count);
    }
    assert_eq!(counts, vec![1, 2, 3, 4, 5, 6]);
    assert_eq!(chain.poh_verifier.count, 6);
    assert_eq!(chain.blocks[1].poh_hash, TICK_1);
    assert_eq!(chain.blocks[2].poh_hash, TICK_2);
    assert_eq!(chain.verify(), Ok(()));
}

#[test]
fn mined_block_is_linked_stamped_and_hashed() {
    let mut chain = Blockchain::genesis_at(0);
    let empty = chain.mine_block_at(9).unwrap();
    assert_eq!(empty.previous_hash, GENESIS_AT_0);
    assert_eq!(empty.poh_hash, TICK_1);
    assert_eq!(empty.poh_count, 1);
    assert_eq!(
        empty.hash,
        "40c2a1c99fc2901982d24ce6102a46aafa51dd009f68cca96f2b60c848d73bc1"
    );
    assert_eq!(empty.compute_hash(), empty.hash);
    assert!(empty.hash_matches());

    assert_eq!(chain.accept(unsigned("A", 10), true), Ok(()));
    let second = chain.mine_block_at(10).unwrap();
    assert_eq!(second.previous_hash, empty.hash);
    assert_eq!(second.poh_hash, TICK_2);
    assert_eq!(second.poh_count, 2);
    assert!(follows(&chain.blocks[1], &chain.blocks[2]));
    let recomputed = format!("{:x}", Sha256::digest(second.canonical_bytes()));
    assert_eq!(second.hash, recomputed);
}

#[test]
fn block_hash_of_one_transaction_is_known() {
    let mut chain = Blockchain::genesis_at(0);
    assert_eq!(chain.accept(unsigned("A", 10), true), Ok(()));
    let block = chain.mine_block_at(9).unwrap();
    assert_eq!(
        block.hash,
        "2a7f58e9f5878bc59e1143d83ecda9294abae9108ec345a80f04054d490390d4"
    );
}

#[test]
fn links_and_hashes_hold_along_the_chain() {
    let chain = chain_of(5);
    assert_eq!(chain.blocks.len(), 5);
    for i in 1..chain.blocks.len() {
        assert_eq!(chain.blocks[i].previous_hash, chain.blocks[i - 1].hash);
        assert_eq!(chain.blocks[i].compute_hash(), chain.blocks[i].hash);
        assert_eq!(chain.blocks[i].poh_count, chain.blocks[i - 1].poh_count + 1);
    }
    assert_eq!(chain.verify(), Ok(()));
}

#[test]
fn flipped_byte_in_a_sealed_transaction_is_found() {
    let mut chain = chain_of(4);
    chain.blocks[2].transactions[0].signature[0] ^= 1;
    assert_eq!(chain.verify(), Err(CorruptionError { index: 2 }));

    let mut chain = chain_of(4);
    chain.blocks[1].transactions[0].id = "tx-!".to_string();
    assert_eq!(chain.verify(), Err(CorruptionError { index: 1 }));

    let mut chain = chain_of(4);
    chain.blocks[3].transactions[0].amount += 1;
    assert_eq!(chain.verify(), Err(CorruptionError { index: 3 }));
}

#[test]
fn first_failure_is_the_one_reported() {
    let mut chain = chain_of(5);
    chain.blocks[3].timestamp += 1;
    chain.blocks[1].timestamp += 1;
    assert_eq!(chain.verify(), Err(CorruptionError { index: 1 }));
}

#[test]
fn broken_link_stamp_and_genesis_are_found() {
    let mut chain = chain_of(3);
    chain.blocks[1].hash = chain.blocks[1].hash.replace(|_: char| true, "f");
    assert_eq!(chain.verify(), Err(CorruptionError { index: 1 }));

    let mut chain = chain_of(3);
    let relinked = {
        let mut b = chain.blocks[2].clone();
        b.previous_hash = zeros64();
        b.hash = b.compute_hash();
        b
    };
    chain.blocks[2] = relinked;
    assert!(chain.blocks[2].hash_matches());
    assert_eq!(chain.verify(), Err(CorruptionError { index: 2 }));

    let mut chain = chain_of(3);
    let restamped = {
        let mut b = chain.blocks[2].clone();
        b.poh_count = 7;
        b.hash = b.compute_hash();
        b
    };
    chain.blocks[2] = restamped;
    assert_eq!(chain.verify(), Err(CorruptionError { index: 2 }));

    let mut chain = chain_of(3);
    chain.blocks[0].poh_count = 1;
    assert_eq!(chain.verify(), Err(CorruptionError { index: 0 }));
    assert!(!has_genesis_form(&chain.blocks[0]));

    let mut chain = chain_of(3);
    chain.blocks.remove(1);
    assert_eq!(chain.verify(), Err(CorruptionError { index: 1 }));
}

#[test]
fn empty_chain_cannot_mine() {
    let mut chain = Blockchain::genesis_at(0);
    chain.blocks.clear();
    assert_eq!(chain.accept(unsigned("kept", 1), true), Ok(()));
    assert_eq!(chain.mine_block_at(1), Err(MiningError::EmptyChain));
    assert_eq!(chain.mine_block(), Err(MiningError::EmptyChain));
    assert_eq!(chain.pending_transactions.len(), 1);
    assert_eq!(chain.verify(), Err(CorruptionError { index: 0 }));
    assert_eq!(chain.latest(), None);
    assert_eq!(chain.poh_verifier.count, 0);
}

#[test]
fn exhausted_clock_cannot_mine() {
    let mut chain = Blockchain::genesis_at(0);
    chain.poh_verifier.count = u64::MAX;
    assert_eq!(chain.accept(unsigned("kept", 1), true), Ok(()));
    assert_eq!(chain.mine_block_at(1), Err(MiningError::ClockExhausted));
    assert_eq!(chain.blocks.len(), 1);
    assert_eq!(chain.pending_transactions.len(), 1);
    assert_eq!(chain.transaction_pool.len(), 1);
    assert_eq!(chain.poh_verifier.count, u64::MAX);

    chain.poh_verifier.count = u64::MAX - 1;
    let block = chain.mine_block_at(1).unwrap();
    assert_eq!(block.poh_count, u64::MAX);
}

#[test]
fn latest_and_get_find_blocks() {
    let chain = chain_of(4);
    assert_eq!(chain.latest(), Some(&chain.blocks[3]));
    let wanted = chain.blocks[2].hash.clone();
    assert_eq!(chain.get(&wanted), Some(&chain.blocks[2]));
    let first = chain.blocks[0].hash.clone();
    assert_eq!(chain.get(&first), Some(&chain.blocks[0]));
    assert_eq!(chain.get(&zeros64()), None);
    assert_eq!(chain.get("no such hash"), None);

    let mut twice = chain_of(3);
    let copy: Block = twice.blocks[1].clone();
    twice.blocks.push(copy);
    let hash = twice.blocks[1].hash.clone();
    let found = twice.get(&hash).unwrap();
    assert!(std::ptr::eq(found, &twice.blocks[1]));
}

#[test]
fn sealed_blocks_never_change() {
    let mut chain = chain_of(3);
    let before: Vec<Block> = chain.blocks.clone();
    assert_eq!(chain.accept(unsigned("later", 3), true), Ok(()));
    assert_eq!(chain.blocks, before);
    chain.mine_block_at(50).unwrap();
    assert_eq!(chain.blocks[..3], before[..]);
    assert_eq!(chain.blocks.len(), 4);
}

#[test]
fn rejections_and_failures_carry_a_reason() {
    assert_eq!(
        ValidationError::NonPositiveAmount.reason(),
        "transaction amount must be positive"
    );
    assert_eq!(
        ValidationError::DuplicateId.reason(),
        "transaction identifier already used"
    );
    assert_eq!(
        ValidationError::InvalidSignature.reason(),
        "Invalid transaction signature"
    );
    assert_eq!(MiningError::EmptyChain.reason(), "chain has no genesis block");
    assert_eq!(
        MiningError::ClockExhausted.reason(),
        "hash clock count exhausted"
    );
    assert_eq!(
        CorruptionError { index: 0 }.reason(),
        "chain corrupted at block 0"
    );
    assert_eq!(
        CorruptionError { index: 1205 }.reason(),
        "chain corrupted at block 1205"
    );
}

#[test]
fn transaction_signed_by_its_sender_is_admitted() {
    let (public, secret) = poh_ledger::signature::generate_keypair();
    let mut t = unsigned("signed-here", 12);
    t.from = generate_wallet_address(&public);
    let before = t.clone();
    assert!(!t.sign(&secret[..31]));
    assert_eq!(t, before);
    assert!(t.sign(&secret));
    assert_eq!(t.signature.len(), 64);
    assert_eq!(t.id, before.id);
    assert_eq!(t.from, before.from);
    assert_eq!(t.to, before.to);
    assert_eq!(t.amount, before.amount);
    assert_eq!(t.timestamp, before.timestamp);
    assert_eq!(t.signing_bytes(), before.signing_bytes());
    assert!(poh_ledger::signature::verify_signature(
        &t.signing_bytes(),
        &t.signature,
        &public
    ));

    let mut chain = Blockchain::genesis_at(1);
    let (stranger, _) = poh_ledger::signature::generate_keypair();
    assert_eq!(
        chain.add_transaction(t.clone(), &stranger),
        Err(ValidationError::InvalidSignature)
    );
    assert_eq!(chain.add_transaction(t.clone(), &public), Ok(()));
    assert_eq!(chain.pending_transactions, vec![t]);
}

#[test]
fn signing_agrees_with_the_key_of_the_standard() {
    let signer = key(5);
    let mut here = unsigned("same", 3);
    here.from = address_of(&signer);
    assert!(here.sign(&signer.to_bytes()));
    assert_eq!(here, signed("same", 3, &signer));
}
