//! What the ledger tells its peers: the messages of the network, and the
//! rule that decides which message follows which outcome.

use crate::block::Block;
use crate::error::{MiningError, ProductionError, ValidationError};
use crate::transaction::Transaction;
use vstd::prelude::*;

verus! {

/// What is known of a peer. The time is in milliseconds since the Unix
/// epoch.
#[derive(Debug, Clone, PartialEq, Eq)]
pub struct PeerInfo {
    pub address: String,
    pub version: String,
    pub last_seen: i64,
}

/// A message between peers.
#[derive(Debug, Clone, PartialEq, Eq)]
pub enum NetworkMessage {
    /// A block was sealed.
    NewBlock(Block),
    /// A transaction was admitted into the pool.
    NewTransaction(Transaction),
    /// A request for the blocks with these hashes.
    GetBlocks(Vec<String>),
    /// The answer to `GetBlocks`.
    Blocks(Vec<Block>),
    /// A request for the known peers.
    GetPeers,
    /// The answer to `GetPeers`.
    Peers(Vec<PeerInfo>),
}

/// The message that follows an attempt to admit `transaction`: the
/// transaction is announced exactly when it was admitted.
pub fn admission_event(verdict: &Result<(), ValidationError>, transaction: &Transaction) -> (event:
    Option<NetworkMessage>)
    ensures
        verdict is Err ==> event is None,
        verdict is Ok ==> (event matches Some(NetworkMessage::NewTransaction(t)) && t@
            == transaction@),
{
    match verdict {
        Ok(_) => Some(NetworkMessage::NewTransaction(transaction.clone())),
        Err(_) => None,
    }
}

/// The message that follows an attempt to mine: the block is announced
/// exactly when one was sealed.
pub fn mining_event(outcome: &Result<Block, MiningError>) -> (event: Option<NetworkMessage>)
    ensures
        outcome is Err ==> event is None,
        outcome matches Ok(block) ==> (event matches Some(NetworkMessage::NewBlock(b)) && b@
            == block@),
{
    match outcome {
        Ok(block) => Some(NetworkMessage::NewBlock(block.clone())),
        Err(_) => None,
    }
}

/// The message that follows an attempt to produce a block on a verified
/// chain: the block is announced exactly when one was sealed.
pub fn production_event(outcome: &Result<Block, ProductionError>) -> (event: Option<
    NetworkMessage,
>)
    ensures
        outcome is Err ==> event is None,
        outcome matches Ok(block) ==> (event matches Some(NetworkMessage::NewBlock(b)) && b@
            == block@),
{
    match outcome {
        Ok(block) => Some(NetworkMessage::NewBlock(block.clone())),
        Err(_) => None,
    }
}

} // verus!
