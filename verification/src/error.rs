//! What can go wrong in the ledger, each kind with its reason in words.

use crate::encoding::{ascii_text, decimal_text, push_decimal};
use vstd::prelude::*;
use vstd::string::StringExecFns;

verus! {

/// Why a transaction was not admitted into the pool.
#[derive(Debug, Clone, Copy, PartialEq, Eq, Structural)]
pub enum ValidationError {
    /// The amount is zero or negative.
    NonPositiveAmount,
    /// The identifier is already in the pool or in a sealed block.
    DuplicateId,
    /// The signature does not verify under the sender's public key.
    InvalidSignature,
}

/// Why no block was produced.
#[derive(Debug, Clone, Copy, PartialEq, Eq, Structural)]
pub enum MiningError {
    /// The chain holds no block, not even a genesis block, to link to.
    EmptyChain,
    /// The hash clock has reached the largest count it can record.
    ClockExhausted,
}

/// A block whose hash, clock stamp or link to its predecessor does not
/// check out.
#[derive(Debug, Clone, Copy, PartialEq, Eq, Structural)]
pub struct CorruptionError {
    /// The position in the chain of the first block that fails.
    pub index: usize,
}

/// How long a request waits for exclusive access to the ledger, in
/// milliseconds.
pub const EXCLUSIVE_WAIT_MILLIS: u64 = 5_000;

/// Exclusive access to the ledger was not had within the wait allowed.
/// Nothing was changed, and the caller may try again.
#[derive(Debug, Clone, Copy, PartialEq, Eq, Structural)]
pub struct ConcurrencyError {
    /// How long the caller waited, in milliseconds.
    pub waited_millis: u64,
}

/// Why block production stopped: the chain is corrupt, which calls for the
/// operator; no block can be produced on the sound chain; or the ledger was
/// busy, which passes.
#[derive(Debug, Clone, Copy, PartialEq, Eq, Structural)]
pub enum ProductionError {
    /// The chain failed verification; nothing is produced on top of it.
    Corrupt(CorruptionError),
    /// The chain is sound but no block can be produced.
    Blocked(MiningError),
    /// The ledger was in use by another request for the whole wait.
    Busy(ConcurrencyError),
}

impl ValidationError {
    /// The reason for the rejection in words.
    pub open spec fn reason_text(&self) -> Seq<char> {
        match *self {
            ValidationError::NonPositiveAmount => "transaction amount must be positive"@,
            ValidationError::DuplicateId => "transaction identifier already used"@,
            ValidationError::InvalidSignature => "Invalid transaction signature"@,
        }
    }

    /// The reason for the rejection, for the caller to read.
    pub fn reason(&self) -> (text: String)
        ensures
            text@ == self.reason_text(),
    {
        match self {
            ValidationError::NonPositiveAmount => String::from_str(
                "transaction amount must be positive",
            ),
            ValidationError::DuplicateId => String::from_str("transaction identifier already used"),
            ValidationError::InvalidSignature => String::from_str("Invalid transaction signature"),
        }
    }
}

impl MiningError {
    /// The reason why no block was produced, in words.
    pub open spec fn reason_text(&self) -> Seq<char> {
        match *self {
            MiningError::EmptyChain => "chain has no genesis block"@,
            MiningError::ClockExhausted => "hash clock count exhausted"@,
        }
    }

    /// The reason why no block was produced, for the caller to read.
    pub fn reason(&self) -> (text: String)
        ensures
            text@ == self.reason_text(),
    {
        match self {
            MiningError::EmptyChain => String::from_str("chain has no genesis block"),
            MiningError::ClockExhausted => String::from_str("hash clock count exhausted"),
        }
    }
}

impl CorruptionError {
    /// The reason in words: that the chain is corrupt, and the position of
    /// the first block that fails, in decimal.
    pub open spec fn reason_text(&self) -> Seq<char> {
        "chain corrupted at block "@ + ascii_text(decimal_text(self.index as nat))
    }

    /// The reason in words, for the operator to read.
    pub fn reason(&self) -> (text: String)
        ensures
            text@ == self.reason_text(),
    {
        let mut text = String::from_str("chain corrupted at block ");
        push_decimal(&mut text, self.index as u64);
        text
    }
}

impl ConcurrencyError {
    /// The reason in words: that the ledger was busy, and for how many
    /// milliseconds the caller waited, in decimal.
    pub open spec fn reason_text(&self) -> Seq<char> {
        "ledger busy, no exclusive access after "@ + ascii_text(
            decimal_text(self.waited_millis as nat),
        ) + " ms"@
    }

    /// The reason in words, for the caller to read.
    pub fn reason(&self) -> (text: String)
        ensures
            text@ == self.reason_text(),
    {
        let mut text = String::from_str("ledger busy, no exclusive access after ");
        push_decimal(&mut text, self.waited_millis);
        text.append(" ms");
        text
    }
}

impl ProductionError {
    /// The reason in words: that of the cause.
    pub open spec fn reason_text(&self) -> Seq<char> {
        match *self {
            ProductionError::Corrupt(e) => e.reason_text(),
            ProductionError::Blocked(e) => e.reason_text(),
            ProductionError::Busy(e) => e.reason_text(),
        }
    }

    /// The reason in words, for the operator to read.
    pub fn reason(&self) -> (text: String)
        ensures
            text@ == self.reason_text(),
    {
        match self {
            ProductionError::Corrupt(e) => e.reason(),
            ProductionError::Blocked(e) => e.reason(),
            ProductionError::Busy(e) => e.reason(),
        }
    }
}

} // verus!
