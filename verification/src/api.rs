//! The envelope in which every answer leaves the ledger, and the requests
//! that come in.

use crate::block::Block;
use crate::error::{CorruptionError, MiningError, ProductionError, ValidationError};
use vstd::prelude::*;

verus! {

/// The uniform envelope of an answer: either it succeeded and carries
/// data, or it failed and carries the reason.
#[derive(Debug, PartialEq, Eq)]
pub struct ApiResponse<T> {
    pub success: bool,
    pub data: Option<T>,
    pub error: Option<String>,
}

/// A request to create a wallet.
#[derive(Debug, Clone, PartialEq, Eq)]
pub struct CreateWalletRequest {
    pub email: String,
    pub pin: String,
}

/// A request to transfer an amount, in whole numbers of the smallest unit.
#[derive(Debug, Clone, PartialEq, Eq)]
pub struct TransferRequest {
    pub from: String,
    pub to: String,
    pub amount: i64,
}

/// A request to file a proposal.
#[derive(Debug, Clone, PartialEq, Eq)]
pub struct CreateProposalRequest {
    pub title: String,
    pub description: String,
    pub budget_amount: i64,
}

impl<T> ApiResponse<T> {
    /// Whether the envelope is one of the two forms it can take: success
    /// with data and no error, or failure with an error and no data.
    pub open spec fn well_formed(&self) -> bool {
        if self.success {
            self.data is Some && self.error is None
        } else {
            self.data is None && self.error is Some
        }
    }

    /// The envelope of a success.
    pub fn ok(data: T) -> (response: ApiResponse<T>)
        ensures
            response.success,
            response.data == Some(data),
            response.error is None,
            response.well_formed(),
    {
        ApiResponse { success: true, data: Some(data), error: None }
    }

    /// The envelope of a failure.
    pub fn fail(reason: String) -> (response: ApiResponse<T>)
        ensures
            !response.success,
            response.data is None,
            response.error == Some(reason),
            response.well_formed(),
    {
        ApiResponse { success: false, data: None, error: Some(reason) }
    }
}

/// The answer to a submission: the transaction's identifier when it was
/// admitted, the reason for the rejection when it was not.
pub fn admission_response(id: &str, verdict: &Result<(), ValidationError>) -> (response:
    ApiResponse<String>)
    ensures
        response.well_formed(),
        response.success == (verdict is Ok),
        verdict is Ok ==> response.data.unwrap()@ == id@,
        verdict matches Err(e) ==> response.error.unwrap()@ == e.reason_text(),
{
    match verdict {
        Ok(_) => ApiResponse::ok(id.to_owned()),
        Err(e) => ApiResponse::fail(e.reason()),
    }
}

/// The answer to a request to mine: the sealed block, or the reason why
/// none was produced.
pub fn mining_response(outcome: Result<Block, MiningError>) -> (response: ApiResponse<Block>)
    ensures
        response.well_formed(),
        response.success == (outcome is Ok),
        outcome matches Ok(block) ==> response.data == Some(block),
        outcome matches Err(e) ==> response.error.unwrap()@ == e.reason_text(),
{
    match outcome {
        Ok(block) => ApiResponse::ok(block),
        Err(e) => ApiResponse::fail(e.reason()),
    }
}

/// The answer to a request to produce a block on a verified chain: the
/// sealed block, or the reason why production stopped.
pub fn production_response(outcome: Result<Block, ProductionError>) -> (response: ApiResponse<
    Block,
>)
    ensures
        response.well_formed(),
        response.success == (outcome is Ok),
        outcome matches Ok(block) ==> response.data == Some(block),
        outcome matches Err(e) ==> response.error.unwrap()@ == e.reason_text(),
{
    match outcome {
        Ok(block) => ApiResponse::ok(block),
        Err(e) => ApiResponse::fail(e.reason()),
    }
}

/// The answer to a request to verify the chain: on success the number of
/// blocks that were checked; on corruption a failure that names the
/// position of the first block that fails.
pub fn verification_response(verdict: &Result<(), CorruptionError>, blocks: usize) -> (response:
    ApiResponse<usize>)
    ensures
        response.well_formed(),
        response.success == (verdict is Ok),
        verdict is Ok ==> response.data == Some(blocks),
        verdict matches Err(e) ==> response.error.unwrap()@ == e.reason_text(),
{
    match verdict {
        Ok(_) => ApiResponse::ok(blocks),
        Err(e) => ApiResponse::fail(e.reason()),
    }
}

} // verus!
