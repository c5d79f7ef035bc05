//! Transactions and their canonical bytes.

use crate::encoding::{
    append_bytes_field, append_i64, append_text_field, bytes_field, i64_field, text_field,
};
use crate::signature::{
    ed25519_public_key, ed25519_signature, sign_message, signature_verifies,
};
use vstd::prelude::*;

verus! {

/// A transfer request. Amounts are whole numbers of the smallest unit;
/// timestamps are milliseconds since the Unix epoch.
#[derive(Debug, PartialEq, Eq)]
pub struct Transaction {
    pub id: String,
    /// The sender, named by the wallet address of its public key.
    pub from: String,
    pub to: String,
    pub amount: i64,
    pub timestamp: i64,
    pub signature: Vec<u8>,
}

/// A transaction as a mathematical value.
pub struct TransactionView {
    pub id: Seq<char>,
    pub from: Seq<char>,
    pub to: Seq<char>,
    pub amount: i64,
    pub timestamp: i64,
    pub signature: Seq<u8>,
}

impl View for Transaction {
    type V = TransactionView;

    open spec fn view(&self) -> TransactionView {
        TransactionView {
            id: self.id@,
            from: self.from@,
            to: self.to@,
            amount: self.amount,
            timestamp: self.timestamp,
            signature: self.signature@,
        }
    }
}

/// The views of a sequence of transactions, in the same order.
pub open spec fn transaction_views(transactions: Seq<Transaction>) -> Seq<TransactionView> {
    transactions.map_values(|t: Transaction| t@)
}

/// The bytes that a sender signs: identifier, sender, recipient, amount and
/// timestamp, each as a framed field, in that order. The signature itself is
/// not part of them.
pub open spec fn signing_message(t: TransactionView) -> Seq<u8> {
    text_field(t.id) + text_field(t.from) + text_field(t.to) + i64_field(t.amount) + i64_field(
        t.timestamp,
    )
}

/// The canonical bytes of a transaction: the signed bytes followed by the
/// signature as a framed field.
pub open spec fn transaction_bytes(t: TransactionView) -> Seq<u8> {
    signing_message(t) + bytes_field(t.signature)
}

impl Clone for Transaction {
    fn clone(&self) -> (copy: Transaction)
        ensures
            copy@ == self@,
    {
        Transaction {
            id: self.id.clone(),
            from: self.from.clone(),
            to: self.to.clone(),
            amount: self.amount,
            timestamp: self.timestamp,
            signature: self.signature.clone(),
        }
    }
}

impl Transaction {
    /// Appends the bytes that the sender signs.
    pub fn append_signing_message(&self, out: &mut Vec<u8>)
        ensures
            final(out)@ == old(out)@ + signing_message(self@),
    {
        append_text_field(out, self.id.as_str());
        append_text_field(out, self.from.as_str());
        append_text_field(out, self.to.as_str());
        append_i64(out, self.amount);
        append_i64(out, self.timestamp);
    }

    /// The bytes that the sender signs.
    pub fn signing_bytes(&self) -> (bytes: Vec<u8>)
        ensures
            bytes@ == signing_message(self@),
    {
        let mut out: Vec<u8> = Vec::new();
        self.append_signing_message(&mut out);
        out
    }

    /// Signs the transaction with the sender's secret key: the signature
    /// becomes the signature of the signing bytes, which verifies under the
    /// public key that belongs to the secret key. A key that is not 32 bytes
    /// long signs nothing and leaves the transaction as it was.
    pub fn sign(&mut self, secret_key: &[u8]) -> (signed: bool)
        ensures
            signed == (secret_key@.len() == 32),
            !signed ==> final(self)@ == old(self)@,
            signed ==> {
                &&& final(self)@ == (TransactionView {
                    signature: ed25519_signature(secret_key@, signing_message(old(self)@)),
                    ..old(self)@
                })
                &&& signature_verifies(
                    ed25519_public_key(secret_key@),
                    signing_message(final(self)@),
                    final(self)@.signature,
                )
            },
    {
        let message = self.signing_bytes();
        match sign_message(message.as_slice(), secret_key) {
            Some(signature) => {
                self.signature = signature;
                true
            },
            None => false,
        }
    }

    /// Appends the canonical bytes of the transaction.
    pub fn append_canonical_bytes(&self, out: &mut Vec<u8>)
        ensures
            final(out)@ == old(out)@ + transaction_bytes(self@),
    {
        self.append_signing_message(out);
        append_bytes_field(out, self.signature.as_slice());
    }

    /// The canonical bytes of the transaction.
    pub fn canonical_bytes(&self) -> (bytes: Vec<u8>)
        ensures
            bytes@ == transaction_bytes(self@),
    {
        let mut out: Vec<u8> = Vec::new();
        self.append_canonical_bytes(&mut out);
        out
    }
}

} // verus!
