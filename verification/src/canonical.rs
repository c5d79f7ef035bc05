//! The canonical bytes are unambiguous: the bytes of a transaction or of a
//! block determine every field that went into them. A change to any hashed
//! field therefore changes the bytes that are hashed.

use crate::block::{block_preimage, transactions_bytes, BlockView};
use crate::encoding::{biased, bytes_field, i64_field, text_field, u64_field};
use crate::transaction::{signing_message, transaction_bytes, TransactionView};
use vstd::bytes::lemma_auto_spec_u64_to_from_le_bytes;
use vstd::prelude::*;
use vstd::utf8::{encode_utf8, encode_utf8_decode_utf8};

verus! {

/// Whether the length of a byte string can be written in a length field.
pub open spec fn fits(bytes: Seq<u8>) -> bool {
    bytes.len() <= u64::MAX
}

/// Whether every variable-length field of a transaction fits its length
/// field. This holds of every transaction that exists in memory.
pub open spec fn transaction_fits(t: TransactionView) -> bool {
    &&& fits(encode_utf8(t.id))
    &&& fits(encode_utf8(t.from))
    &&& fits(encode_utf8(t.to))
    &&& fits(t.signature)
}

/// Whether every variable-length field of a block fits its length field.
/// This holds of every block that exists in memory.
pub open spec fn block_fits(b: BlockView) -> bool {
    &&& fits(encode_utf8(b.previous_hash))
    &&& fits(encode_utf8(b.poh_hash))
    &&& b.transactions.len() <= u64::MAX
    &&& forall|i: int|
        0 <= i < b.transactions.len() ==> transaction_fits(#[trigger] b.transactions[i])
}

/// Two byte strings of equal length, each followed by a rest, make the same
/// whole only if they are equal and the rests are equal.
pub proof fn lemma_split(a: Seq<u8>, rest_a: Seq<u8>, b: Seq<u8>, rest_b: Seq<u8>)
    requires
        a.len() == b.len(),
        a + rest_a == b + rest_b,
    ensures
        a == b,
        rest_a == rest_b,
{
    assert(a =~= (a + rest_a).take(a.len() as int));
    assert(rest_a =~= (a + rest_a).skip(a.len() as int));
}

/// An integer field is eight bytes long and determines its integer.
pub proof fn lemma_u64_field(a: u64, b: u64)
    ensures
        u64_field(a).len() == 8,
        u64_field(a) == u64_field(b) ==> a == b,
{
    lemma_auto_spec_u64_to_from_le_bytes();
}

/// A signed integer field is eight bytes long and determines its integer.
pub proof fn lemma_i64_field(a: i64, b: i64)
    ensures
        i64_field(a).len() == 8,
        i64_field(a) == i64_field(b) ==> a == b,
{
    lemma_u64_field(biased(a), biased(b));
}

/// A byte field followed by a rest determines the bytes and the rest.
pub proof fn lemma_bytes_field_split(a: Seq<u8>, rest_a: Seq<u8>, b: Seq<u8>, rest_b: Seq<u8>)
    requires
        fits(a),
        fits(b),
        bytes_field(a) + rest_a == bytes_field(b) + rest_b,
    ensures
        a == b,
        rest_a == rest_b,
{
    let la = u64_field(a.len() as u64);
    let lb = u64_field(b.len() as u64);
    lemma_u64_field(a.len() as u64, b.len() as u64);
    lemma_u64_field(b.len() as u64, a.len() as u64);
    assert(bytes_field(a) + rest_a =~= la + (a + rest_a));
    assert(bytes_field(b) + rest_b =~= lb + (b + rest_b));
    lemma_split(la, a + rest_a, lb, b + rest_b);
    lemma_split(a, rest_a, b, rest_b);
}

/// A text field followed by a rest determines the text and the rest.
pub proof fn lemma_text_field_split(a: Seq<char>, rest_a: Seq<u8>, b: Seq<char>, rest_b: Seq<u8>)
    requires
        fits(encode_utf8(a)),
        fits(encode_utf8(b)),
        text_field(a) + rest_a == text_field(b) + rest_b,
    ensures
        a == b,
        rest_a == rest_b,
{
    lemma_bytes_field_split(encode_utf8(a), rest_a, encode_utf8(b), rest_b);
    encode_utf8_decode_utf8(a);
    encode_utf8_decode_utf8(b);
}

/// A signed integer field followed by a rest determines the integer and the
/// rest.
pub proof fn lemma_i64_field_split(a: i64, rest_a: Seq<u8>, b: i64, rest_b: Seq<u8>)
    requires
        i64_field(a) + rest_a == i64_field(b) + rest_b,
    ensures
        a == b,
        rest_a == rest_b,
{
    lemma_i64_field(a, b);
    lemma_i64_field(b, a);
    lemma_split(i64_field(a), rest_a, i64_field(b), rest_b);
}

/// An integer field followed by a rest determines the integer and the rest.
pub proof fn lemma_u64_field_split(a: u64, rest_a: Seq<u8>, b: u64, rest_b: Seq<u8>)
    requires
        u64_field(a) + rest_a == u64_field(b) + rest_b,
    ensures
        a == b,
        rest_a == rest_b,
{
    lemma_u64_field(a, b);
    lemma_u64_field(b, a);
    lemma_split(u64_field(a), rest_a, u64_field(b), rest_b);
}

/// The signed bytes of a transaction, followed by a rest, determine the
/// signed fields and the rest.
pub proof fn lemma_signing_message_split(
    a: TransactionView,
    rest_a: Seq<u8>,
    b: TransactionView,
    rest_b: Seq<u8>,
)
    requires
        transaction_fits(a),
        transaction_fits(b),
        signing_message(a) + rest_a == signing_message(b) + rest_b,
    ensures
        a.id == b.id,
        a.from == b.from,
        a.to == b.to,
        a.amount == b.amount,
        a.timestamp == b.timestamp,
        rest_a == rest_b,
{
    let a4 = i64_field(a.timestamp) + rest_a;
    let b4 = i64_field(b.timestamp) + rest_b;
    let a3 = i64_field(a.amount) + a4;
    let b3 = i64_field(b.amount) + b4;
    let a2 = text_field(a.to) + a3;
    let b2 = text_field(b.to) + b3;
    let a1 = text_field(a.from) + a2;
    let b1 = text_field(b.from) + b2;
    assert(signing_message(a) + rest_a =~= text_field(a.id) + a1);
    assert(signing_message(b) + rest_b =~= text_field(b.id) + b1);
    lemma_text_field_split(a.id, a1, b.id, b1);
    lemma_text_field_split(a.from, a2, b.from, b2);
    lemma_text_field_split(a.to, a3, b.to, b3);
    lemma_i64_field_split(a.amount, a4, b.amount, b4);
    lemma_i64_field_split(a.timestamp, rest_a, b.timestamp, rest_b);
}

/// The canonical bytes of a transaction, followed by a rest, determine the
/// transaction and the rest.
pub proof fn lemma_transaction_split(
    a: TransactionView,
    rest_a: Seq<u8>,
    b: TransactionView,
    rest_b: Seq<u8>,
)
    requires
        transaction_fits(a),
        transaction_fits(b),
        transaction_bytes(a) + rest_a == transaction_bytes(b) + rest_b,
    ensures
        a == b,
        rest_a == rest_b,
{
    let a1 = bytes_field(a.signature) + rest_a;
    let b1 = bytes_field(b.signature) + rest_b;
    assert(transaction_bytes(a) + rest_a =~= signing_message(a) + a1);
    assert(transaction_bytes(b) + rest_b =~= signing_message(b) + b1);
    lemma_signing_message_split(a, a1, b, b1);
    lemma_bytes_field_split(a.signature, rest_a, b.signature, rest_b);
}

/// The bytes of a list of transactions start with the bytes of the first.
pub proof fn lemma_transactions_bytes_front(transactions: Seq<TransactionView>)
    requires
        transactions.len() > 0,
    ensures
        transactions_bytes(transactions) == transaction_bytes(transactions[0])
            + transactions_bytes(transactions.drop_first()),
    decreases transactions.len(),
{
    if transactions.len() == 1 {
        assert(transactions.drop_last() =~= Seq::<TransactionView>::empty());
        assert(transactions.drop_first() =~= Seq::<TransactionView>::empty());
    } else {
        let shorter = transactions.drop_last();
        lemma_transactions_bytes_front(shorter);
        assert(shorter.drop_first() =~= transactions.drop_first().drop_last());
    }
}

/// The bytes of two lists of the same number of transactions, each
/// followed by a rest, make the same whole only if the lists are equal and
/// the rests are equal.
pub proof fn lemma_transactions_split(
    a: Seq<TransactionView>,
    rest_a: Seq<u8>,
    b: Seq<TransactionView>,
    rest_b: Seq<u8>,
)
    requires
        a.len() == b.len(),
        forall|i: int| 0 <= i < a.len() ==> transaction_fits(#[trigger] a[i]),
        forall|i: int| 0 <= i < b.len() ==> transaction_fits(#[trigger] b[i]),
        transactions_bytes(a) + rest_a == transactions_bytes(b) + rest_b,
    ensures
        a == b,
        rest_a == rest_b,
    decreases a.len(),
{
    if a.len() > 0 {
        lemma_transactions_bytes_front(a);
        lemma_transactions_bytes_front(b);
        let tail_a = transactions_bytes(a.drop_first()) + rest_a;
        let tail_b = transactions_bytes(b.drop_first()) + rest_b;
        assert(transactions_bytes(a) + rest_a =~= transaction_bytes(a[0]) + tail_a);
        assert(transactions_bytes(b) + rest_b =~= transaction_bytes(b[0]) + tail_b);
        lemma_transaction_split(a[0], tail_a, b[0], tail_b);
        lemma_transactions_split(a.drop_first(), rest_a, b.drop_first(), rest_b);
        assert(a =~= seq![a[0]] + a.drop_first());
    }
}

/// Six byte strings in a row make the same whole however they are grouped.
proof fn lemma_regroup(
    a: Seq<u8>,
    b: Seq<u8>,
    c: Seq<u8>,
    d: Seq<u8>,
    e: Seq<u8>,
    f: Seq<u8>,
)
    ensures
        a + b + c + d + e + f == a + (b + (c + (d + (e + f)))),
{
}

/// The canonical bytes of a transaction determine the transaction: two
/// transactions with the same bytes are the same in every field.
pub proof fn law_transaction_bytes_determine_transaction(a: TransactionView, b: TransactionView)
    requires
        transaction_fits(a),
        transaction_fits(b),
        transaction_bytes(a) == transaction_bytes(b),
    ensures
        a == b,
{
    let none = Seq::<u8>::empty();
    lemma_transaction_split(a, none, b, none);
}

/// The bytes that a block's hash is computed from determine every hashed
/// field: two blocks with the same bytes agree in the previous hash, the
/// timestamp, the transactions and the clock stamp. A block that differs
/// from a sealed one in any of these is hashed over different bytes.
pub proof fn law_block_bytes_determine_block(a: BlockView, b: BlockView)
    requires
        block_fits(a),
        block_fits(b),
        block_preimage(a) == block_preimage(b),
    ensures
        a.previous_hash == b.previous_hash,
        a.timestamp == b.timestamp,
        a.transactions == b.transactions,
        a.poh_hash == b.poh_hash,
        a.poh_count == b.poh_count,
{
    let a4 = text_field(a.poh_hash) + u64_field(a.poh_count);
    let b4 = text_field(b.poh_hash) + u64_field(b.poh_count);
    let a3 = transactions_bytes(a.transactions) + a4;
    let b3 = transactions_bytes(b.transactions) + b4;
    let a2 = u64_field(a.transactions.len() as u64) + a3;
    let b2 = u64_field(b.transactions.len() as u64) + b3;
    let a1 = i64_field(a.timestamp) + a2;
    let b1 = i64_field(b.timestamp) + b2;
    lemma_regroup(
        text_field(a.previous_hash),
        i64_field(a.timestamp),
        u64_field(a.transactions.len() as u64),
        transactions_bytes(a.transactions),
        text_field(a.poh_hash),
        u64_field(a.poh_count),
    );
    lemma_regroup(
        text_field(b.previous_hash),
        i64_field(b.timestamp),
        u64_field(b.transactions.len() as u64),
        transactions_bytes(b.transactions),
        text_field(b.poh_hash),
        u64_field(b.poh_count),
    );
    lemma_text_field_split(a.previous_hash, a1, b.previous_hash, b1);
    lemma_i64_field_split(a.timestamp, a2, b.timestamp, b2);
    lemma_u64_field_split(a.transactions.len() as u64, a3, b.transactions.len() as u64, b3);
    lemma_transactions_split(a.transactions, a4, b.transactions, b4);
    lemma_text_field_split(a.poh_hash, u64_field(a.poh_count), b.poh_hash, u64_field(b.poh_count));
    lemma_u64_field(a.poh_count, b.poh_count);
}

} // verus!
