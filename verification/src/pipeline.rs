//! The submission pipeline: a bounded queue between the callers that submit
//! transactions and the admission into the ledger. It keeps the order of
//! submission and pushes back when it is full.
//!
//! The queue is a bounded channel of `tokio`. The pipeline owns both halves
//! and hands neither out, so what the channel holds is exactly what was
//! submitted here and not yet taken out here.

use crate::transaction::{Transaction, TransactionView};
use tokio::sync::mpsc::error::TrySendError;
use tokio::sync::mpsc::{Receiver, Sender};
use vstd::prelude::*;

verus! {

#[verifier::external_type_specification]
#[verifier::external_body]
#[verifier::reject_recursive_types(T)]
pub struct ExSender<T>(Sender<T>);

#[verifier::external_type_specification]
#[verifier::external_body]
#[verifier::reject_recursive_types(T)]
pub struct ExReceiver<T>(Receiver<T>);

/// The transactions that the channel holds, oldest first. The function is
/// not defined here: it stands for the buffer inside the channel.
pub uninterp spec fn queued(receiver: Receiver<Transaction>) -> Seq<TransactionView>;

/// The number of transactions that the channel was made to hold.
pub uninterp spec fn queue_bound(receiver: Receiver<Transaction>) -> usize;

/// `tokio::sync::mpsc::channel`: a new bounded channel. It is empty and
/// buffers up to `buffer` messages. `tokio` refuses a buffer of zero and
/// one above `usize::MAX >> 3`.
#[verifier::external_body]
fn open_channel(buffer: usize) -> (ends: (Sender<Transaction>, Receiver<Transaction>))
    requires
        0 < buffer <= usize::MAX / 8,
    ensures
        queued(ends.1) == Seq::<TransactionView>::empty(),
        queue_bound(ends.1) == buffer,
{
    tokio::sync::mpsc::channel(buffer)
}

/// `Sender::try_send` on the sending half of a pipeline: sends without
/// waiting. With room in the buffer the message becomes the newest in the
/// channel; with the buffer full the channel stays as it is and the message
/// comes back. A pipeline keeps both halves of one channel to itself, so
/// the channel is never closed and no room in it is reserved elsewhere.
#[verifier::external_body]
fn channel_send(pipeline: &mut TransactionPipeline, item: Transaction) -> (refused: Option<
    Transaction,
>)
    ensures
        queue_bound(final(pipeline).output_channel) == queue_bound(old(pipeline).output_channel),
        match refused {
            None => {
                &&& queued(old(pipeline).output_channel).len() < queue_bound(
                    old(pipeline).output_channel,
                )
                &&& queued(final(pipeline).output_channel) == queued(
                    old(pipeline).output_channel,
                ).push(item@)
            },
            Some(back) => {
                &&& queued(old(pipeline).output_channel).len() >= queue_bound(
                    old(pipeline).output_channel,
                )
                &&& queued(final(pipeline).output_channel) == queued(old(pipeline).output_channel)
                &&& back@ == item@
            },
        },
{
    match pipeline.input_channel.try_send(item) {
        Ok(()) => None,
        Err(TrySendError::Full(back)) => Some(back),
        Err(TrySendError::Closed(back)) => Some(back),
    }
}

/// `Receiver::try_recv`: takes the oldest message out of the channel
/// without waiting; `None` exactly when the channel is empty.
#[verifier::external_body]
fn channel_receive(receiver: &mut Receiver<Transaction>) -> (item: Option<Transaction>)
    ensures
        queue_bound(*final(receiver)) == queue_bound(*old(receiver)),
        match item {
            None => {
                &&& queued(*old(receiver)).len() == 0
                &&& queued(*final(receiver)) == queued(*old(receiver))
            },
            Some(t) => {
                &&& queued(*old(receiver)).len() > 0
                &&& t@ == queued(*old(receiver))[0]
                &&& queued(*final(receiver)) == queued(*old(receiver)).drop_first()
            },
        },
{
    receiver.try_recv().ok()
}

/// `Receiver::len`: the number of messages in the channel.
#[verifier::external_body]
fn channel_len(receiver: &Receiver<Transaction>) -> (n: usize)
    ensures
        n == queued(*receiver).len(),
{
    receiver.len()
}

/// `Receiver::max_capacity`: the buffer size that the channel was made
/// with.
#[verifier::external_body]
fn channel_bound(receiver: &Receiver<Transaction>) -> (n: usize)
    ensures
        n == queue_bound(*receiver),
{
    receiver.max_capacity()
}

/// The signal that the pipeline is full. It hands the transaction back to
/// the caller, who may submit it again later.
#[derive(Debug)]
pub struct Backpressure {
    pub transaction: Transaction,
}

/// The bounded queue of submitted transactions.
pub struct TransactionPipeline {
    input_channel: Sender<Transaction>,
    output_channel: Receiver<Transaction>,
}

impl TransactionPipeline {
    /// The submitted transactions that have not been taken out, oldest
    /// first.
    pub closed spec fn waiting(&self) -> Seq<TransactionView> {
        queued(self.output_channel)
    }

    /// The number of transactions that the pipeline can hold.
    pub closed spec fn bound(&self) -> usize {
        queue_bound(self.output_channel)
    }

    /// An empty pipeline that holds up to `buffer_size` transactions.
    pub fn new(buffer_size: usize) -> (pipeline: TransactionPipeline)
        requires
            0 < buffer_size <= usize::MAX / 8,
        ensures
            pipeline.waiting() == Seq::<TransactionView>::empty(),
            pipeline.bound() == buffer_size,
    {
        let (input_channel, output_channel) = open_channel(buffer_size);
        TransactionPipeline { input_channel, output_channel }
    }

    /// The number of transactions that the pipeline can hold.
    pub fn capacity(&self) -> (n: usize)
        ensures
            n == self.bound(),
    {
        channel_bound(&self.output_channel)
    }

    /// The number of transactions that wait in the pipeline.
    pub fn len(&self) -> (n: usize)
        ensures
            n == self.waiting().len(),
    {
        channel_len(&self.output_channel)
    }

    /// Submits a transaction. With room left it becomes the last of those
    /// waiting; with the pipeline full nothing changes and the transaction
    /// comes back with the backpressure signal.
    pub fn process_transaction(&mut self, transaction: Transaction) -> (outcome: Result<
        (),
        Backpressure,
    >)
        ensures
            final(self).bound() == old(self).bound(),
            old(self).waiting().len() < old(self).bound() ==> {
                &&& outcome is Ok
                &&& final(self).waiting() == old(self).waiting().push(transaction@)
            },
            old(self).waiting().len() >= old(self).bound() ==> {
                &&& outcome matches Err(signal)
                &&& signal.transaction@ == transaction@
                &&& final(self).waiting() == old(self).waiting()
            },
    {
        match channel_send(self, transaction) {
            None => Ok(()),
            Some(back) => Err(Backpressure { transaction: back }),
        }
    }

    /// Takes out the transaction that has waited longest, if any waits.
    pub fn next_transaction(&mut self) -> (next: Option<Transaction>)
        ensures
            final(self).bound() == old(self).bound(),
            old(self).waiting().len() == 0 ==> {
                &&& next is None
                &&& final(self).waiting() == old(self).waiting()
            },
            old(self).waiting().len() > 0 ==> {
                &&& next matches Some(t)
                &&& t@ == old(self).waiting()[0]
                &&& final(self).waiting() == old(self).waiting().drop_first()
            },
    {
        channel_receive(&mut self.output_channel)
    }
}

} // verus!
