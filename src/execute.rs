//! Execution: a prepared request, and the call that sends it.
use crate::builder::TransactionBuilder;
use crate::prepare::{answers_fit, prepare_of, Answer, PrepareFuture, Prepared};
use crate::sign::signed_transaction;
use crate::types::{ExecutionError, TransactionRequest};
use std::time::Duration;
use vstd::prelude::*;

verus! {

/// A request ready to send.
#[derive(Clone, Debug, PartialEq, Eq)]
pub enum Request {
    /// A structured request, which the node signs.
    Tx(TransactionRequest),
    /// A transaction signed here, to broadcast as it is.
    Raw(Vec<u8>),
}

/// The call to the node that sends a request.
#[derive(Debug, PartialEq, Eq)]
pub enum SendCall {
    SendTransaction(TransactionRequest),
    SendRawTransaction(Vec<u8>),
    /// Send, then poll every interval until the count of blocks is on top.
    SendTransactionWithConfirmation(TransactionRequest, Duration, usize),
    /// Send, then poll every interval until the count of blocks is on top.
    SendRawTransactionWithConfirmation(Vec<u8>, Duration, usize),
}

/// Preparing a transaction, then sending it; yields its hash.
#[derive(Clone, Debug)]
pub struct ExecuteFuture {
    /// The preparation under way.
    pub prepare: PrepareFuture,
}

impl ExecuteFuture {
    /// Starts preparing the builder's transaction.
    pub fn from_builder(builder: TransactionBuilder) -> (r: ExecuteFuture)
        ensures
            r.prepare == prepare_of(builder),
    {
        ExecuteFuture { prepare: PrepareFuture::from_builder(builder) }
    }

    /// Completes preparation with the answers to its queries and moves on to
    /// sending: the call that sends the prepared request, or the error that
    /// ends the execution.
    pub fn advance(self, answers: Vec<Answer>) -> (r: Result<SendCall, ExecutionError>)
        requires
            answers_fit(self.prepare.queries_spec(), answers@),
        ensures
            match self.prepare.complete_spec(answers@) {
                Err(e) => r == Err::<SendCall, ExecutionError>(e),
                Ok(Prepared::Tx(tx)) => r == Ok::<SendCall, ExecutionError>(
                    SendCall::SendTransaction(tx),
                ),
                Ok(Prepared::Offline { tx, key, chain_id }) => r matches Ok(
                    SendCall::SendRawTransaction(raw),
                ) && raw@ == signed_transaction(tx, key.secret_view(), chain_id),
            },
    {
        match self.prepare.complete(answers) {
            Ok(prepared) => Ok(ExecuteFuture::send_call(prepared.into_request())),
            Err(e) => Err(e),
        }
    }

    /// The call that sends a prepared request: the node signs a structured
    /// request, a raw one is broadcast.
    pub fn send_call(request: Request) -> (r: SendCall)
        ensures
            request matches Request::Tx(tx) ==> r == SendCall::SendTransaction(tx),
            request matches Request::Raw(raw) ==> r == SendCall::SendRawTransaction(raw),
    {
        match request {
            Request::Tx(tx) => SendCall::SendTransaction(tx),
            Request::Raw(raw) => SendCall::SendRawTransaction(raw),
        }
    }
}

/// Preparing a transaction, sending it and waiting for its confirmation;
/// yields its receipt.
#[derive(Debug)]
pub struct ExecuteConfirmFuture {
    /// How often the node is polled for the receipt.
    pub poll_interval: Duration,
    /// How many blocks must be mined on top of the transaction's block.
    pub confirmations: usize,
    /// The preparation under way.
    pub prepare: PrepareFuture,
}

impl ExecuteConfirmFuture {
    /// Starts preparing the builder's transaction, to wait for `confirmations`
    /// blocks once it is sent.
    pub fn from_builder_with_confirm(
        builder: TransactionBuilder,
        poll_interval: Duration,
        confirmations: usize,
    ) -> (r: ExecuteConfirmFuture)
        ensures
            r.prepare == prepare_of(builder),
            r.poll_interval == poll_interval,
            r.confirmations == confirmations,
    {
        ExecuteConfirmFuture {
            poll_interval,
            confirmations,
            prepare: PrepareFuture::from_builder(builder),
        }
    }

    /// Completes preparation with the answers to its queries and moves on to
    /// sending: the call that sends the prepared request and waits for its
    /// confirmation, or the error that ends the execution.
    pub fn advance(self, answers: Vec<Answer>) -> (r: Result<SendCall, ExecutionError>)
        requires
            answers_fit(self.prepare.queries_spec(), answers@),
        ensures
            match self.prepare.complete_spec(answers@) {
                Err(e) => r == Err::<SendCall, ExecutionError>(e),
                Ok(Prepared::Tx(tx)) => r == Ok::<SendCall, ExecutionError>(
                    SendCall::SendTransactionWithConfirmation(
                        tx,
                        self.poll_interval,
                        self.confirmations,
                    ),
                ),
                Ok(Prepared::Offline { tx, key, chain_id }) => r matches Ok(
                    SendCall::SendRawTransactionWithConfirmation(raw, interval, depth),
                ) && raw@ == signed_transaction(tx, key.secret_view(), chain_id) && interval
                    == self.poll_interval && depth == self.confirmations,
            },
    {
        let ExecuteConfirmFuture { poll_interval, confirmations, prepare } = self;
        match prepare.complete(answers) {
            Ok(prepared) => Ok(
                ExecuteConfirmFuture::send_call(prepared.into_request(), poll_interval, confirmations),
            ),
            Err(e) => Err(e),
        }
    }

    /// The call that sends a prepared request and waits for `confirmations`
    /// blocks on top of it, polling every `poll_interval`.
    pub fn send_call(request: Request, poll_interval: Duration, confirmations: usize) -> (r:
        SendCall)
        ensures
            request matches Request::Tx(tx) ==> r == SendCall::SendTransactionWithConfirmation(
                tx,
                poll_interval,
                confirmations,
            ),
            request matches Request::Raw(raw) ==> r
                == SendCall::SendRawTransactionWithConfirmation(raw, poll_interval, confirmations),
    {
        match request {
            Request::Tx(tx) => SendCall::SendTransactionWithConfirmation(
                tx,
                poll_interval,
                confirmations,
            ),
            Request::Raw(raw) => SendCall::SendRawTransactionWithConfirmation(
                raw,
                poll_interval,
                confirmations,
            ),
        }
    }
}

} // verus!
