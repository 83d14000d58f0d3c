//! The transaction builder: a configuration that performs no I/O.
use crate::key::SecretKey;
use crate::prepare::prepare_of;
use crate::execute::{ExecuteConfirmFuture, ExecuteFuture};
use crate::types::{Address, TransactionCondition, U256};
use std::time::Duration;
use vstd::prelude::*;

verus! {

/// How a transaction is signed.
#[derive(Clone, Debug)]
pub enum Sign {
    /// The node signs for this account it holds, optionally once a condition
    /// is met.
    Local(Address, Option<TransactionCondition>),
    /// The transaction is signed here with this key, for the given chain id or,
    /// where none is given, for the node's network identifier.
    Offline(SecretKey, Option<u64>),
}

/// The configuration of a contract transaction: its target, its call data and
/// the overrides that were set. Without a signing strategy the node signs for
/// its first account.
#[derive(Clone, Debug)]
pub struct TransactionBuilder {
    /// The contract the transaction calls.
    pub address: Address,
    /// The encoded call.
    pub data: Vec<u8>,
    /// The signing strategy.
    pub sign: Option<Sign>,
    /// The gas limit; estimated by the node where absent.
    pub gas: Option<U256>,
    /// The gas price; asked of the node where absent.
    pub gas_price: Option<U256>,
    /// The value transferred; zero where absent.
    pub value: Option<U256>,
    /// The nonce; the sender's transaction count where absent.
    pub nonce: Option<U256>,
}

impl TransactionBuilder {
    /// A builder for a call of `data` on `address`, with no override set.
    pub fn new(address: Address, data: Vec<u8>) -> (r: TransactionBuilder)
        ensures
            r.address == address,
            r.data == data,
            r.sign is None,
            r.gas is None,
            r.gas_price is None,
            r.value is None,
            r.nonce is None,
    {
        TransactionBuilder {
            address,
            data,
            sign: None,
            gas: None,
            gas_price: None,
            value: None,
            nonce: None,
        }
    }

    /// Sets the signing strategy.
    pub fn sign(self, value: Sign) -> (r: TransactionBuilder)
        ensures
            r == (TransactionBuilder { sign: Some(value), ..self }),
    {
        let mut b = self;
        b.sign = Some(value);
        b
    }

    /// Sets the gas limit.
    pub fn gas(self, value: U256) -> (r: TransactionBuilder)
        ensures
            r == (TransactionBuilder { gas: Some(value), ..self }),
    {
        let mut b = self;
        b.gas = Some(value);
        b
    }

    /// Sets the gas price.
    pub fn gas_price(self, value: U256) -> (r: TransactionBuilder)
        ensures
            r == (TransactionBuilder { gas_price: Some(value), ..self }),
    {
        let mut b = self;
        b.gas_price = Some(value);
        b
    }

    /// Sets the value transferred.
    pub fn value(self, value: U256) -> (r: TransactionBuilder)
        ensures
            r == (TransactionBuilder { value: Some(value), ..self }),
    {
        let mut b = self;
        b.value = Some(value);
        b
    }

    /// Sets the nonce.
    pub fn nonce(self, value: U256) -> (r: TransactionBuilder)
        ensures
            r == (TransactionBuilder { nonce: Some(value), ..self }),
    {
        let mut b = self;
        b.nonce = Some(value);
        b
    }

    /// Starts preparing the transaction, to send it once it is ready.
    pub fn execute(self) -> (r: ExecuteFuture)
        ensures
            r.prepare == prepare_of(self),
    {
        ExecuteFuture::from_builder(self)
    }

    /// Starts preparing the transaction, to send it and wait for `confirmations`
    /// blocks on top of it, polling the node every `poll_interval`.
    pub fn execute_and_confirm(self, poll_interval: Duration, confirmations: usize) -> (r:
        ExecuteConfirmFuture)
        ensures
            r.prepare == prepare_of(self),
            r.poll_interval == poll_interval,
            r.confirmations == confirmations,
    {
        ExecuteConfirmFuture::from_builder_with_confirm(self, poll_interval, confirmations)
    }
}

} // verus!
