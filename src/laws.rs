//! What preparation guarantees, over every configuration.
use crate::builder::{Sign, TransactionBuilder};
use crate::key::SecretKey;
use crate::prepare::{answers_fit, node_request, prepare_of, Answer, PrepareFuture, Prepared, Query};
use crate::sign::signed_transaction;
use crate::types::{Address, ExecutionError, TransactionCondition, TransactionData, U256};
use vstd::prelude::*;

verus! {

/// The value that an optional override gives, zero where absent.
pub open spec fn value_or_zero(v: Option<U256>) -> U256 {
    match v {
        Some(x) => x,
        None => U256::zero_spec(),
    }
}

/// How many of the four offline parameters a configuration leaves to the node.
pub open spec fn missing_count(b: TransactionBuilder, chain_id: Option<u64>) -> int {
    (if b.gas is None { 1int } else { 0int }) + (if b.gas_price is None { 1int } else { 0int })
        + (if b.nonce is None { 1int } else { 0int }) + (if chain_id is None { 1int } else { 0int })
}

/// With an explicit signing account, preparation asks nothing of the node and
/// at once yields a structured request from that account.
pub proof fn explicit_account_needs_no_query(
    b: TransactionBuilder,
    from: Address,
    condition: Option<TransactionCondition>,
)
    requires
        b.sign == Some(Sign::Local(from, condition)),
    ensures
        prepare_of(b).queries_spec().len() == 0,
        prepare_of(b).complete_spec(Seq::empty()) == Ok::<Prepared, ExecutionError>(
            Prepared::Tx(node_request(b, from, condition)),
        ),
{
}

/// Signing offline with gas, gas price, nonce and chain id all given,
/// preparation asks nothing of the node and yields exactly the given fields.
pub proof fn offline_fully_given_needs_no_query(b: TransactionBuilder, key: SecretKey, chain_id: u64)
    requires
        b.sign == Some(Sign::Offline(key, Some(chain_id))),
        b.gas is Some,
        b.gas_price is Some,
        b.nonce is Some,
    ensures
        prepare_of(b).queries_spec().len() == 0,
        prepare_of(b).complete_spec(Seq::empty()) == Ok::<Prepared, ExecutionError>(
            Prepared::Offline {
                tx: TransactionData {
                    nonce: b.nonce->0,
                    gas_price: b.gas_price->0,
                    gas: b.gas->0,
                    to: b.address,
                    value: value_or_zero(b.value),
                    data: b.data,
                },
                key,
                chain_id,
            },
        ),
{
}

/// Signing offline with exactly one of gas, gas price, nonce and chain id
/// missing, preparation asks the node for that one parameter and nothing else.
pub proof fn offline_one_missing_needs_one_query(
    b: TransactionBuilder,
    key: SecretKey,
    chain_id: Option<u64>,
)
    requires
        b.sign == Some(Sign::Offline(key, chain_id)),
        missing_count(b, chain_id) == 1,
    ensures
        prepare_of(b).queries_spec().len() == 1,
        b.gas is None ==> prepare_of(b).queries_spec()[0] is EstimateGas,
        b.gas_price is None ==> prepare_of(b).queries_spec()[0] == Query::GasPrice,
        b.nonce is None ==> prepare_of(b).queries_spec()[0] == Query::TransactionCount(
            key.address_view(),
        ),
        chain_id is None ==> prepare_of(b).queries_spec()[0] == Query::NetVersion,
{
}

/// Preparing one fully given offline configuration twice yields the same
/// transaction, key and chain id to sign, and byte-identical signed payloads.
pub proof fn offline_preparation_is_repeatable(b1: TransactionBuilder, b2: TransactionBuilder)
    requires
        b1 == b2,
        b1.sign matches Some(Sign::Offline(_, Some(_))),
        b1.gas is Some,
        b1.gas_price is Some,
        b1.nonce is Some,
    ensures
        prepare_of(b1).complete_spec(Seq::empty()) == prepare_of(b2).complete_spec(Seq::empty()),
        prepare_of(b1).complete_spec(Seq::empty()) matches Ok(
            Prepared::Offline { tx: tx1, key: key1, chain_id: id1 },
        ) && prepare_of(b2).complete_spec(Seq::empty()) matches Ok(
            Prepared::Offline { tx: tx2, key: key2, chain_id: id2 },
        ) && signed_transaction(tx1, key1.secret_view(), id1) == signed_transaction(
            tx2,
            key2.secret_view(),
            id2,
        ),
{
}

/// With no signing strategy and an empty account list from the node, the
/// request keeps the zero address as its sender.
pub proof fn empty_account_list_keeps_zero_sender(b: TransactionBuilder, accounts: Vec<Address>)
    requires
        b.sign is None,
        accounts@.len() == 0,
    ensures
        answers_fit(prepare_of(b).queries_spec(), seq![Answer::Accounts(accounts)]),
        prepare_of(b).complete_spec(seq![Answer::Accounts(accounts)]) == Ok::<
            Prepared,
            ExecutionError,
        >(Prepared::Tx(node_request(b, Address::zero_spec(), None))),
{
}

/// Preparation completes only once every query has its answer: while one is
/// outstanding there is no request, so nothing can be sent.
pub proof fn outstanding_query_blocks_completion(p: PrepareFuture, answers: Seq<Answer>)
    requires
        answers.len() < p.queries_spec().len(),
    ensures
        !answers_fit(p.queries_spec(), answers),
{
}

} // verus!
