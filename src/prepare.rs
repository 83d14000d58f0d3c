//! Preparation: which parameters to ask of the node, and how the answers make
//! the request to send.
use crate::builder::{Sign, TransactionBuilder};
use crate::chain_id::{decimal_u64, parse_u64};
use crate::execute::Request;
use crate::key::SecretKey;
use crate::sign::{sign_transaction, signed_transaction};
use crate::types::{
    Address, CallRequest, ExecutionError, TransactionData, TransactionRequest, U256,
};
use vstd::prelude::*;

verus! {

/// A read that preparation asks of the node.
#[derive(Clone, Debug, PartialEq, Eq)]
pub enum Query {
    /// The accounts that the node holds.
    Accounts,
    /// An estimate of the gas that this call consumes.
    EstimateGas(CallRequest),
    /// The current gas price.
    GasPrice,
    /// The number of transactions sent from this account.
    TransactionCount(Address),
    /// The node's network identifier.
    NetVersion,
}

/// The node's answer to a `Query`.
#[derive(Clone, Debug, PartialEq, Eq)]
pub enum Answer {
    Accounts(Vec<Address>),
    EstimateGas(U256),
    GasPrice(U256),
    TransactionCount(U256),
    NetVersion(String),
}

/// Whether `a` is an answer of the kind that `q` asks for.
pub open spec fn answers_query(q: Query, a: Answer) -> bool {
    match q {
        Query::Accounts => a is Accounts,
        Query::EstimateGas(_) => a is EstimateGas,
        Query::GasPrice => a is GasPrice,
        Query::TransactionCount(_) => a is TransactionCount,
        Query::NetVersion => a is NetVersion,
    }
}

/// Whether `answers` answer `queries`, one for one and in order.
pub open spec fn answers_fit(queries: Seq<Query>, answers: Seq<Answer>) -> bool {
    &&& answers.len() == queries.len()
    &&& forall|i: int| 0 <= i < queries.len() ==> answers_query(queries[i], #[trigger] answers[i])
}

/// The call data of an optional byte vector, as a sequence.
pub open spec fn bytes_view(d: Option<Vec<u8>>) -> Option<Seq<u8>> {
    match d {
        Some(v) => Some(v@),
        None => None,
    }
}

/// Whether two queries ask the same thing, call data compared by content.
pub open spec fn same_query(a: Query, b: Query) -> bool {
    match (a, b) {
        (Query::EstimateGas(x), Query::EstimateGas(y)) => {
            &&& x.from == y.from
            &&& x.to == y.to
            &&& x.gas == y.gas
            &&& x.gas_price == y.gas_price
            &&& x.value == y.value
            &&& bytes_view(x.data) == bytes_view(y.data)
        },
        _ => a == b,
    }
}

/// A transaction parameter: given, or still to be asked of the node.
#[derive(Clone, Copy, Debug, PartialEq, Eq)]
pub enum Param<T> {
    Ready(T),
    Pending,
}

/// The parameter that an optional override gives.
pub open spec fn param_of<T>(o: Option<T>) -> Param<T> {
    match o {
        Some(v) => Param::Ready(v),
        None => Param::Pending,
    }
}

/// The parameter that an optional override gives.
pub fn to_param<T>(o: Option<T>) -> (r: Param<T>)
    ensures
        r == param_of(o),
{
    match o {
        Some(v) => Param::Ready(v),
        None => Param::Pending,
    }
}

/// The amount of `p`: the given one, or the one the last answer carries,
/// which is then taken off.
fn take_amount(p: Param<U256>, answers: &mut Vec<Answer>) -> (r: U256)
    requires
        p is Pending ==> old(answers)@.len() > 0,
    ensures
        r == resolved(p, old(answers)@, old(answers)@.len() - 1),
        p is Pending ==> final(answers)@ == old(answers)@.drop_last(),
        p is Ready ==> final(answers)@ == old(answers)@,
{
    match p {
        Param::Ready(v) => v,
        Param::Pending => match answers.pop().unwrap() {
            Answer::EstimateGas(v) => v,
            Answer::GasPrice(v) => v,
            Answer::TransactionCount(v) => v,
            _ => U256::zero(),
        },
    }
}

/// `q` alone where `p` is still to be asked, else nothing.
pub open spec fn query_if_pending<T>(p: Param<T>, q: Query) -> Seq<Query> {
    if p is Pending {
        seq![q]
    } else {
        Seq::empty()
    }
}

/// How many queries `p` needs: one where it is pending.
pub open spec fn pending_count<T>(p: Param<T>) -> int {
    if p is Pending {
        1
    } else {
        0
    }
}

/// The amount that an answer carries.
pub open spec fn amount_of(a: Answer) -> U256 {
    match a {
        Answer::EstimateGas(v) => v,
        Answer::GasPrice(v) => v,
        Answer::TransactionCount(v) => v,
        _ => U256::zero_spec(),
    }
}

/// The amount of `p`: the given one, or the one the answer at `i` carries.
pub open spec fn resolved(p: Param<U256>, answers: Seq<Answer>, i: int) -> U256 {
    match p {
        Param::Ready(v) => v,
        Param::Pending => amount_of(answers[i]),
    }
}

/// The gas estimate asked for a transaction from `from` with these fields.
pub open spec fn estimate_request(from: Address, to: Address, value: Option<U256>, data: Vec<u8>)
    -> CallRequest {
    CallRequest { from: Some(from), to, gas: None, gas_price: None, value, data: Some(data) }
}

/// A transaction on its way to being sent, and what it still waits for.
#[derive(Clone, Debug)]
pub enum PrepareFuture {
    /// Waits for the node's accounts; the first one becomes the sender.
    TxDefaultAccount { request: TransactionRequest },
    /// Ready: the node signs for the request's sender.
    Tx { request: TransactionRequest },
    /// Waits for the parameters that were not given, to sign offline.
    Raw {
        key: SecretKey,
        address: Address,
        value: Option<U256>,
        data: Vec<u8>,
        gas: Param<U256>,
        gas_price: Param<U256>,
        nonce: Param<U256>,
        chain_id: Param<u64>,
    },
}

/// A prepared transaction.
#[derive(Clone, Debug)]
pub enum Prepared {
    /// A request that the node signs.
    Tx(TransactionRequest),
    /// A transaction with every field resolved, to sign with `key` for
    /// `chain_id`.
    Offline { tx: TransactionData, key: SecretKey, chain_id: u64 },
}

impl Prepared {
    /// The request to send: a structured request as it is; an offline
    /// transaction signed with its key for its chain.
    pub fn into_request(self) -> (r: Request)
        ensures
            self matches Prepared::Tx(tx) ==> r == Request::Tx(tx),
            self matches Prepared::Offline { tx, key, chain_id } ==> r matches Request::Raw(raw)
                && raw@ == signed_transaction(tx, key.secret_view(), chain_id),
    {
        match self {
            Prepared::Tx(tx) => Request::Tx(tx),
            Prepared::Offline { tx, key, chain_id } => Request::Raw(
                sign_transaction(&tx, &key, chain_id),
            ),
        }
    }
}

/// The request that the node signs for the builder's configuration, from the
/// sender `from`.
pub open spec fn node_request(
    b: TransactionBuilder,
    from: Address,
    condition: Option<crate::types::TransactionCondition>,
) -> TransactionRequest {
    TransactionRequest {
        from,
        to: Some(b.address),
        gas: b.gas,
        gas_price: b.gas_price,
        value: b.value,
        data: Some(b.data),
        nonce: b.nonce,
        condition,
    }
}

/// The preparation that a builder's configuration starts.
pub open spec fn prepare_of(b: TransactionBuilder) -> PrepareFuture {
    match b.sign {
        None => PrepareFuture::TxDefaultAccount {
            request: node_request(b, Address::zero_spec(), None),
        },
        Some(Sign::Local(from, condition)) => PrepareFuture::Tx {
            request: node_request(b, from, condition),
        },
        Some(Sign::Offline(key, chain_id)) => PrepareFuture::Raw {
            key,
            address: b.address,
            value: b.value,
            data: b.data,
            gas: param_of(b.gas),
            gas_price: param_of(b.gas_price),
            nonce: param_of(b.nonce),
            chain_id: param_of(chain_id),
        },
    }
}

impl PrepareFuture {
    /// The queries that preparation waits for, in order: accounts; or gas
    /// estimate, gas price, transaction count and network identifier, each
    /// where its parameter was not given.
    pub open spec fn queries_spec(self) -> Seq<Query> {
        match self {
            PrepareFuture::TxDefaultAccount { .. } => seq![Query::Accounts],
            PrepareFuture::Tx { .. } => Seq::empty(),
            PrepareFuture::Raw { key, address, value, data, gas, gas_price, nonce, chain_id } => {
                query_if_pending(
                    gas,
                    Query::EstimateGas(estimate_request(key.address_view(), address, value, data)),
                ) + query_if_pending(gas_price, Query::GasPrice) + query_if_pending(
                    nonce,
                    Query::TransactionCount(key.address_view()),
                ) + query_if_pending(chain_id, Query::NetVersion)
            },
        }
    }

    /// Starts preparing a builder's configuration: the strategy decides the
    /// mode, and every override that was set is taken as it is.
    pub fn from_builder(builder: TransactionBuilder) -> (r: PrepareFuture)
        ensures
            r == prepare_of(builder),
    {
        match builder.sign {
            None => PrepareFuture::TxDefaultAccount {
                request: TransactionRequest {
                    from: Address::zero(),
                    to: Some(builder.address),
                    gas: builder.gas,
                    gas_price: builder.gas_price,
                    value: builder.value,
                    data: Some(builder.data),
                    nonce: builder.nonce,
                    condition: None,
                },
            },
            Some(Sign::Local(from, condition)) => PrepareFuture::Tx {
                request: TransactionRequest {
                    from,
                    to: Some(builder.address),
                    gas: builder.gas,
                    gas_price: builder.gas_price,
                    value: builder.value,
                    data: Some(builder.data),
                    nonce: builder.nonce,
                    condition,
                },
            },
            Some(Sign::Offline(key, chain_id)) => PrepareFuture::Raw {
                key,
                address: builder.address,
                value: builder.value,
                data: builder.data,
                gas: to_param(builder.gas),
                gas_price: to_param(builder.gas_price),
                nonce: to_param(builder.nonce),
                chain_id: to_param(chain_id),
            },
        }
    }

    /// The queries that preparation waits for; they may run concurrently, and
    /// preparation completes once all of them are answered.
    pub fn queries(&self) -> (r: Vec<Query>)
        ensures
            r@.len() == self.queries_spec().len(),
            forall|i: int|
                0 <= i < r@.len() ==> same_query(#[trigger] r@[i], self.queries_spec()[i]),
    {
        match self {
            PrepareFuture::TxDefaultAccount { .. } => {
                let r = vec![Query::Accounts];
                assert(r@ =~= self.queries_spec());
                r
            },
            PrepareFuture::Tx { .. } => Vec::new(),
            PrepareFuture::Raw { key, address, value, data, gas, gas_price, nonce, chain_id } => {
                let from = key.address();
                let ghost estimate = Query::EstimateGas(
                    estimate_request(key.address_view(), *address, *value, *data),
                );
                let mut r: Vec<Query> = Vec::new();
                if let Param::Pending = gas {
                    let call = CallRequest {
                        from: Some(from),
                        to: *address,
                        gas: None,
                        gas_price: None,
                        value: *value,
                        data: Some(data.clone()),
                    };
                    r.push(Query::EstimateGas(call));
                }
                let ghost e1 = query_if_pending(*gas, estimate);
                assert(r@.len() == e1.len());
                assert(forall|i: int| 0 <= i < r@.len() ==> same_query(#[trigger] r@[i], e1[i]));
                if let Param::Pending = gas_price {
                    r.push(Query::GasPrice);
                }
                let ghost e2 = e1 + query_if_pending(*gas_price, Query::GasPrice);
                assert(r@.len() == e2.len());
                assert(forall|i: int| 0 <= i < r@.len() ==> same_query(#[trigger] r@[i], e2[i]));
                if let Param::Pending = nonce {
                    r.push(Query::TransactionCount(from));
                }
                let ghost e3 = e2 + query_if_pending(
                    *nonce,
                    Query::TransactionCount(key.address_view()),
                );
                assert(r@.len() == e3.len());
                assert(forall|i: int| 0 <= i < r@.len() ==> same_query(#[trigger] r@[i], e3[i]));
                if let Param::Pending = chain_id {
                    r.push(Query::NetVersion);
                }
                let ghost e4 = e3 + query_if_pending(*chain_id, Query::NetVersion);
                assert(e4 == self.queries_spec());
                assert(r@.len() == e4.len());
                assert(forall|i: int| 0 <= i < r@.len() ==> same_query(#[trigger] r@[i], e4[i]));
                r
            },
        }
    }

    /// Completes preparation with the answers to its queries, in their order.
    /// A network identifier that is not a decimal number fails with
    /// `ParseChainId`; nothing else fails.
    pub fn complete(self, answers: Vec<Answer>) -> (r: Result<Prepared, ExecutionError>)
        requires
            answers_fit(self.queries_spec(), answers@),
        ensures
            r == self.complete_spec(answers@),
    {
        let ghost all = answers@;
        let mut answers = answers;
        match self {
            PrepareFuture::TxDefaultAccount { request } => {
                assert(answers_query(self.queries_spec()[0], all[0]));
                match answers.pop().unwrap() {
                    Answer::Accounts(accounts) => {
                        let mut request = request;
                        if accounts.len() > 0 {
                            request.from = accounts[0];
                        }
                        Ok(Prepared::Tx(request))
                    },
                    _ => Ok(Prepared::Tx(request)),
                }
            },
            PrepareFuture::Tx { request } => Ok(Prepared::Tx(request)),
            PrepareFuture::Raw { key, address, value, data, gas, gas_price, nonce, chain_id } => {
                let ghost i_price = pending_count(gas);
                let ghost i_nonce = i_price + pending_count(gas_price);
                let ghost i_chain = i_nonce + pending_count(nonce);
                assert(all.len() == i_chain + pending_count(chain_id));
                let chain: u64 = match chain_id {
                    Param::Ready(id) => id,
                    Param::Pending => match answers.pop().unwrap() {
                        Answer::NetVersion(text) => match parse_u64(text.as_str()) {
                            Some(id) => id,
                            None => {
                                return Err(ExecutionError::ParseChainId(text));
                            },
                        },
                        _ => 0,
                    },
                };
                assert(answers@ == all.subrange(0, i_chain));
                let nonce_value = take_amount(nonce, &mut answers);
                assert(answers@ == all.subrange(0, i_nonce));
                let gas_price_value = take_amount(gas_price, &mut answers);
                assert(answers@ == all.subrange(0, i_price));
                let gas_value = take_amount(gas, &mut answers);
                let value = match value {
                    Some(v) => v,
                    None => U256::zero(),
                };
                let tx = TransactionData {
                    nonce: nonce_value,
                    gas_price: gas_price_value,
                    gas: gas_value,
                    to: address,
                    value,
                    data,
                };
                Ok(Prepared::Offline { tx, key, chain_id: chain })
            },
        }
    }

    /// What preparation yields once `answers` answer its queries.
    pub open spec fn complete_spec(self, answers: Seq<Answer>) -> Result<Prepared, ExecutionError> {
        match self {
            PrepareFuture::TxDefaultAccount { request } => match answers[0] {
                Answer::Accounts(accounts) => Ok(
                    Prepared::Tx(
                        if accounts@.len() > 0 {
                            TransactionRequest { from: accounts@[0], ..request }
                        } else {
                            request
                        },
                    ),
                ),
                _ => Ok(Prepared::Tx(request)),
            },
            PrepareFuture::Tx { request } => Ok(Prepared::Tx(request)),
            PrepareFuture::Raw { key, address, value, data, gas, gas_price, nonce, chain_id } => {
                let i_price = pending_count(gas);
                let i_nonce = i_price + pending_count(gas_price);
                let i_chain = i_nonce + pending_count(nonce);
                let tx = TransactionData {
                    nonce: resolved(nonce, answers, i_nonce),
                    gas_price: resolved(gas_price, answers, i_price),
                    gas: resolved(gas, answers, 0),
                    to: address,
                    value: match value {
                        Some(v) => v,
                        None => U256::zero_spec(),
                    },
                    data,
                };
                match chain_id {
                    Param::Ready(id) => Ok(Prepared::Offline { tx, key, chain_id: id }),
                    Param::Pending => match answers[i_chain] {
                        Answer::NetVersion(text) => match decimal_u64(text@) {
                            Some(id) => Ok(Prepared::Offline { tx, key, chain_id: id }),
                            None => Err(ExecutionError::ParseChainId(text)),
                        },
                        _ => Ok(Prepared::Offline { tx, key, chain_id: 0 }),
                    },
                }
            },
        }
    }
}

} // verus!
