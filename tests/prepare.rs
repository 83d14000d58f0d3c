use ethcontract::builder::{Sign, TransactionBuilder};
use ethcontract::execute::{ExecuteConfirmFuture, ExecuteFuture, Request, SendCall};
use ethcontract::key::SecretKey;
use ethcontract::prepare::{Answer, Param, PrepareFuture, Prepared, Query};
use ethcontract::types::{
    Address, CallRequest, ExecutionError, TransactionCondition, TransactionRequest, U256,
};

fn addr(b: u8) -> Address {
    Address { bytes: [b; 20] }
}

fn key_one() -> SecretKey {
    let mut secret = vec![0u8; 32];
    secret[31] = 1;
    SecretKey::from_raw(secret).unwrap()
}

fn offline(chain_id: Option<u64>) -> TransactionBuilder {
    TransactionBuilder::new(addr(0xab), vec![1, 2, 3]).sign(Sign::Offline(key_one(), chain_id))
}

#[test]
fn default_account_takes_first_account() {
    let prepare = PrepareFuture::from_builder(TransactionBuilder::new(addr(0xab), vec![9]));
    assert_eq!(prepare.queries(), vec![Query::Accounts]);
    let answers = vec![Answer::Accounts(vec![addr(0x11), addr(0x22)])];
    match prepare.complete(answers).unwrap() {
        Prepared::Tx(request) => assert_eq!(
            request,
            TransactionRequest {
                from: addr(0x11),
                to: Some(addr(0xab)),
                gas: None,
                gas_price: None,
                value: None,
                data: Some(vec![9]),
                nonce: None,
                condition: None,
            }
        ),
        other => panic!("unexpected {:?}", other),
    }
}

#[test]
fn empty_account_list_gives_zero_sender() {
    let prepare = PrepareFuture::from_builder(TransactionBuilder::new(addr(0xab), vec![]));
    match prepare.complete(vec![Answer::Accounts(vec![])]).unwrap() {
        Prepared::Tx(request) => assert_eq!(request.from, Address::zero()),
        other => panic!("unexpected {:?}", other),
    }
}

#[test]
fn explicit_account_asks_nothing() {
    let condition = Some(TransactionCondition::Block(7));
    let builder = TransactionBuilder::new(addr(0xab), vec![4])
        .gas(U256::from_u64(100))
        .sign(Sign::Local(addr(0x33), condition));
    let prepare = PrepareFuture::from_builder(builder);
    assert!(prepare.queries().is_empty());
    match prepare.complete(vec![]).unwrap() {
        Prepared::Tx(request) => {
            assert_eq!(request.from, addr(0x33));
            assert_eq!(request.gas, Some(U256::from_u64(100)));
            assert_eq!(request.condition, condition);
        }
        other => panic!("unexpected {:?}", other),
    }
}

#[test]
fn offline_fully_given_asks_nothing() {
    let builder = offline(Some(1))
        .gas(U256::from_u64(21000))
        .gas_price(U256::from_u64(1_000_000_000))
        .nonce(U256::from_u64(5));
    let prepare = PrepareFuture::from_builder(builder);
    assert!(prepare.queries().is_empty());
    match prepare.complete(vec![]).unwrap() {
        Prepared::Offline { tx, chain_id, .. } => {
            assert_eq!(tx.nonce, U256::from_u64(5));
            assert_eq!(tx.gas_price, U256::from_u64(1_000_000_000));
            assert_eq!(tx.gas, U256::from_u64(21000));
            assert_eq!(tx.to, addr(0xab));
            assert_eq!(tx.value, U256::zero());
            assert_eq!(tx.data, vec![1, 2, 3]);
            assert_eq!(chain_id, 1);
        }
        other => panic!("unexpected {:?}", other),
    }
}

#[test]
fn offline_missing_nonce_asks_transaction_count() {
    let builder = offline(Some(1)).gas(U256::from_u64(1)).gas_price(U256::from_u64(2));
    let prepare = PrepareFuture::from_builder(builder);
    let sender = key_one().address();
    assert_eq!(prepare.queries(), vec![Query::TransactionCount(sender)]);
    match prepare.complete(vec![Answer::TransactionCount(U256::from_u64(42))]).unwrap() {
        Prepared::Offline { tx, .. } => assert_eq!(tx.nonce, U256::from_u64(42)),
        other => panic!("unexpected {:?}", other),
    }
}

#[test]
fn offline_missing_all_asks_four_in_order() {
    let builder = offline(None).value(U256::from_u64(9));
    let prepare = PrepareFuture::from_builder(builder);
    let sender = key_one().address();
    let estimate = CallRequest {
        from: Some(sender),
        to: addr(0xab),
        gas: None,
        gas_price: None,
        value: Some(U256::from_u64(9)),
        data: Some(vec![1, 2, 3]),
    };
    assert_eq!(
        prepare.queries(),
        vec![
            Query::EstimateGas(estimate),
            Query::GasPrice,
            Query::TransactionCount(sender),
            Query::NetVersion
        ]
    );
    let answers = vec![
        Answer::EstimateGas(U256::from_u64(30000)),
        Answer::GasPrice(U256::from_u64(7)),
        Answer::TransactionCount(U256::from_u64(3)),
        Answer::NetVersion("3".to_string()),
    ];
    match prepare.complete(answers).unwrap() {
        Prepared::Offline { tx, chain_id, .. } => {
            assert_eq!(tx.gas, U256::from_u64(30000));
            assert_eq!(tx.gas_price, U256::from_u64(7));
            assert_eq!(tx.nonce, U256::from_u64(3));
            assert_eq!(tx.value, U256::from_u64(9));
            assert_eq!(chain_id, 3);
        }
        other => panic!("unexpected {:?}", other),
    }
}

#[test]
fn network_version_becomes_chain_id() {
    let builder = offline(None)
        .gas(U256::from_u64(1))
        .gas_price(U256::from_u64(1))
        .nonce(U256::from_u64(1));
    let prepare = PrepareFuture::from_builder(builder);
    assert_eq!(prepare.queries(), vec![Query::NetVersion]);
    match prepare.complete(vec![Answer::NetVersion("3".to_string())]).unwrap() {
        Prepared::Offline { chain_id, .. } => assert_eq!(chain_id, 3),
        other => panic!("unexpected {:?}", other),
    }
}

#[test]
fn unparsable_network_version_fails() {
    let builder = offline(None)
        .gas(U256::from_u64(1))
        .gas_price(U256::from_u64(1))
        .nonce(U256::from_u64(1));
    let prepare = PrepareFuture::from_builder(builder);
    let r = prepare.complete(vec![Answer::NetVersion("not-a-number".to_string())]);
    assert_eq!(
        r.err(),
        Some(ExecutionError::ParseChainId("not-a-number".to_string()))
    );
}

#[test]
fn network_version_bounds() {
    let builder = offline(None)
        .gas(U256::from_u64(1))
        .gas_price(U256::from_u64(1))
        .nonce(U256::from_u64(1));
    for (text, expected) in [
        ("18446744073709551615", Some(u64::MAX)),
        ("18446744073709551616", None),
        ("+5", Some(5)),
        ("", None),
        (" 5", None),
    ] {
        let prepare = PrepareFuture::from_builder(builder.clone());
        let r = prepare.complete(vec![Answer::NetVersion(text.to_string())]);
        match (r, expected) {
            (Ok(Prepared::Offline { chain_id, .. }), Some(id)) => assert_eq!(chain_id, id),
            (Err(ExecutionError::ParseChainId(t)), None) => assert_eq!(t, text),
            _ => panic!("unexpected result for {:?}", text),
        }
    }
}

#[test]
fn key_derives_known_address() {
    let expected: [u8; 20] = [
        0x7e, 0x5f, 0x45, 0x52, 0x09, 0x1a, 0x69, 0x12, 0x5d, 0x5d, 0xfc, 0xb7, 0xb8, 0xc2, 0x65,
        0x90, 0x29, 0x39, 0x5b, 0xdf,
    ];
    assert_eq!(key_one().address(), Address { bytes: expected });
    assert_eq!(key_one().secret()[31], 1);
}

#[test]
fn invalid_keys_are_refused() {
    assert!(SecretKey::from_raw(vec![0u8; 32]).is_none());
    assert!(SecretKey::from_raw(vec![1u8; 31]).is_none());
    assert!(SecretKey::from_raw(vec![0xffu8; 32]).is_none());
}

#[test]
fn setters_overwrite() {
    let b = TransactionBuilder::new(addr(1), vec![])
        .gas(U256::from_u64(1))
        .gas(U256::from_u64(2))
        .nonce(U256::from_u64(3))
        .value(U256::from_u64(4))
        .gas_price(U256::from_u64(5));
    assert_eq!(b.gas, Some(U256::from_u64(2)));
    assert_eq!(b.nonce, Some(U256::from_u64(3)));
    assert_eq!(b.value, Some(U256::from_u64(4)));
    assert_eq!(b.gas_price, Some(U256::from_u64(5)));
    assert!(b.sign.is_none());
}

#[test]
fn u256_limbs() {
    assert_eq!(U256::from_u64(1_000_000_000).limbs, [1_000_000_000, 0, 0, 0]);
    assert_eq!(U256::zero().limbs, [0; 4]);
    assert_eq!(Address::zero().bytes, [0; 20]);
}

#[test]
fn send_calls_follow_request_kind() {
    let fut = TransactionBuilder::new(addr(1), vec![]).execute();
    assert!(matches!(fut.prepare, PrepareFuture::TxDefaultAccount { .. }));
    assert_eq!(
        ExecuteFuture::send_call(Request::Raw(vec![0xf8])),
        SendCall::SendRawTransaction(vec![0xf8])
    );
    let confirm = TransactionBuilder::new(addr(1), vec![])
        .execute_and_confirm(std::time::Duration::from_secs(2), 0);
    assert_eq!(confirm.confirmations, 0);
    assert_eq!(confirm.poll_interval, std::time::Duration::from_secs(2));
    let tx = TransactionRequest {
        from: addr(2),
        to: None,
        gas: None,
        gas_price: None,
        value: None,
        data: None,
        nonce: None,
        condition: None,
    };
    assert_eq!(
        ExecuteConfirmFuture::send_call(Request::Tx(tx.clone()), confirm.poll_interval, 0),
        SendCall::SendTransactionWithConfirmation(tx, std::time::Duration::from_secs(2), 0)
    );
}

#[test]
fn params_from_overrides() {
    let b = offline(Some(4)).gas(U256::from_u64(8));
    match PrepareFuture::from_builder(b) {
        PrepareFuture::Raw { gas, gas_price, chain_id, .. } => {
            assert_eq!(gas, Param::Ready(U256::from_u64(8)));
            assert_eq!(gas_price, Param::Pending);
            assert_eq!(chain_id, Param::Ready(4));
        }
        _ => panic!("expected offline preparation"),
    }
}

#[test]
fn advance_moves_to_sending() {
    let fut = TransactionBuilder::new(addr(0xab), vec![5]).execute();
    match fut.advance(vec![Answer::Accounts(vec![addr(0x11)])]).unwrap() {
        SendCall::SendTransaction(tx) => {
            assert_eq!(tx.from, addr(0x11));
            assert_eq!(tx.to, Some(addr(0xab)));
        }
        other => panic!("unexpected {:?}", other),
    }
}

#[test]
fn advance_stops_on_unparsable_chain_id() {
    let fut = offline(None)
        .gas(U256::from_u64(1))
        .gas_price(U256::from_u64(1))
        .nonce(U256::from_u64(1))
        .execute_and_confirm(std::time::Duration::from_secs(1), 3);
    assert_eq!(
        fut.advance(vec![Answer::NetVersion("x".to_string())]),
        Err(ExecutionError::ParseChainId("x".to_string()))
    );
}
