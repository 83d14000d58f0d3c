use ethcontract::builder::{Sign, TransactionBuilder};
use ethcontract::execute::{Request, SendCall};
use ethcontract::key::SecretKey;
use ethcontract::prepare::{Answer, PrepareFuture, Prepared};
use ethcontract::rlp::{append_string, append_u256, append_uint, encode_list};
use ethcontract::sign::sign_transaction;
use ethcontract::types::{Address, TransactionData, U256};

fn hex(s: &str) -> Vec<u8> {
    (0..s.len())
        .step_by(2)
        .map(|i| u8::from_str_radix(&s[i..i + 2], 16).unwrap())
        .collect()
}

fn eip155_key() -> SecretKey {
    SecretKey::from_raw(vec![0x46; 32]).unwrap()
}

fn eip155_tx() -> TransactionData {
    TransactionData {
        nonce: U256::from_u64(9),
        gas_price: U256::from_u64(20_000_000_000),
        gas: U256::from_u64(21000),
        to: Address { bytes: [0x35; 20] },
        value: U256::from_u64(1_000_000_000_000_000_000),
        data: vec![],
    }
}

const EIP155_SIGNED: &str = "f86c098504a817c800825208943535353535353535353535353535353535353535880de0b6b3a76400008025a028ef61340bd939bc2195fe537567866003e1a15d3c71ff63e1590620aa636276a067cbe9d8997f761aecb703304b3800ccf555c9f3dc64214b297fb1966a3b6d83";

#[test]
fn signs_eip155_example() {
    let raw = sign_transaction(&eip155_tx(), &eip155_key(), 1);
    assert_eq!(raw, hex(EIP155_SIGNED));
}

#[test]
fn offline_preparation_signs_given_fields() {
    let builder = TransactionBuilder::new(Address { bytes: [0x35; 20] }, vec![])
        .sign(Sign::Offline(eip155_key(), Some(1)))
        .gas(U256::from_u64(21000))
        .gas_price(U256::from_u64(20_000_000_000))
        .nonce(U256::from_u64(9))
        .value(U256::from_u64(1_000_000_000_000_000_000));
    let prepare = PrepareFuture::from_builder(builder);
    assert!(prepare.queries().is_empty());
    let request = prepare.complete(vec![]).unwrap().into_request();
    assert_eq!(request, Request::Raw(hex(EIP155_SIGNED)));
}

#[test]
fn repeated_preparation_is_byte_identical() {
    let builder = TransactionBuilder::new(Address { bytes: [0xab; 20] }, vec![1, 2, 3])
        .sign(Sign::Offline(eip155_key(), Some(1)))
        .gas(U256::from_u64(21000))
        .gas_price(U256::from_u64(1_000_000_000))
        .nonce(U256::from_u64(5));
    let first = PrepareFuture::from_builder(builder.clone()).complete(vec![]).unwrap();
    let second = PrepareFuture::from_builder(builder).complete(vec![]).unwrap();
    let (a, b) = (first.into_request(), second.into_request());
    assert_eq!(a, b);
    match a {
        Request::Raw(raw) => {
            // list header, then nonce 5, gas price 1e9, gas 21000
            assert_eq!(raw[0], 0xf8);
            assert_eq!(&raw[2..11], &[0x05, 0x84, 0x3b, 0x9a, 0xca, 0x00, 0x82, 0x52, 0x08]);
        }
        other => panic!("unexpected {:?}", other),
    }
}

#[test]
fn chain_id_from_network_changes_signature() {
    let builder = TransactionBuilder::new(Address { bytes: [0x35; 20] }, vec![])
        .sign(Sign::Offline(eip155_key(), None))
        .gas(U256::from_u64(21000))
        .gas_price(U256::from_u64(20_000_000_000))
        .nonce(U256::from_u64(9))
        .value(U256::from_u64(1_000_000_000_000_000_000));
    let prepared = PrepareFuture::from_builder(builder)
        .complete(vec![Answer::NetVersion("1".to_string())])
        .unwrap();
    assert!(matches!(prepared, Prepared::Offline { chain_id: 1, .. }));
    assert_eq!(prepared.into_request(), Request::Raw(hex(EIP155_SIGNED)));
}

#[test]
fn rlp_strings_and_numbers() {
    let mut out = Vec::new();
    append_string(&mut out, &[]);
    append_string(&mut out, &[0x7f]);
    append_string(&mut out, &[0x80]);
    append_uint(&mut out, 0);
    append_uint(&mut out, 1024);
    append_u256(&mut out, &U256 { limbs: [0, 0, 0, 1 << 56] });
    let mut expected = vec![0x80, 0x7f, 0x81, 0x80, 0x80, 0x82, 0x04, 0x00, 0xa0, 0x01];
    expected.extend_from_slice(&[0u8; 31]);
    assert_eq!(out, expected);
}

#[test]
fn rlp_long_payloads() {
    let long = vec![0xaa; 60];
    let mut out = Vec::new();
    append_string(&mut out, &long);
    assert_eq!(&out[..2], &[0xb8, 60]);
    assert_eq!(out.len(), 62);
    let list = encode_list(&vec![0x01; 1024]);
    assert_eq!(&list[..3], &[0xf9, 0x04, 0x00]);
    assert_eq!(list.len(), 1027);
    assert_eq!(encode_list(&[]), vec![0xc0]);
}

#[test]
fn confirmed_offline_send_carries_signed_bytes() {
    let interval = std::time::Duration::from_millis(500);
    let fut = TransactionBuilder::new(Address { bytes: [0x35; 20] }, vec![])
        .sign(Sign::Offline(eip155_key(), Some(1)))
        .gas(U256::from_u64(21000))
        .gas_price(U256::from_u64(20_000_000_000))
        .nonce(U256::from_u64(9))
        .value(U256::from_u64(1_000_000_000_000_000_000))
        .execute_and_confirm(interval, 2);
    assert_eq!(
        fut.advance(vec![]),
        Ok(SendCall::SendRawTransactionWithConfirmation(hex(EIP155_SIGNED), interval, 2))
    );
}
