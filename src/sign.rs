//! Offline signing of a transaction for a chain, replay-protected by its
//! chain id.
use crate::key::{key_address, SecretKey};
use crate::rlp::{
    append_be_number, append_from, append_string, append_u256, append_uint, encode_list,
    rlp_list, rlp_string, rlp_u256, rlp_uint, strip_zeros,
};
use crate::types::TransactionData;
use vstd::prelude::*;

verus! {

/// A recoverable secp256k1 signature: recovery id and the two scalars, big
/// endian.
#[derive(Clone, Copy, Debug, PartialEq, Eq)]
pub struct RecoverableSignature {
    pub v: u8,
    pub r: [u8; 32],
    pub s: [u8; 32],
}

/// The Keccak-256 digest of `data`.
pub uninterp spec fn keccak256_of(data: Seq<u8>) -> Seq<u8>;

/// Relies on `web3::signing::keccak256`: the Keccak-256 digest of the bytes.
#[verifier::external_body]
fn keccak256(data: &[u8]) -> (r: [u8; 32])
    ensures
        r@ == keccak256_of(data@),
{
    web3::signing::keccak256(data)
}

/// The recoverable signature of the 32-byte `message` with the secret key
/// `secret`, where that is a valid key.
pub uninterp spec fn signature_of(secret: Seq<u8>, message: Seq<u8>) -> Option<
    RecoverableSignature,
>;

/// Relies on `ethsign::SecretKey::from_raw` and `SecretKey::sign`: a key is
/// made from a valid secret, and signing any 32-byte message with it succeeds.
#[verifier::external_body]
fn sign_message(secret: &[u8], message: &[u8; 32]) -> (r: Option<RecoverableSignature>)
    ensures
        r == signature_of(secret@, message@),
        key_address(secret@) is Some ==> r is Some,
{
    match ethsign::SecretKey::from_raw(secret) {
        Ok(key) => match key.sign(message) {
            Ok(sig) => Some(RecoverableSignature { v: sig.v, r: sig.r, s: sig.s }),
            Err(_) => None,
        },
        Err(_) => None,
    }
}

/// The encoded fields of a transaction, in order: nonce, gas price, gas,
/// recipient, value and call data.
pub open spec fn tx_fields(tx: TransactionData) -> Seq<u8> {
    rlp_u256(tx.nonce) + rlp_u256(tx.gas_price) + rlp_u256(tx.gas) + rlp_string(tx.to.bytes@)
        + rlp_u256(tx.value) + rlp_string(tx.data@)
}

/// What is hashed and signed: the fields, then the chain id and two zeros.
pub open spec fn signing_message(tx: TransactionData, chain_id: u64) -> Seq<u8> {
    rlp_list(tx_fields(tx) + rlp_uint(chain_id as nat) + rlp_uint(0) + rlp_uint(0))
}

/// The recovery value that binds a signature to the chain.
pub open spec fn replay_protected_v(recovery_id: u8, chain_id: u64) -> nat {
    recovery_id as nat + 35 + 2 * chain_id as nat
}

/// The signed transaction: the fields, then the recovery value and the two
/// scalars of the signature.
pub open spec fn signed_encoding(tx: TransactionData, sig: RecoverableSignature, chain_id: u64)
    -> Seq<u8> {
    rlp_list(
        tx_fields(tx) + rlp_uint(replay_protected_v(sig.v, chain_id)) + rlp_string(
            strip_zeros(sig.r@),
        ) + rlp_string(strip_zeros(sig.s@)),
    )
}

/// The raw transaction that the key with secret `secret` signs for chain
/// `chain_id`.
pub open spec fn signed_transaction(tx: TransactionData, secret: Seq<u8>, chain_id: u64) -> Seq<
    u8,
> {
    signed_encoding(tx, signature_of(secret, keccak256_of(signing_message(tx, chain_id)))->0, chain_id)
}

/// Signs `tx` with `key` for the chain `chain_id`; the result is ready to
/// broadcast.
pub fn sign_transaction(tx: &TransactionData, key: &SecretKey, chain_id: u64) -> (r: Vec<u8>)
    ensures
        r@ == signed_transaction(*tx, key.secret_view(), chain_id),
{
    let mut fields: Vec<u8> = Vec::new();
    append_u256(&mut fields, &tx.nonce);
    append_u256(&mut fields, &tx.gas_price);
    append_u256(&mut fields, &tx.gas);
    append_string(&mut fields, tx.to.bytes.as_slice());
    append_u256(&mut fields, &tx.value);
    append_string(&mut fields, tx.data.as_slice());
    assert(fields@ =~= tx_fields(*tx));

    let mut unsigned: Vec<u8> = Vec::new();
    append_from(&mut unsigned, fields.as_slice(), 0);
    append_uint(&mut unsigned, chain_id as u128);
    append_uint(&mut unsigned, 0);
    append_uint(&mut unsigned, 0);
    assert(fields@.subrange(0, fields@.len() as int) =~= fields@);
    let message = encode_list(unsigned.as_slice());
    assert(message@ =~= signing_message(*tx, chain_id));
    let hash = keccak256(message.as_slice());

    let secret = key.secret();
    let sig = match sign_message(secret.as_slice(), &hash) {
        Some(sig) => sig,
        None => vstd::pervasive::unreached(),
    };

    let mut signed: Vec<u8> = Vec::new();
    append_from(&mut signed, fields.as_slice(), 0);
    append_uint(&mut signed, sig.v as u128 + 35 + 2 * (chain_id as u128));
    append_be_number(&mut signed, sig.r.as_slice());
    append_be_number(&mut signed, sig.s.as_slice());
    let r = encode_list(signed.as_slice());
    assert(signed@ =~= tx_fields(*tx) + rlp_uint(replay_protected_v(sig.v, chain_id)) + rlp_string(
        strip_zeros(sig.r@),
    ) + rlp_string(strip_zeros(sig.s@)));
    r
}

} // verus!
