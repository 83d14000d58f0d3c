//! Plain values that describe accounts, amounts and transactions.
use vstd::prelude::*;

verus! {

/// A 160-bit account address.
#[derive(Clone, Copy, Debug, PartialEq, Eq)]
pub struct Address {
    pub bytes: [u8; 20],
}

impl Address {
    /// Whether every byte of the address is zero.
    pub open spec fn is_zero(self) -> bool {
        forall|i: int| 0 <= i < 20 ==> #[trigger] self.bytes@[i] == 0
    }

    /// The all-zero address.
    pub open spec fn zero_spec() -> Address {
        Address { bytes: vstd::array::spec_array_fill_for_copy_type(0u8) }
    }

    /// The all-zero address.
    pub fn zero() -> (r: Address)
        ensures
            r == Address::zero_spec(),
            r.is_zero(),
    {
        Address { bytes: vstd::array::array_fill_for_copy_types(0u8) }
    }
}

/// A 256-bit unsigned integer, as four 64-bit limbs, least significant first.
#[derive(Clone, Copy, Debug, PartialEq, Eq)]
pub struct U256 {
    pub limbs: [u64; 4],
}

pub open spec fn limb_base() -> nat {
    0x1_0000_0000_0000_0000nat
}

impl U256 {
    /// The number that the limbs stand for.
    pub open spec fn value(self) -> nat {
        self.limbs@[0] as nat + limb_base() * (self.limbs@[1] as nat + limb_base() * (
        self.limbs@[2] as nat + limb_base() * self.limbs@[3] as nat))
    }

    /// The number `v`.
    pub fn from_u64(v: u64) -> (r: U256)
        ensures
            r.value() == v as nat,
    {
        let r = U256 { limbs: [v, 0, 0, 0] };
        assert(r.limbs@[1] == 0 && r.limbs@[2] == 0 && r.limbs@[3] == 0);
        r
    }

    /// The number zero.
    pub open spec fn zero_spec() -> U256 {
        U256 { limbs: vstd::array::spec_array_fill_for_copy_type(0u64) }
    }

    /// The number zero.
    pub fn zero() -> (r: U256)
        ensures
            r == U256::zero_spec(),
            r.value() == 0,
    {
        let r = U256 { limbs: vstd::array::array_fill_for_copy_types(0u64) };
        assert(r.limbs@[0] == 0 && r.limbs@[1] == 0 && r.limbs@[2] == 0 && r.limbs@[3] == 0);
        r
    }
}

/// A condition the node waits for before it submits a transaction it signs.
#[derive(Clone, Copy, Debug, PartialEq, Eq)]
pub enum TransactionCondition {
    /// Submit once the chain has reached this block number.
    Block(u64),
    /// Submit once the chain has reached this timestamp.
    Timestamp(u64),
}

/// An unsigned transaction that the node signs with an account it holds.
#[derive(Clone, Debug, PartialEq, Eq)]
pub struct TransactionRequest {
    pub from: Address,
    pub to: Option<Address>,
    pub gas: Option<U256>,
    pub gas_price: Option<U256>,
    pub value: Option<U256>,
    pub data: Option<Vec<u8>>,
    pub nonce: Option<U256>,
    pub condition: Option<TransactionCondition>,
}

/// The arguments of a gas estimate: a call that the node simulates.
#[derive(Clone, Debug, PartialEq, Eq)]
pub struct CallRequest {
    pub from: Option<Address>,
    pub to: Address,
    pub gas: Option<U256>,
    pub gas_price: Option<U256>,
    pub value: Option<U256>,
    pub data: Option<Vec<u8>>,
}

/// Every field of a transaction that is signed offline, all of them resolved.
#[derive(Clone, Debug, PartialEq, Eq)]
pub struct TransactionData {
    pub nonce: U256,
    pub gas_price: U256,
    pub gas: U256,
    pub to: Address,
    pub value: U256,
    pub data: Vec<u8>,
}

/// Why executing a transaction failed.
#[derive(Clone, Debug, PartialEq, Eq)]
pub enum ExecutionError {
    /// A query or a send call to the node failed; the text describes how.
    Web3(String),
    /// The network identifier given in place of a chain id is not a number.
    ParseChainId(String),
}

} // verus!
