//! Private keys for offline signing.
use crate::types::Address;
use vstd::prelude::*;

verus! {

/// The account that the secp256k1 secret `secret` signs for, where `secret`
/// is a valid secret key.
pub uninterp spec fn key_address(secret: Seq<u8>) -> Option<Address>;

/// Relies on `ethsign::SecretKey::from_raw`, which accepts exactly the valid
/// secp256k1 secrets, and on `PublicKey::address`, the account of the key.
#[verifier::external_body]
fn derive_address(secret: &[u8]) -> (r: Option<Address>)
    ensures
        r == key_address(secret@),
{
    match ethsign::SecretKey::from_raw(secret) {
        Ok(key) => Some(Address { bytes: *key.public().address() }),
        Err(_) => None,
    }
}

/// A valid secp256k1 secret key, together with the account it signs for.
#[derive(Debug)]
pub struct SecretKey {
    secret: Vec<u8>,
    address: Address,
}

impl SecretKey {
    #[verifier::type_invariant]
    spec fn valid(self) -> bool {
        key_address(self.secret@) == Some(self.address)
    }

    /// The raw bytes of the secret.
    pub closed spec fn secret_view(self) -> Seq<u8> {
        self.secret@
    }

    /// The account that this key signs for.
    pub closed spec fn address_view(self) -> Address {
        self.address
    }

    /// The key whose raw secret is `secret`, where that is a valid secret key.
    pub fn from_raw(secret: Vec<u8>) -> (r: Option<SecretKey>)
        ensures
            r is Some <==> key_address(secret@) is Some,
            r matches Some(k) ==> k.secret_view() == secret@ && Some(k.address_view())
                == key_address(secret@),
    {
        match derive_address(secret.as_slice()) {
            Some(address) => Some(SecretKey { secret, address }),
            None => None,
        }
    }

    /// The account that this key signs for.
    pub fn address(&self) -> (r: Address)
        ensures
            r == self.address_view(),
            Some(r) == key_address(self.secret_view()),
    {
        proof {
            use_type_invariant(self);
        }
        self.address
    }

    /// The raw bytes of the secret.
    pub fn secret(&self) -> (r: &Vec<u8>)
        ensures
            r@ == self.secret_view(),
            key_address(r@) is Some,
    {
        proof {
            use_type_invariant(self);
        }
        &self.secret
    }
}

impl Clone for SecretKey {
    fn clone(&self) -> (r: SecretKey) {
        proof {
            use_type_invariant(self);
        }
        SecretKey { secret: self.secret.clone(), address: self.address }
    }
}

} // verus!
