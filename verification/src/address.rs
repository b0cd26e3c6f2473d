//! The address of a party: a user account or a contract package.

use vstd::prelude::*;
use vstd::std_specs::cmp::{PartialEqSpecImpl, PartialOrdSpecImpl};
use vstd::std_specs::convert::FromSpecImpl;
use core::cmp::Ordering;
use crate::error::Error;
use crate::hash::{byte_order, compare_bytes, equal_bytes, hex_lower, AccountHash, ContractPackageHash};
use crate::key::{
    decoded_view, foreign_key_decoding, starts_with_party_tag, Key, KEY_SERIALIZED_LENGTH,
};

verus! {

/// Names a party by the hash of a user account or of a contract package.
#[derive(Eq, Ord, Hash, Clone, Copy, Debug)]
pub enum Address {
    /// A user account.
    Account(AccountHash),
    /// A contract package.
    Contract(ContractPackageHash),
}

impl Address {
    /// The account hash, where the address names an account.
    pub open spec fn account_hash(self) -> Option<AccountHash> {
        match self {
            Address::Account(hash) => Some(hash),
            Address::Contract(_) => None,
        }
    }

    /// The contract package hash, where the address names a contract package.
    pub open spec fn contract_package_hash(self) -> Option<ContractPackageHash> {
        match self {
            Address::Account(_) => None,
            Address::Contract(hash) => Some(hash),
        }
    }

    /// The bytes of the hash that the address holds.
    pub open spec fn payload(self) -> Seq<u8> {
        match self {
            Address::Account(hash) => hash@,
            Address::Contract(hash) => hash@,
        }
    }

    /// The storage key that stands for the address.
    pub open spec fn key(self) -> Key {
        match self {
            Address::Account(hash) => Key::Account(hash),
            Address::Contract(hash) => Key::Hash(hash.0),
        }
    }

    /// The encoded form of the address: that of its storage key.
    pub open spec fn encoding(self) -> Seq<u8> {
        self.key().encoding()
    }

    /// How the address stands to `other`: an account comes before a contract
    /// package, and two addresses of one kind stand as the bytes of their
    /// hashes do.
    pub open spec fn order(self, other: Address) -> Ordering {
        match (self, other) {
            (Address::Account(a), Address::Account(b)) => byte_order(a@, b@),
            (Address::Account(_), Address::Contract(_)) => Ordering::Less,
            (Address::Contract(_), Address::Account(_)) => Ordering::Greater,
            (Address::Contract(a), Address::Contract(b)) => byte_order(a@, b@),
        }
    }

    /// The address that a decoded storage key stands for, where `None` is a
    /// key of a kind that names no party.
    pub open spec fn of_key(key: Option<Key>) -> Result<Address, Error> {
        match key {
            Some(Key::Account(hash)) => Ok(Address::Account(hash)),
            Some(Key::Hash(addr)) => Ok(Address::Contract(ContractPackageHash(addr))),
            None => Err(Error::Formatting),
        }
    }

    /// Whether `decoded` is what decoding an address from `bytes` gives, where
    /// `foreign` is what the key decoder makes of input that starts with the
    /// tag of another kind of key.
    pub open spec fn is_decoding(
        bytes: Seq<u8>,
        foreign: Result<Seq<u8>, Error>,
        decoded: Result<(Address, Seq<u8>), Error>,
    ) -> bool {
        if bytes.len() == 0 {
            decoded == Err::<(Address, Seq<u8>), Error>(Error::EarlyEndOfStream)
        } else if starts_with_party_tag(bytes) {
            if bytes.len() < KEY_SERIALIZED_LENGTH {
                decoded == Err::<(Address, Seq<u8>), Error>(Error::EarlyEndOfStream)
            } else {
                decoded matches Ok((address, rest)) && address.encoding() + rest == bytes
            }
        } else {
            match foreign {
                Ok(_) => decoded == Err::<(Address, Seq<u8>), Error>(Error::Formatting),
                Err(error) => decoded == Err::<(Address, Seq<u8>), Error>(error),
            }
        }
    }

    /// Returns the inner account hash if `self` is the `Account` variant.
    pub fn as_account_hash(&self) -> (hash: Option<&AccountHash>)
        ensures
            hash is Some <==> self.account_hash() is Some,
            hash matches Some(inner) ==> self.account_hash() == Some(*inner),
    {
        if let Self::Account(v) = self {
            Some(v)
        } else {
            None
        }
    }

    /// Returns the inner contract package hash if `self` is the `Contract`
    /// variant.
    pub fn as_contract_package_hash(&self) -> (hash: Option<&ContractPackageHash>)
        ensures
            hash is Some <==> self.contract_package_hash() is Some,
            hash matches Some(inner) ==> self.contract_package_hash() == Some(*inner),
    {
        if let Self::Contract(v) = self {
            Some(v)
        } else {
            None
        }
    }

    /// The address as text: the bytes of its hash in lower-case hexadecimal.
    pub fn to_string(&self) -> (text: String)
        ensures
            text@ == hex_lower(self.payload()),
    {
        match self {
            Address::Account(hash) => hash.to_hex(),
            Address::Contract(hash) => hash.to_hex(),
        }
    }

    /// Encodes the address as the storage key that stands for it.
    pub fn to_bytes(&self) -> (encoded: Result<Vec<u8>, Error>)
        ensures
            encoded is Ok,
            encoded->Ok_0@ == self.encoding(),
    {
        Key::from(*self).to_bytes()
    }

    /// The number of bytes that `to_bytes` produces, without producing them.
    pub fn serialized_length(&self) -> (length: usize)
        ensures
            length == self.encoding().len(),
    {
        Key::from(*self).serialized_length()
    }

    /// The address that a decoded storage key stands for. An account key
    /// gives the account, a hash key the contract package of that hash; a key
    /// of another kind, given as `None`, is a formatting error.
    pub fn from_decoded_key(key: Option<Key>) -> (address: Result<Address, Error>)
        ensures
            address == Address::of_key(key),
    {
        match key {
            Some(Key::Account(account_hash)) => Ok(Address::Account(account_hash)),
            Some(Key::Hash(raw_contract_package_hash)) => {
                let contract_package_hash = ContractPackageHash::new(raw_contract_package_hash);
                Ok(Address::Contract(contract_package_hash))
            },
            None => Err(Error::Formatting),
        }
    }

    /// Decodes an address from the front of `bytes` and returns it with the
    /// bytes that follow it. Input that holds a storage key of a kind that
    /// names no party is a formatting error; an error of the key decoder is
    /// passed on as it is.
    pub fn from_bytes(bytes: &[u8]) -> (decoded: Result<(Address, &[u8]), Error>)
        ensures
            Address::is_decoding(bytes@, foreign_key_decoding(bytes@), decoded_view(decoded)),
    {
        let (key, remainder) = match Key::from_bytes(bytes) {
            Ok(found) => found,
            Err(error) => {
                return Err(error);
            },
        };
        match Address::from_decoded_key(key) {
            Ok(address) => Ok((address, remainder)),
            Err(error) => Err(error),
        }
    }
}

impl From<ContractPackageHash> for Address {
    fn from(contract_package_hash: ContractPackageHash) -> (address: Self) {
        Self::Contract(contract_package_hash)
    }
}

impl FromSpecImpl<ContractPackageHash> for Address {
    open spec fn obeys_from_spec() -> bool {
        true
    }

    open spec fn from_spec(contract_package_hash: ContractPackageHash) -> Self {
        Address::Contract(contract_package_hash)
    }
}

impl From<AccountHash> for Address {
    fn from(account_hash: AccountHash) -> (address: Self) {
        Self::Account(account_hash)
    }
}

impl FromSpecImpl<AccountHash> for Address {
    open spec fn obeys_from_spec() -> bool {
        true
    }

    open spec fn from_spec(account_hash: AccountHash) -> Self {
        Address::Account(account_hash)
    }
}

impl From<Address> for Key {
    fn from(address: Address) -> (key: Self) {
        match address {
            Address::Account(account_hash) => Key::Account(account_hash),
            Address::Contract(contract_package_hash) => Key::Hash(contract_package_hash.value()),
        }
    }
}

impl FromSpecImpl<Address> for Key {
    open spec fn obeys_from_spec() -> bool {
        true
    }

    open spec fn from_spec(address: Address) -> Self {
        address.key()
    }
}

impl PartialEq for Address {
    fn eq(&self, other: &Self) -> (equal: bool) {
        match (self, other) {
            (Address::Account(a), Address::Account(b)) => equal_bytes(&a.0, &b.0),
            (Address::Contract(a), Address::Contract(b)) => equal_bytes(&a.0, &b.0),
            _ => false,
        }
    }
}

impl PartialEqSpecImpl for Address {
    open spec fn obeys_eq_spec() -> bool {
        true
    }

    open spec fn eq_spec(&self, other: &Self) -> bool {
        *self == *other
    }
}

impl PartialOrd for Address {
    fn partial_cmp(&self, other: &Self) -> (order: Option<Ordering>) {
        match (self, other) {
            (Address::Account(a), Address::Account(b)) => Some(compare_bytes(&a.0, &b.0)),
            (Address::Account(_), Address::Contract(_)) => Some(Ordering::Less),
            (Address::Contract(_), Address::Account(_)) => Some(Ordering::Greater),
            (Address::Contract(a), Address::Contract(b)) => Some(compare_bytes(&a.0, &b.0)),
        }
    }
}

impl PartialOrdSpecImpl for Address {
    open spec fn obeys_partial_cmp_spec() -> bool {
        true
    }

    open spec fn partial_cmp_spec(&self, other: &Self) -> Option<Ordering> {
        Some(self.order(*other))
    }
}

} // verus!
