//! What holds of every address: how its two forms, as a storage key and as
//! bytes, lead back to it, and that its order is a total one.

use vstd::prelude::*;
use core::cmp::Ordering;
use crate::address::Address;
use crate::error::Error;
use crate::hash::{
    lemma_precedes_asymmetric, lemma_precedes_total, lemma_precedes_transitive, AccountHash,
    ContractPackageHash,
};
use crate::key::{Key, KEY_SERIALIZED_LENGTH};

verus! {

/// An address holds exactly one of the two hashes: the accessor of its own
/// kind gives the hash it was made of, and the other accessor gives nothing.
pub proof fn lemma_accessors_exclusive(address: Address)
    ensures
        address.account_hash() is Some != address.contract_package_hash() is Some,
        address.account_hash() matches Some(hash) ==> address == Address::Account(hash),
        address.contract_package_hash() matches Some(hash) ==> address == Address::Contract(hash),
{
}

/// The storage key of an address leads back to the address.
pub proof fn lemma_key_round_trip(address: Address)
    ensures
        Address::of_key(Some(address.key())) == Ok::<Address, Error>(address),
{
}

/// A storage key that names a party leads to an address whose storage key it
/// is.
pub proof fn lemma_key_of_address(key: Key)
    ensures
        Address::of_key(Some(key)) matches Ok(address) && address.key() == key,
{
}

/// The encoded form of every address has the length of an encoded key.
pub proof fn lemma_encoding_length(address: Address)
    ensures
        address.encoding().len() == KEY_SERIALIZED_LENGTH,
{
}

/// Two addresses with one encoded form are one address.
pub proof fn lemma_encoding_injective(a: Address, b: Address)
    requires
        a.encoding() == b.encoding(),
    ensures
        a == b,
{
    assert(a.key().tag() == a.encoding()[0]);
    assert(b.key().tag() == b.encoding()[0]);
    assert forall|i: int| 0 <= i < 32 implies a.payload()[i] == b.payload()[i] by {
        assert(a.encoding()[i + 1] == a.payload()[i]);
        assert(b.encoding()[i + 1] == b.payload()[i]);
    }
    assert(a.payload() =~= b.payload());
    match (a, b) {
        (Address::Account(x), Address::Account(y)) => {
            assert(x.0 =~= y.0);
        },
        (Address::Contract(x), Address::Contract(y)) => {
            assert(x.0 =~= y.0);
        },
        _ => {},
    }
}

/// Decoding input that starts with what an address encodes to gives the
/// address back, with all that follows it left over, whatever the key decoder
/// makes of other kinds of key.
pub proof fn lemma_decode_encoded(address: Address, rest: Seq<u8>)
    ensures
        forall|foreign: Result<Seq<u8>, Error>, decoded: Result<(Address, Seq<u8>), Error>|
            #[trigger] Address::is_decoding(address.encoding() + rest, foreign, decoded)
                ==> decoded == Ok::<(Address, Seq<u8>), Error>((address, rest)),
{
    let bytes = address.encoding() + rest;
    assert(bytes[0] == address.encoding()[0]);
    let expected = Ok::<(Address, Seq<u8>), Error>((address, rest));
    assert forall|foreign: Result<Seq<u8>, Error>, decoded: Result<(Address, Seq<u8>), Error>|
        #[trigger] Address::is_decoding(bytes, foreign, decoded) implies decoded == expected by {
        let (found, left) = decoded->Ok_0;
        let length = KEY_SERIALIZED_LENGTH as int;
        assert(found.encoding() =~= bytes.subrange(0, length));
        assert(address.encoding() =~= bytes.subrange(0, length));
        assert(left =~= bytes.subrange(length, bytes.len() as int));
        assert(rest =~= bytes.subrange(length, bytes.len() as int));
        lemma_encoding_injective(found, address);
    }
}

/// Decoding what an address encodes to gives the address back, with nothing
/// left over.
pub proof fn lemma_round_trip(address: Address)
    ensures
        forall|foreign: Result<Seq<u8>, Error>, decoded: Result<(Address, Seq<u8>), Error>|
            #[trigger] Address::is_decoding(address.encoding(), foreign, decoded) ==> decoded
                == Ok::<(Address, Seq<u8>), Error>((address, Seq::empty())),
{
    lemma_decode_encoded(address, Seq::empty());
    assert(address.encoding() + Seq::<u8>::empty() =~= address.encoding());
}

/// Two addresses stand equal in order exactly when they are one address.
pub proof fn lemma_order_equal(a: Address, b: Address)
    ensures
        a.order(b) == Ordering::Equal <==> a == b,
{
    match (a, b) {
        (Address::Account(x), Address::Account(y)) => {
            if x@ == y@ {
                assert(x.0 =~= y.0);
            }
        },
        (Address::Contract(x), Address::Contract(y)) => {
            if x@ == y@ {
                assert(x.0 =~= y.0);
            }
        },
        _ => {},
    }
}

/// One address comes before another exactly when the other comes after it.
pub proof fn lemma_order_reverse(a: Address, b: Address)
    ensures
        a.order(b) == Ordering::Less <==> b.order(a) == Ordering::Greater,
{
    lemma_precedes_asymmetric(a.payload(), b.payload());
    if a.payload() != b.payload() {
        lemma_precedes_total(a.payload(), b.payload());
    }
}

/// The order carries over: an address before one that is before a third is
/// before the third.
pub proof fn lemma_order_transitive(a: Address, b: Address, c: Address)
    requires
        a.order(b) == Ordering::Less,
        b.order(c) == Ordering::Less,
    ensures
        a.order(c) == Ordering::Less,
{
    if (a is Account) == (b is Account) && (b is Account) == (c is Account) {
        lemma_precedes_transitive(a.payload(), b.payload(), c.payload());
        lemma_precedes_asymmetric(a.payload(), b.payload());
        if a.payload() == c.payload() {
            lemma_precedes_asymmetric(b.payload(), c.payload());
        }
    }
}

/// Every account comes before every contract package.
pub proof fn lemma_account_before_contract(account: AccountHash, package: ContractPackageHash)
    ensures
        Address::Account(account).order(Address::Contract(package)) == Ordering::Less,
        Address::Contract(package).order(Address::Account(account)) == Ordering::Greater,
{
}

} // verus!
