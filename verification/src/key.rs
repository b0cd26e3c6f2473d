//! The storage layer's keys, as far as they can name a party, and their
//! binary form.

use vstd::prelude::*;
use casper_types::bytesrepr;
use casper_types::bytesrepr::{FromBytes, ToBytes};
use crate::error::Error;
use crate::hash::{AccountHash, HashAddr};

verus! {

/// The first byte of an encoded account key.
pub const ACCOUNT_TAG: u8 = 0;

/// The first byte of an encoded hash key.
pub const HASH_TAG: u8 = 1;

/// The number of bytes in an encoded account key or hash key.
pub const KEY_SERIALIZED_LENGTH: usize = 33;

/// A storage key of one of the two kinds that can name a party, holding what
/// the variant of the same name of `casper_types::Key` holds. The storage
/// layer has further kinds of key; none of them stands for an address.
#[derive(PartialEq, Eq, Hash, Clone, Copy, Debug)]
pub enum Key {
    /// The key under which a user account is stored.
    Account(AccountHash),
    /// The key under which a contract or a contract package is stored.
    Hash(HashAddr),
}

impl Key {
    /// The byte that tells the kinds of key apart in the encoded form.
    pub open spec fn tag(self) -> u8 {
        match self {
            Key::Account(_) => ACCOUNT_TAG,
            Key::Hash(_) => HASH_TAG,
        }
    }

    /// The bytes of the hash that the key holds.
    pub open spec fn payload(self) -> Seq<u8> {
        match self {
            Key::Account(hash) => hash@,
            Key::Hash(addr) => addr@,
        }
    }

    /// The encoded form of the key: its tag, then the bytes of its hash.
    pub open spec fn encoding(self) -> Seq<u8> {
        seq![self.tag()] + self.payload()
    }

    /// Encodes the key.
    ///
    /// Trusted: this builds the `casper_types::Key` of the same variant and
    /// bytes and returns what `casper_types::bytesrepr::ToBytes::to_bytes`
    /// returns for it, with an error turned into the one of this library that
    /// has the same name. For these two variants the result is always `Ok`,
    /// of the tag byte followed by the 32 bytes that the key holds.
    #[verifier::external_body]
    pub(crate) fn to_bytes(&self) -> (encoded: Result<Vec<u8>, Error>)
        ensures
            encoded is Ok,
            encoded->Ok_0@ == self.encoding(),
    {
        let key = match self {
            Key::Account(hash) => casper_types::Key::Account(casper_types::account::AccountHash::new(hash.0)),
            Key::Hash(addr) => casper_types::Key::Hash(*addr),
        };
        match key.to_bytes() {
            Ok(bytes) => Ok(bytes),
            Err(error) => Err(match error {
                bytesrepr::Error::EarlyEndOfStream => Error::EarlyEndOfStream,
                bytesrepr::Error::Formatting => Error::Formatting,
                bytesrepr::Error::LeftOverBytes => Error::LeftOverBytes,
                bytesrepr::Error::OutOfMemory => Error::OutOfMemory,
                bytesrepr::Error::ExceededRecursionDepth => Error::ExceededRecursionDepth,
            }),
        }
    }

    /// The length of the key's encoded form, without encoding it.
    ///
    /// Trusted: this builds the `casper_types::Key` of the same variant and
    /// bytes and returns what
    /// `casper_types::bytesrepr::ToBytes::serialized_length` returns for it,
    /// which for these two variants is one byte for the tag and 32 for the
    /// hash.
    #[verifier::external_body]
    pub(crate) fn serialized_length(&self) -> (length: usize)
        ensures
            length == KEY_SERIALIZED_LENGTH,
    {
        let key = match self {
            Key::Account(hash) => casper_types::Key::Account(casper_types::account::AccountHash::new(hash.0)),
            Key::Hash(addr) => casper_types::Key::Hash(*addr),
        };
        key.serialized_length()
    }

    /// Decodes a storage key from the front of `bytes` and returns it with the
    /// bytes that follow it, or `None` in its place where the key is of a kind
    /// other than the two above.
    ///
    /// Trusted: this returns what
    /// `casper_types::bytesrepr::FromBytes::from_bytes` returns for
    /// `casper_types::Key`, with an account key, a hash key and an error each
    /// turned into the value of this library that has the same name, and any
    /// other key into `None`. That decoder fails with `EarlyEndOfStream` on
    /// empty input. Where the first byte is the account tag or the hash tag
    /// it takes the 32 bytes after it for the hash, fails with
    /// `EarlyEndOfStream` if there are fewer, and leaves over what follows
    /// them. On any other first byte what it returns is named by
    /// [`foreign_key_decoding`]; it is then never an account key or a hash
    /// key.
    #[verifier::external_body]
    pub(crate) fn from_bytes(bytes: &[u8]) -> (decoded: Result<(Option<Key>, &[u8]), Error>)
        ensures
            is_key_decoding(bytes@, foreign_key_decoding(bytes@), decoded_view(decoded)),
    {
        match casper_types::Key::from_bytes(bytes) {
            Ok((casper_types::Key::Account(hash), rest)) => Ok((Some(Key::Account(AccountHash(hash.value()))), rest)),
            Ok((casper_types::Key::Hash(addr), rest)) => Ok((Some(Key::Hash(addr)), rest)),
            Ok((_, rest)) => Ok((None, rest)),
            Err(error) => Err(match error {
                bytesrepr::Error::EarlyEndOfStream => Error::EarlyEndOfStream,
                bytesrepr::Error::Formatting => Error::Formatting,
                bytesrepr::Error::LeftOverBytes => Error::LeftOverBytes,
                bytesrepr::Error::OutOfMemory => Error::OutOfMemory,
                bytesrepr::Error::ExceededRecursionDepth => Error::ExceededRecursionDepth,
            }),
        }
    }
}

/// What `casper_types::bytesrepr::FromBytes::from_bytes` returns for
/// `casper_types::Key` on input whose first byte is neither the account tag
/// nor the hash tag: the bytes that follow the key it found there, or the
/// reason why it found none.
pub uninterp spec fn foreign_key_decoding(bytes: Seq<u8>) -> Result<Seq<u8>, Error>;

/// What a decoder returned, with the bytes it left over as a sequence.
pub open spec fn decoded_view<T>(decoded: Result<(T, &[u8]), Error>) -> Result<(T, Seq<u8>), Error> {
    match decoded {
        Ok((value, rest)) => Ok((value, rest@)),
        Err(error) => Err(error),
    }
}

/// Whether `bytes` start with the tag of an account key or of a hash key.
pub open spec fn starts_with_party_tag(bytes: Seq<u8>) -> bool {
    bytes.len() > 0 && (bytes[0] == ACCOUNT_TAG || bytes[0] == HASH_TAG)
}

/// Whether `decoded` is what decoding a storage key from `bytes` gives, where
/// `foreign` is what the decoder makes of input that starts with another tag.
pub open spec fn is_key_decoding(
    bytes: Seq<u8>,
    foreign: Result<Seq<u8>, Error>,
    decoded: Result<(Option<Key>, Seq<u8>), Error>,
) -> bool {
    if bytes.len() == 0 {
        decoded == Err::<(Option<Key>, Seq<u8>), Error>(Error::EarlyEndOfStream)
    } else if starts_with_party_tag(bytes) {
        if bytes.len() < KEY_SERIALIZED_LENGTH {
            decoded == Err::<(Option<Key>, Seq<u8>), Error>(Error::EarlyEndOfStream)
        } else {
            decoded matches Ok((Some(key), rest)) && key.encoding() + rest == bytes
        }
    } else {
        match foreign {
            Ok(rest) => decoded == Ok::<(Option<Key>, Seq<u8>), Error>((None, rest)),
            Err(error) => decoded == Err::<(Option<Key>, Seq<u8>), Error>(error),
        }
    }
}

} // verus!
