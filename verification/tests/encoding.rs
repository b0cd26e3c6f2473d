use casper_types::bytesrepr::{FromBytes, ToBytes};
use casper_types::{AccessRights, DeployHash, EraId, TransferAddr, URef};
use erc20_address::key::{ACCOUNT_TAG, HASH_TAG, KEY_SERIALIZED_LENGTH};
use erc20_address::{AccountHash, Address, ContractPackageHash, Error, Key};

fn counting() -> [u8; 32] {
    let mut bytes = [0u8; 32];
    let mut i = 0;
    while i < 32 {
        bytes[i] = (i as u8) * 3 + 1;
        i += 1;
    }
    bytes
}

fn account() -> Address {
    Address::Account(AccountHash::new(counting()))
}

fn contract() -> Address {
    Address::Contract(ContractPackageHash::new(counting()))
}

fn outside_account_key() -> casper_types::Key {
    casper_types::Key::Account(casper_types::account::AccountHash::new(counting()))
}

fn tagged(tag: u8, payload: &[u8]) -> Vec<u8> {
    let mut bytes = vec![tag];
    bytes.extend_from_slice(payload);
    bytes
}

#[test]
fn account_encodes_as_its_account_key() {
    let encoded = account().to_bytes().unwrap();
    assert_eq!(encoded, outside_account_key().to_bytes().unwrap());
    assert_eq!(encoded, tagged(ACCOUNT_TAG, &counting()));
}

#[test]
fn account_round_trips() {
    let encoded = account().to_bytes().unwrap();
    let empty: &[u8] = &[];
    assert_eq!(Address::from_bytes(&encoded), Ok((account(), empty)));
}

#[test]
fn contract_encodes_as_its_hash_key() {
    let encoded = contract().to_bytes().unwrap();
    assert_eq!(encoded, casper_types::Key::Hash(counting()).to_bytes().unwrap());
    assert_eq!(encoded, tagged(HASH_TAG, &counting()));
}

#[test]
fn contract_round_trips() {
    let encoded = contract().to_bytes().unwrap();
    let empty: &[u8] = &[];
    assert_eq!(Address::from_bytes(&encoded), Ok((contract(), empty)));
}

#[test]
fn account_and_contract_of_one_hash_encode_differently() {
    assert_ne!(account().to_bytes().unwrap(), contract().to_bytes().unwrap());
}

#[test]
fn contract_becomes_the_hash_key_of_its_bytes() {
    assert_eq!(Key::from(contract()), Key::Hash(counting()));
    let package = casper_types::ContractPackageHash::new(counting());
    assert_eq!(casper_types::Key::from(package), casper_types::Key::Hash(counting()));
}

#[test]
fn account_becomes_the_account_key_of_its_hash() {
    assert_eq!(Key::from(account()), Key::Account(AccountHash::new(counting())));
}

#[test]
fn decoded_account_key_gives_the_account() {
    let key = Key::Account(AccountHash::new(counting()));
    assert_eq!(Address::from_decoded_key(Some(key)), Ok(account()));
}

#[test]
fn decoded_hash_key_gives_the_contract() {
    assert_eq!(Address::from_decoded_key(Some(Key::Hash(counting()))), Ok(contract()));
}

#[test]
fn decoded_key_of_another_kind_is_a_formatting_error() {
    assert_eq!(Address::from_decoded_key(None), Err(Error::Formatting));
}

#[test]
fn key_conversion_leads_back_to_the_address() {
    assert_eq!(Address::from_decoded_key(Some(Key::from(account()))), Ok(account()));
    assert_eq!(Address::from_decoded_key(Some(Key::from(contract()))), Ok(contract()));
}

#[test]
fn serialized_length_agrees_with_to_bytes() {
    assert_eq!(account().serialized_length(), account().to_bytes().unwrap().len());
    assert_eq!(contract().serialized_length(), contract().to_bytes().unwrap().len());
    assert_eq!(account().serialized_length(), 33);
    assert_eq!(contract().serialized_length(), KEY_SERIALIZED_LENGTH);
    assert_eq!(outside_account_key().serialized_length(), 33);
}

#[test]
fn bytes_after_the_address_are_returned() {
    let mut encoded = contract().to_bytes().unwrap();
    encoded.extend_from_slice(&[9, 8, 7]);
    let rest: &[u8] = &[9, 8, 7];
    assert_eq!(Address::from_bytes(&encoded), Ok((contract(), rest)));
}

#[test]
fn two_addresses_in_a_row_decode_in_turn() {
    let mut encoded = account().to_bytes().unwrap();
    encoded.extend(contract().to_bytes().unwrap());
    let (first, rest) = Address::from_bytes(&encoded).unwrap();
    let (second, rest) = Address::from_bytes(rest).unwrap();
    assert_eq!(first, account());
    assert_eq!(second, contract());
    assert!(rest.is_empty());
}

#[test]
fn empty_input_ends_early() {
    assert_eq!(Address::from_bytes(&[]), Err(Error::EarlyEndOfStream));
}

#[test]
fn tag_alone_ends_early() {
    assert_eq!(Address::from_bytes(&[ACCOUNT_TAG]), Err(Error::EarlyEndOfStream));
    assert_eq!(Address::from_bytes(&[HASH_TAG]), Err(Error::EarlyEndOfStream));
}

#[test]
fn one_byte_short_ends_early() {
    let encoded = account().to_bytes().unwrap();
    assert_eq!(Address::from_bytes(&encoded[..32]), Err(Error::EarlyEndOfStream));
    let encoded = contract().to_bytes().unwrap();
    assert_eq!(Address::from_bytes(&encoded[..32]), Err(Error::EarlyEndOfStream));
}

#[test]
fn uref_key_is_a_formatting_error() {
    let key = casper_types::Key::URef(URef::new(counting(), AccessRights::READ_ADD_WRITE));
    let encoded = key.to_bytes().unwrap();
    assert_eq!(Address::from_bytes(&encoded), Err(Error::Formatting));
}

#[test]
fn every_other_kind_of_key_is_a_formatting_error() {
    let outside = casper_types::account::AccountHash::new(counting());
    let keys = vec![
        casper_types::Key::Transfer(TransferAddr::new(counting())),
        casper_types::Key::DeployInfo(DeployHash::new(counting())),
        casper_types::Key::EraInfo(EraId::new(77)),
        casper_types::Key::Balance(counting()),
        casper_types::Key::Bid(outside),
        casper_types::Key::Withdraw(outside),
        casper_types::Key::Dictionary(counting()),
        casper_types::Key::SystemContractRegistry,
    ];
    for key in keys {
        let encoded = key.to_bytes().unwrap();
        assert_eq!(Address::from_bytes(&encoded), Err(Error::Formatting));
    }
}

#[test]
fn unknown_tag_is_a_formatting_error() {
    assert_eq!(Address::from_bytes(&tagged(200, &counting())), Err(Error::Formatting));
}

#[test]
fn truncated_key_of_another_kind_ends_early() {
    let key = casper_types::Key::URef(URef::new(counting(), AccessRights::READ));
    let encoded = key.to_bytes().unwrap();
    assert_eq!(Address::from_bytes(&encoded[..20]), Err(Error::EarlyEndOfStream));
}

#[test]
fn malformed_key_of_another_kind_passes_its_error_on() {
    let key = casper_types::Key::URef(URef::new(counting(), AccessRights::READ));
    let mut encoded = key.to_bytes().unwrap();
    let last = encoded.len() - 1;
    encoded[last] = 0xff;
    assert_eq!(
        casper_types::bytesrepr::deserialize::<casper_types::Key>(encoded.clone()),
        Err(casper_types::bytesrepr::Error::Formatting)
    );
    assert_eq!(Address::from_bytes(&encoded), Err(Error::Formatting));
}

#[test]
fn decoding_agrees_with_the_key_decoder_on_account_and_hash_keys() {
    let mut encoded = account().to_bytes().unwrap();
    encoded.push(5);
    let (key, rest) = casper_types::Key::from_bytes(&encoded).unwrap();
    assert_eq!(key, outside_account_key());
    let (address, left) = Address::from_bytes(&encoded).unwrap();
    assert_eq!(address, account());
    assert_eq!(left, rest);
}

#[test]
fn accessors_give_the_hash_of_their_own_kind_only() {
    let hash = AccountHash::new(counting());
    let package = ContractPackageHash::new(counting());
    assert_eq!(account().as_account_hash(), Some(&hash));
    assert_eq!(account().as_contract_package_hash(), None);
    assert_eq!(contract().as_contract_package_hash(), Some(&package));
    assert_eq!(contract().as_account_hash(), None);
}

#[test]
fn hashes_convert_into_addresses_of_their_kind() {
    assert_eq!(Address::from(AccountHash::new(counting())), account());
    assert_eq!(Address::from(ContractPackageHash::new(counting())), contract());
    let address: Address = AccountHash::new([0; 32]).into();
    assert_eq!(address, Address::Account(AccountHash([0; 32])));
}

#[test]
fn hashes_hand_back_their_bytes() {
    assert_eq!(AccountHash::new(counting()).value(), counting());
    assert_eq!(ContractPackageHash::new(counting()).value(), counting());
    assert_eq!(AccountHash::new(counting()).0, counting());
}

#[test]
fn errors_are_told_apart() {
    let all = [
        Error::EarlyEndOfStream,
        Error::Formatting,
        Error::LeftOverBytes,
        Error::OutOfMemory,
        Error::ExceededRecursionDepth,
    ];
    for (i, a) in all.iter().enumerate() {
        for (j, b) in all.iter().enumerate() {
            assert_eq!(a == b, i == j);
        }
    }
}
