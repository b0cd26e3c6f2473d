use erc20_address::{AccountHash, Address, ContractPackageHash};

fn counting() -> [u8; 32] {
    let mut bytes = [0u8; 32];
    let mut i = 0;
    while i < 32 {
        bytes[i] = (i as u8) * 8 + 7;
        i += 1;
    }
    bytes
}

#[test]
fn account_renders_as_lower_case_hex() {
    let address = Address::Account(AccountHash::new(counting()));
    assert_eq!(
        address.to_string(),
        "070f171f272f373f474f575f676f777f878f979fa7afb7bfc7cfd7dfe7eff7ff"
    );
}

#[test]
fn contract_renders_as_lower_case_hex() {
    let address = Address::Contract(ContractPackageHash::new([0xab; 32]));
    assert_eq!(address.to_string(), "ab".repeat(32));
    let address = Address::Contract(ContractPackageHash::new([0x0c; 32]));
    assert_eq!(address.to_string(), "0c".repeat(32));
}

#[test]
fn text_has_two_digits_for_each_byte() {
    let address = Address::Account(AccountHash::new([0; 32]));
    assert_eq!(address.to_string().len(), 64);
    assert_eq!(address.to_string(), "0".repeat(64));
}

#[test]
fn text_agrees_with_the_storage_layer() {
    let account = casper_types::account::AccountHash::new(counting());
    let address = Address::Account(AccountHash::new(counting()));
    assert_eq!(address.to_string(), account.to_string());
    let package = casper_types::ContractPackageHash::new(counting());
    let address = Address::Contract(ContractPackageHash::new(counting()));
    assert_eq!(address.to_string(), package.to_string());
}

#[test]
fn text_does_not_tell_the_kinds_apart() {
    let account = Address::Account(AccountHash::new(counting()));
    let contract = Address::Contract(ContractPackageHash::new(counting()));
    assert_eq!(account.to_string(), contract.to_string());
}
