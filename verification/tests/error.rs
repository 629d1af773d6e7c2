use chain_registry::blockchain::{Bundled, DepGroupId, Network};
use chain_registry::bootnodes::load_raw_bootnodes_from_text;
use chain_registry::error::RegistryError;
use std::io;

#[test]
fn an_internal_error_shows_its_reason() {
    let error = RegistryError::Unreachable("failed to estimate".to_owned());
    assert_eq!(error.to_string(), "internal error: should be unreachable, failed to estimate");
    assert_eq!(
        RegistryError::Unreachable(String::new()).to_string(),
        "internal error: should be unreachable, "
    );
}

#[test]
fn an_unknown_name_shows_its_category_and_value() {
    let error = RegistryError::Unknown("bundled", "not/a/real/resource".to_owned());
    assert_eq!(error.to_string(), "unknown bundled 'not/a/real/resource'");
    let error = Bundled::from_str("x'y").unwrap_err();
    assert_eq!(error.to_string(), "unknown bundled 'x'y'");
    let error = Network::from_str("").unwrap_err();
    assert_eq!(error.to_string(), "unknown network ''");
    let error = DepGroupId::try_from(&[Bundled::Dao]).unwrap_err();
    assert_eq!(error.to_string(), "unknown dep-group '[Dao]'");
}

#[test]
fn an_unknown_record_shows_both_keys() {
    let error = RegistryError::UnknownSystemCell(Network::Testnet, Bundled::Secp256k1Data);
    assert_eq!(error.to_string(), "unknown system cell: Testnet, Secp256k1Data");
    assert_eq!(
        error.to_string(),
        format!("unknown system cell: {:?}, {:?}", Network::Testnet, Bundled::Secp256k1Data)
    );
    let error =
        RegistryError::UnknownDepGroup(Network::Develop, DepGroupId::Secp256k1Blake160MultiSig);
    assert_eq!(error.to_string(), "unknown dep group: Develop, Secp256k1Blake160MultiSig");
    for group in [DepGroupId::Secp256k1Blake160, DepGroupId::Secp256k1Blake160MultiSig] {
        assert_eq!(group.debug_name(), format!("{:?}", group));
        for network in [Network::Mainnet, Network::Testnet, Network::Staging, Network::Develop] {
            assert_eq!(
                RegistryError::UnknownDepGroup(network, group).to_string(),
                format!("unknown dep group: {:?}, {:?}", network, group)
            );
        }
    }
}

#[test]
fn a_toml_error_shows_what_toml_says() {
    let text = "[network";
    let said = text.parse::<toml::Value>().unwrap_err().to_string();
    let error = load_raw_bootnodes_from_text(text, "mainnet").unwrap_err();
    assert_eq!(error.to_string(), format!("toml error: {}", said));
    assert!(error.to_string().len() > "toml error: ".len());
}

#[test]
fn an_io_error_shows_what_the_system_says() {
    let error = RegistryError::IO(io::Error::new(io::ErrorKind::NotFound, "no such table"));
    assert_eq!(error.to_string(), "io error: no such table");
}
