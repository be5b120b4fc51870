use rgb_utils::errors::ErrorKind;
use rgb_utils::info::AssetSchema;
use rgb_utils::memory::MemoryStore;
use rgb_utils::records::RgbKvStoreExt;
use rgb_utils::wallet::{
    get_consignment_path, get_indexer_url, get_reuse_addresses, get_wallet_settings,
    supported_schemas, WalletSettings, BITCOIN_NETWORK_FNAME, INDEXER_URL_FNAME,
    WALLET_ACCOUNT_XPUB_COLORED_FNAME, WALLET_ACCOUNT_XPUB_VANILLA_FNAME,
    WALLET_MASTER_FINGERPRINT_FNAME, WALLET_REUSE_ADDRESSES_FNAME,
};
use rgb_utils::witness::{
    holder_validate_install_psbt_output_witness_scripts_hex,
    holder_validate_take_psbt_output_witness_scripts_hex, WitnessScripts,
};

fn filled() -> MemoryStore {
    let mut store = MemoryStore::new();
    store.write_config(BITCOIN_NETWORK_FNAME, "Regtest").unwrap();
    store.write_config(WALLET_ACCOUNT_XPUB_VANILLA_FNAME, "vanilla").unwrap();
    store.write_config(WALLET_ACCOUNT_XPUB_COLORED_FNAME, "colored").unwrap();
    store.write_config(WALLET_MASTER_FINGERPRINT_FNAME, "fingerprint").unwrap();
    store
}

#[test]
fn settings_are_read_from_the_store() {
    let mut store = filled();
    let mut expected = WalletSettings {
        bitcoin_network: "Regtest".to_string(),
        account_xpub_vanilla: "vanilla".to_string(),
        account_xpub_colored: "colored".to_string(),
        master_fingerprint: "fingerprint".to_string(),
        reuse_addresses: false,
    };
    assert_eq!(get_wallet_settings(&mut store).unwrap(), expected);
    store.write_config(WALLET_REUSE_ADDRESSES_FNAME, "true").unwrap();
    expected.reuse_addresses = true;
    assert_eq!(get_wallet_settings(&mut store).unwrap(), expected);
    store.write_config(WALLET_REUSE_ADDRESSES_FNAME, "True").unwrap();
    assert!(!get_reuse_addresses(&mut store));
}

#[test]
fn missing_setting_is_reported() {
    let mut store = MemoryStore::new();
    assert_eq!(get_wallet_settings(&mut store).unwrap_err().kind(), ErrorKind::NotFound);
    assert_eq!(get_indexer_url(&mut store).unwrap_err().kind(), ErrorKind::NotFound);
    store.write_config(INDEXER_URL_FNAME, "tcp://indexer").unwrap();
    assert_eq!(get_indexer_url(&mut store).unwrap(), "tcp://indexer");
}

#[test]
fn wallet_supports_all_schemas() {
    assert_eq!(
        supported_schemas(),
        vec![AssetSchema::Nia, AssetSchema::Cfa, AssetSchema::Uda, AssetSchema::Ifa]
    );
}

#[test]
fn consignment_file_is_named_after_the_funding() {
    assert_eq!(get_consignment_path("/data", "txid"), "/data/consignment_txid");
}

#[test]
fn witness_scripts_are_taken_once() {
    let mut slot = WitnessScripts::new();
    assert_eq!(holder_validate_take_psbt_output_witness_scripts_hex(&mut slot), None);
    let scripts = vec!["00".to_string(), "51".to_string()];
    holder_validate_install_psbt_output_witness_scripts_hex(&mut slot, vec![]);
    holder_validate_install_psbt_output_witness_scripts_hex(&mut slot, scripts.clone());
    assert_eq!(holder_validate_take_psbt_output_witness_scripts_hex(&mut slot), Some(scripts));
    assert_eq!(holder_validate_take_psbt_output_witness_scripts_hex(&mut slot), None);
}
