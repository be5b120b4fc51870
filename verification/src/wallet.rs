//! The settings that the wallet is opened with.

use vstd::prelude::*;
use crate::errors::Error;
#[allow(unused_imports)]
use crate::errors::{text_view, ErrorView};
use crate::info::AssetSchema;
use crate::records::RgbKvStoreExt;
#[allow(unused_imports)]
use crate::records::read_setting;
use crate::store::KVStoreSync;
#[allow(unused_imports)]
use crate::store::StoreView;
use crate::text::{join, path_join, same_text};
#[allow(unused_imports)]
use crate::text::path_below;

verus! {

/// Name of the setting with the bitcoin network
pub const BITCOIN_NETWORK_FNAME: &'static str = "bitcoin_network";

/// Name of the setting with the indexer URL
pub const INDEXER_URL_FNAME: &'static str = "indexer_url";

/// Name of the setting with the account-level xPub of the vanilla-side of the wallet
pub const WALLET_ACCOUNT_XPUB_VANILLA_FNAME: &'static str = "wallet_account_xpub_vanilla";

/// Name of the setting with the account-level xPub of the colored-side of the wallet
pub const WALLET_ACCOUNT_XPUB_COLORED_FNAME: &'static str = "wallet_account_xpub_colored";

/// Name of the setting with the master fingerprint of the wallet
pub const WALLET_MASTER_FINGERPRINT_FNAME: &'static str = "wallet_master_fingerprint";

/// Name of the setting with the wallet reuse_addresses flag
pub const WALLET_REUSE_ADDRESSES_FNAME: &'static str = "wallet_reuse_addresses";

/// How many addresses the vanilla side is looked back over when the wallet goes online.
pub const VANILLA_SYNC_LOOKBACK: u32 = 20;

/// How many allocations one UTXO may hold.
pub const MAX_ALLOCATIONS_PER_UTXO: u32 = 1;

/// Whether the wallet goes online without checking that its data is consistent.
pub const SKIP_CONSISTENCY_CHECK: bool = true;

/// The settings of the wallet, as texts.
#[derive(Debug, PartialEq, Eq)]
pub struct WalletSettings {
    pub bitcoin_network: String,
    pub account_xpub_vanilla: String,
    pub account_xpub_colored: String,
    pub master_fingerprint: String,
    pub reuse_addresses: bool,
}

/// What contracts say of [`WalletSettings`].
pub struct WalletSettingsView {
    pub bitcoin_network: Seq<char>,
    pub account_xpub_vanilla: Seq<char>,
    pub account_xpub_colored: Seq<char>,
    pub master_fingerprint: Seq<char>,
    pub reuse_addresses: bool,
}

impl View for WalletSettings {
    type V = WalletSettingsView;

    open spec fn view(&self) -> WalletSettingsView {
        WalletSettingsView {
            bitcoin_network: self.bitcoin_network@,
            account_xpub_vanilla: self.account_xpub_vanilla@,
            account_xpub_colored: self.account_xpub_colored@,
            master_fingerprint: self.master_fingerprint@,
            reuse_addresses: self.reuse_addresses,
        }
    }
}

/// Whether addresses are reused: only if the setting says so.
pub open spec fn is_true(setting: Result<Seq<char>, ErrorView>) -> bool {
    match setting {
        Ok(text) => text == "true"@,
        Err(_) => false,
    }
}

/// Reads the settings in order. All but the last must be there.
pub open spec fn read_settings(store: StoreView) -> (
    StoreView,
    Result<WalletSettingsView, ErrorView>,
) {
    let (s1, network) = read_setting(store, BITCOIN_NETWORK_FNAME@);
    let (s2, vanilla) = read_setting(s1, WALLET_ACCOUNT_XPUB_VANILLA_FNAME@);
    let (s3, colored) = read_setting(s2, WALLET_ACCOUNT_XPUB_COLORED_FNAME@);
    let (s4, fingerprint) = read_setting(s3, WALLET_MASTER_FINGERPRINT_FNAME@);
    let (s5, reuse) = read_setting(s4, WALLET_REUSE_ADDRESSES_FNAME@);
    match network {
        Err(e) => (s1, Err(e)),
        Ok(bitcoin_network) => match vanilla {
            Err(e) => (s2, Err(e)),
            Ok(account_xpub_vanilla) => match colored {
                Err(e) => (s3, Err(e)),
                Ok(account_xpub_colored) => match fingerprint {
                    Err(e) => (s4, Err(e)),
                    Ok(master_fingerprint) => (
                        s5,
                        Ok(
                            WalletSettingsView {
                                bitcoin_network,
                                account_xpub_vanilla,
                                account_xpub_colored,
                                master_fingerprint,
                                reuse_addresses: is_true(reuse),
                            },
                        ),
                    ),
                },
            },
        },
    }
}

/// The text that names the bitcoin network.
pub fn get_bitcoin_network<K: KVStoreSync>(kv_store: &mut K) -> (r: Result<String, Error>)
    ensures
        final(kv_store)@ == read_setting(old(kv_store)@, BITCOIN_NETWORK_FNAME@).0,
        text_view(r) == read_setting(old(kv_store)@, BITCOIN_NETWORK_FNAME@).1,
{
    kv_store.read_config(BITCOIN_NETWORK_FNAME)
}

/// The account-level xPub of the colored side of the wallet.
pub fn get_account_xpub_colored<K: KVStoreSync>(kv_store: &mut K) -> (r: Result<String, Error>)
    ensures
        final(kv_store)@ == read_setting(old(kv_store)@, WALLET_ACCOUNT_XPUB_COLORED_FNAME@).0,
        text_view(r) == read_setting(old(kv_store)@, WALLET_ACCOUNT_XPUB_COLORED_FNAME@).1,
{
    kv_store.read_config(WALLET_ACCOUNT_XPUB_COLORED_FNAME)
}

/// The account-level xPub of the vanilla side of the wallet.
pub fn get_account_xpub_vanilla<K: KVStoreSync>(kv_store: &mut K) -> (r: Result<String, Error>)
    ensures
        final(kv_store)@ == read_setting(old(kv_store)@, WALLET_ACCOUNT_XPUB_VANILLA_FNAME@).0,
        text_view(r) == read_setting(old(kv_store)@, WALLET_ACCOUNT_XPUB_VANILLA_FNAME@).1,
{
    kv_store.read_config(WALLET_ACCOUNT_XPUB_VANILLA_FNAME)
}

/// The master fingerprint of the wallet.
pub fn get_master_fingerprint<K: KVStoreSync>(kv_store: &mut K) -> (r: Result<String, Error>)
    ensures
        final(kv_store)@ == read_setting(old(kv_store)@, WALLET_MASTER_FINGERPRINT_FNAME@).0,
        text_view(r) == read_setting(old(kv_store)@, WALLET_MASTER_FINGERPRINT_FNAME@).1,
{
    kv_store.read_config(WALLET_MASTER_FINGERPRINT_FNAME)
}

/// The URL of the indexer.
pub fn get_indexer_url<K: KVStoreSync>(kv_store: &mut K) -> (r: Result<String, Error>)
    ensures
        final(kv_store)@ == read_setting(old(kv_store)@, INDEXER_URL_FNAME@).0,
        text_view(r) == read_setting(old(kv_store)@, INDEXER_URL_FNAME@).1,
{
    kv_store.read_config(INDEXER_URL_FNAME)
}

/// Whether addresses are reused: only if the setting can be read and says so.
pub fn get_reuse_addresses<K: KVStoreSync>(kv_store: &mut K) -> (r: bool)
    ensures
        final(kv_store)@ == read_setting(old(kv_store)@, WALLET_REUSE_ADDRESSES_FNAME@).0,
        r == is_true(read_setting(old(kv_store)@, WALLET_REUSE_ADDRESSES_FNAME@).1),
{
    match kv_store.read_config(WALLET_REUSE_ADDRESSES_FNAME) {
        Ok(text) => same_text(text.as_str(), "true"),
        Err(_) => false,
    }
}

/// Reads the settings of the wallet.
pub fn get_wallet_settings<K: KVStoreSync>(kv_store: &mut K) -> (r: Result<WalletSettings, Error>)
    ensures
        final(kv_store)@ == read_settings(old(kv_store)@).0,
        match r {
            Ok(settings) => read_settings(old(kv_store)@).1 == Ok::<WalletSettingsView, ErrorView>(
                settings@,
            ),
            Err(e) => read_settings(old(kv_store)@).1 == Err::<WalletSettingsView, ErrorView>(e@),
        },
{
    let bitcoin_network: String = match get_bitcoin_network(kv_store) {
        Ok(text) => text,
        Err(e) => return Err(e),
    };
    let account_xpub_vanilla: String = match get_account_xpub_vanilla(kv_store) {
        Ok(text) => text,
        Err(e) => return Err(e),
    };
    let account_xpub_colored: String = match get_account_xpub_colored(kv_store) {
        Ok(text) => text,
        Err(e) => return Err(e),
    };
    let master_fingerprint: String = match get_master_fingerprint(kv_store) {
        Ok(text) => text,
        Err(e) => return Err(e),
    };
    let reuse_addresses: bool = get_reuse_addresses(kv_store);
    Ok(
        WalletSettings {
            bitcoin_network,
            account_xpub_vanilla,
            account_xpub_colored,
            master_fingerprint,
            reuse_addresses,
        },
    )
}

/// The asset schemas that the wallet supports.
pub fn supported_schemas() -> (r: Vec<AssetSchema>)
    ensures
        r@ == seq![AssetSchema::Nia, AssetSchema::Cfa, AssetSchema::Uda, AssetSchema::Ifa],
{
    let schemas: Vec<AssetSchema> = vec![
        AssetSchema::Nia,
        AssetSchema::Cfa,
        AssetSchema::Uda,
        AssetSchema::Ifa,
    ];
    assert(schemas@ =~= seq![
        AssetSchema::Nia,
        AssetSchema::Cfa,
        AssetSchema::Uda,
        AssetSchema::Ifa,
    ]);
    schemas
}

/// The file to which the consignment of a funding is written when the counterparty sends it.
pub fn get_consignment_path(ldk_data_dir: &str, funding_txid: &str) -> (r: String)
    ensures
        r@ == path_below(ldk_data_dir@, "consignment_"@ + funding_txid@),
{
    let name: String = join("consignment_", funding_txid);
    path_join(ldk_data_dir, name.as_str())
}

/// Reading the settings changes no entry of the store.
pub proof fn reading_settings_changes_nothing(store: StoreView)
    ensures
        read_settings(store).0.entries == store.entries,
{
}

/// Every schema that channel info can have is supported by the wallet.
pub proof fn every_schema_is_supported(schema: AssetSchema)
    ensures
        seq![AssetSchema::Nia, AssetSchema::Cfa, AssetSchema::Uda, AssetSchema::Ifa].contains(
            schema,
        ),
{
    let schemas = seq![AssetSchema::Nia, AssetSchema::Cfa, AssetSchema::Uda, AssetSchema::Ifa];
    assert(schemas[0] == AssetSchema::Nia);
    assert(schemas[1] == AssetSchema::Cfa);
    assert(schemas[2] == AssetSchema::Uda);
    assert(schemas[3] == AssetSchema::Ifa);
}

/// The settings of the wallet are the texts kept under their names. All but the flag for reusing
/// addresses must be readable; the flag is set only if it reads `true`, to the letter.
pub proof fn settings_are_read_by_name(store: StoreView)
    ensures
        ({
            let (after, result) = read_settings(store);
            let s1 = store.called();
            let s2 = s1.called();
            let s3 = s2.called();
            let s4 = s3.called();
            let network = read_setting(store, "bitcoin_network"@).1;
            let vanilla = read_setting(s1, "wallet_account_xpub_vanilla"@).1;
            let colored = read_setting(s2, "wallet_account_xpub_colored"@).1;
            let fingerprint = read_setting(s3, "wallet_master_fingerprint"@).1;
            let reuse = read_setting(s4, "wallet_reuse_addresses"@).1;
            &&& result is Ok <==> network is Ok && vanilla is Ok && colored is Ok
                && fingerprint is Ok
            &&& result matches Ok(settings) ==> {
                &&& network == Ok::<Seq<char>, ErrorView>(settings.bitcoin_network)
                &&& vanilla == Ok::<Seq<char>, ErrorView>(settings.account_xpub_vanilla)
                &&& colored == Ok::<Seq<char>, ErrorView>(settings.account_xpub_colored)
                &&& fingerprint == Ok::<Seq<char>, ErrorView>(settings.master_fingerprint)
                &&& settings.reuse_addresses <==> reuse == Ok::<Seq<char>, ErrorView>("true"@)
            }
            &&& result matches Err(e) ==> {
                ||| network == Err::<Seq<char>, ErrorView>(e)
                ||| network is Ok && vanilla == Err::<Seq<char>, ErrorView>(e)
                ||| network is Ok && vanilla is Ok && colored == Err::<Seq<char>, ErrorView>(e)
                ||| network is Ok && vanilla is Ok && colored is Ok && fingerprint == Err::<
                    Seq<char>,
                    ErrorView,
                >(e)
            }
        }),
        INDEXER_URL_FNAME@ == "indexer_url"@,
        BITCOIN_NETWORK_FNAME@ == "bitcoin_network"@,
        WALLET_ACCOUNT_XPUB_VANILLA_FNAME@ == "wallet_account_xpub_vanilla"@,
        WALLET_ACCOUNT_XPUB_COLORED_FNAME@ == "wallet_account_xpub_colored"@,
        WALLET_MASTER_FINGERPRINT_FNAME@ == "wallet_master_fingerprint"@,
        WALLET_REUSE_ADDRESSES_FNAME@ == "wallet_reuse_addresses"@,
        forall|setting: Result<Seq<char>, ErrorView>| #[trigger]
            is_true(setting) <==> setting == Ok::<Seq<char>, ErrorView>("true"@),
        VANILLA_SYNC_LOOKBACK == 20,
        MAX_ALLOCATIONS_PER_UTXO == 1,
        SKIP_CONSISTENCY_CHECK,
{
}

/// The settings show each of their values as it is.
pub proof fn settings_show_each_value(settings: WalletSettings)
    ensures
        settings@.bitcoin_network == settings.bitcoin_network@,
        settings@.account_xpub_vanilla == settings.account_xpub_vanilla@,
        settings@.account_xpub_colored == settings.account_xpub_colored@,
        settings@.master_fingerprint == settings.master_fingerprint@,
        settings@.reuse_addresses == settings.reuse_addresses,
{
}

} // verus!
