use rgb_utils::channel::{
    check_amounts_fit, get_rgb_channel_info, get_rgb_channel_info_pending, is_channel_rgb,
    set_counterparty_knows_asset, try_update_rgb_channel_amount,
    try_update_rgb_channel_amount_pending, update_rgb_channel_amount,
    update_rgb_channel_amount_pending, write_rgb_payment_info_file,
};
use rgb_utils::contract_id_serde;
use rgb_utils::errors::ErrorKind;
use rgb_utils::info::{AssetSchema, ContractId, RgbInfo, RgbPaymentInfo, TransferInfo};
use rgb_utils::memory::MemoryStore;
use rgb_utils::records::{ChannelDetails, ChannelId, PaymentHash, RgbKvStoreExt};
use rgb_utils::store::{
    KVStoreSync, RGB_CHANNEL_INFO_NS, RGB_PAYMENT_INFO_INBOUND_NS, RGB_PAYMENT_INFO_OUTBOUND_NS,
    RGB_PRIMARY_NS, RGB_TRANSFER_INFO_NS, RGB_WALLET_CONFIG_NS,
};
use rgb_utils::text::{decimal_text, path_join};
use std::collections::HashMap;

const CONTRACT: &str = "rgb:Ar4ouaLv-b7f7Dc_-z5EMvtu-FA5KNh1-nlae~jk-8xMBo7E";

fn contract() -> ContractId {
    contract_id_serde::deserialize(CONTRACT).unwrap()
}

fn info(local: u64, remote: u64) -> RgbInfo {
    RgbInfo {
        contract_id: contract(),
        schema: AssetSchema::Cfa,
        local_rgb_amount: local,
        remote_rgb_amount: remote,
        batch_transfer_idx: Some(-2),
        counterparty_knows_asset: false,
    }
}

#[test]
fn hexadecimal_text_shows_every_byte() {
    let mut bytes = [0u8; 32];
    bytes[0] = 0x0a;
    bytes[1] = 0xf0;
    bytes[31] = 0xff;
    let text = format!("0af0{}ff", "00".repeat(29));
    assert_eq!(ChannelId(bytes).to_hex(), text);
    assert_eq!(PaymentHash(bytes).to_hex(), text);
}

#[test]
fn decimal_text_has_no_leading_zeros() {
    assert_eq!(decimal_text(0), "0");
    assert_eq!(decimal_text(907), "907");
    assert_eq!(decimal_text(u64::MAX), "18446744073709551615");
}

#[test]
fn paths_are_joined_once() {
    assert_eq!(path_join("/data", "file"), "/data/file");
    assert_eq!(path_join("/data/", "file"), "/data/file");
    assert_eq!(path_join("", "file"), "file");
    assert_eq!(path_join("/data", "/file"), "/file");
    assert_eq!(path_join("/data", ""), "/data/");
}

#[test]
fn contract_id_text_parses_as_the_id_it_shows() {
    assert_eq!(contract_id_serde::serialize(&contract()), CONTRACT);
    let other = ContractId([7; 32]);
    let text = contract_id_serde::serialize(&other);
    assert!(text.starts_with("rgb:"));
    assert_eq!(contract_id_serde::deserialize(&text).unwrap(), other);
    let error = contract_id_serde::deserialize("rgb:nonsense").unwrap_err();
    assert_eq!(error.kind(), ErrorKind::InvalidData);
    assert!(!error.message().is_empty());
}

#[test]
fn channel_info_bytes_are_positional() {
    let mut expected: Vec<u8> = Vec::new();
    expected.extend((CONTRACT.len() as u64).to_le_bytes());
    expected.extend(CONTRACT.as_bytes());
    expected.extend(2u32.to_le_bytes());
    expected.extend(11u64.to_le_bytes());
    expected.extend(12u64.to_le_bytes());
    expected.push(1);
    expected.extend((-2i32).to_le_bytes());
    expected.push(0);
    assert_eq!(info(11, 12).to_bytes(), expected);
    assert_eq!(RgbInfo::from_bytes(&expected).unwrap(), info(11, 12));
    let schema_at = 8 + CONTRACT.len();
    expected[schema_at] = 4;
    let error = RgbInfo::from_bytes(&expected).unwrap_err();
    assert_eq!(error.kind(), ErrorKind::InvalidData);
    assert_eq!(
        error.message(),
        "invalid value: integer `4`, expected variant index 0 <= i < 4"
    );
}

#[test]
fn every_schema_reads_back() {
    for schema in [AssetSchema::Nia, AssetSchema::Uda, AssetSchema::Cfa, AssetSchema::Ifa] {
        let written = RgbInfo { schema, ..info(1, 2) };
        assert_eq!(RgbInfo::from_bytes(&written.to_bytes()).unwrap(), written);
    }
}

#[test]
fn payment_info_bytes_are_positional() {
    let payment = RgbPaymentInfo {
        contract_id: contract(),
        amount: 3,
        local_rgb_amount: 4,
        remote_rgb_amount: 5,
        swap_payment: true,
        inbound: false,
    };
    let mut expected: Vec<u8> = Vec::new();
    expected.extend((CONTRACT.len() as u64).to_le_bytes());
    expected.extend(CONTRACT.as_bytes());
    expected.extend(3u64.to_le_bytes());
    expected.extend(4u64.to_le_bytes());
    expected.extend(5u64.to_le_bytes());
    expected.extend([1, 0]);
    assert_eq!(payment.to_bytes(), expected);
    assert_eq!(RgbPaymentInfo::from_bytes(&expected).unwrap(), payment);
    expected[8] = b'x';
    assert!(RgbPaymentInfo::from_bytes(&expected).is_err());
}

#[test]
fn transfer_info_reads_back() {
    let mut store = MemoryStore::new();
    let written = TransferInfo {
        contract_id: contract(),
        output_map: HashMap::from([(0, 7), (3, u64::MAX)]),
    };
    store.write_rgb_transfer_info("txid", &written).unwrap();
    let read = store.read_rgb_transfer_info("txid").unwrap();
    assert_eq!(read.contract_id, written.contract_id);
    assert_eq!(read.output_map, written.output_map);
    assert_eq!(store.read_rgb_transfer_info("other").unwrap_err().kind(), ErrorKind::NotFound);
    store.write(RGB_PRIMARY_NS, RGB_TRANSFER_INFO_NS, "txid", vec![1]).unwrap();
    assert_eq!(
        store.read_rgb_transfer_info("txid").unwrap_err().kind(),
        ErrorKind::InvalidData
    );
}

#[test]
fn transfer_info_is_cloned() {
    let written = TransferInfo { contract_id: contract(), output_map: HashMap::from([(2, 9)]) };
    let copy = written.clone();
    assert_eq!(copy.contract_id, written.contract_id);
    assert_eq!(copy.output_map, written.output_map);
}

#[test]
fn transfer_info_bytes_are_positional() {
    let written = TransferInfo { contract_id: contract(), output_map: HashMap::from([(2, 9)]) };
    let mut expected: Vec<u8> = Vec::new();
    expected.extend((CONTRACT.len() as u64).to_le_bytes());
    expected.extend(CONTRACT.as_bytes());
    expected.extend(1u64.to_le_bytes());
    expected.extend(2u32.to_le_bytes());
    expected.extend(9u64.to_le_bytes());
    assert_eq!(written.to_bytes(), expected);
}

#[test]
fn settings_read_back_as_text() {
    let mut store = MemoryStore::new();
    store.write_config("name", "h\u{e9}llo").unwrap();
    assert_eq!(store.read_config("name").unwrap(), "h\u{e9}llo");
    assert_eq!(
        store.read(RGB_PRIMARY_NS, RGB_WALLET_CONFIG_NS, "name").unwrap(),
        "h\u{e9}llo".as_bytes()
    );
    store.write(RGB_PRIMARY_NS, RGB_WALLET_CONFIG_NS, "name", vec![0xff, 0xfe]).unwrap();
    assert_eq!(store.read_config("name").unwrap_err().kind(), ErrorKind::InvalidData);
    assert_eq!(store.read_config("none").unwrap_err().kind(), ErrorKind::NotFound);
}

#[test]
fn channel_info_is_kept_current_and_pending() {
    let mut store = MemoryStore::new();
    let channel = ChannelId([4; 32]);
    let id = channel.to_hex();
    assert!(!is_channel_rgb(&channel, &mut store));
    store.write_rgb_channel_info(&id, &info(1, 2), true).unwrap();
    assert!(!is_channel_rgb(&channel, &mut store));
    store.write_rgb_channel_info(&id, &info(3, 4), false).unwrap();
    assert!(is_channel_rgb(&channel, &mut store));
    assert_eq!(get_rgb_channel_info(&id, false, &mut store).unwrap(), info(3, 4));
    assert_eq!(get_rgb_channel_info_pending(&channel, &mut store).unwrap(), info(1, 2));
    store.remove_rgb_channel_info(&id, false).unwrap();
    assert!(!is_channel_rgb(&channel, &mut store));
    assert_eq!(get_rgb_channel_info_pending(&channel, &mut store).unwrap(), info(1, 2));
    store.write(RGB_PRIMARY_NS, RGB_CHANNEL_INFO_NS, &id, vec![5]).unwrap();
    assert!(!is_channel_rgb(&channel, &mut store));
}

#[test]
fn consignments_are_kept_as_they_are() {
    let mut store = MemoryStore::new();
    store.write_rgb_consignment("id", vec![1, 2]).unwrap();
    store.write_rgb_consignment("id", vec![3]).unwrap();
    assert_eq!(store.read_rgb_consignment("id").unwrap(), vec![3]);
    store.remove_rgb_consignment("id").unwrap();
    assert_eq!(store.read_rgb_consignment("id").unwrap_err().kind(), ErrorKind::NotFound);
}

#[test]
fn new_payment_is_written_for_itself_and_for_its_first_channel() {
    let mut store = MemoryStore::new();
    let hash = PaymentHash([6; 32]);
    for (inbound, namespace) in
        [(true, RGB_PAYMENT_INFO_INBOUND_NS), (false, RGB_PAYMENT_INFO_OUTBOUND_NS)]
    {
        write_rgb_payment_info_file(&hash, contract(), 8, true, inbound, &mut store).unwrap();
        let expected = RgbPaymentInfo {
            contract_id: contract(),
            amount: 8,
            local_rgb_amount: 0,
            remote_rgb_amount: 0,
            swap_payment: true,
            inbound,
        };
        assert_eq!(store.read_rgb_payment_info(&hash, inbound).unwrap(), expected);
        let pending_key = format!("{}_pending", "06".repeat(32));
        let pending = store.read(RGB_PRIMARY_NS, namespace, &pending_key).unwrap();
        assert_eq!(pending, expected.to_bytes());
    }
}

#[test]
fn payment_is_colored_in_either_direction() {
    let mut store = MemoryStore::new();
    let outbound = PaymentHash([1; 32]);
    let inbound = PaymentHash([2; 32]);
    write_rgb_payment_info_file(&outbound, contract(), 8, false, false, &mut store).unwrap();
    write_rgb_payment_info_file(&inbound, contract(), 8, false, true, &mut store).unwrap();
    assert!(store.is_payment_rgb(&outbound));
    assert!(store.is_payment_rgb(&inbound));
    assert!(!store.is_payment_rgb(&PaymentHash([3; 32])));
}

#[test]
fn first_hops_need_the_asset_and_the_amount() {
    let mut store = MemoryStore::new();
    let hash = PaymentHash([9; 32]);
    let hop = |byte: u8| ChannelDetails { channel_id: ChannelId([byte; 32]) };
    let all = vec![hop(1), hop(2), hop(3), hop(4), hop(5)];
    let mut hops = all.clone();
    store.filter_first_hops(&hash, &mut hops);
    assert_eq!(hops, all);

    write_rgb_payment_info_file(&hash, contract(), 100, false, false, &mut store).unwrap();
    let id = |byte: u8| ChannelId([byte; 32]).to_hex();
    store.write_rgb_channel_info(&id(1), &info(100, 0), false).unwrap();
    store.write_rgb_channel_info(&id(2), &info(99, 1000), false).unwrap();
    let foreign = RgbInfo { contract_id: ContractId([8; 32]), ..info(500, 0) };
    store.write_rgb_channel_info(&id(3), &foreign, false).unwrap();
    store.write_rgb_channel_info(&id(4), &info(500, 0), true).unwrap();
    store.write_rgb_channel_info(&id(5), &info(101, 0), false).unwrap();
    store.filter_first_hops(&hash, &mut hops);
    assert_eq!(hops, vec![hop(1), hop(5)]);
}

#[test]
fn settling_moves_the_difference() {
    let mut store = MemoryStore::new();
    let channel = ChannelId([4; 32]);
    let id = channel.to_hex();
    store.write_rgb_channel_info(&id, &info(100, 50), false).unwrap();
    store.write_rgb_channel_info(&id, &info(100, 50), true).unwrap();
    update_rgb_channel_amount(&id, 30, 10, false, &mut store).unwrap();
    assert_eq!(get_rgb_channel_info(&id, false, &mut store).unwrap(), info(80, 70));
    update_rgb_channel_amount(&id, 10, 30, false, &mut store).unwrap();
    assert_eq!(get_rgb_channel_info(&id, false, &mut store).unwrap(), info(100, 50));
    update_rgb_channel_amount_pending(&channel, 0, 50, &mut store).unwrap();
    assert_eq!(get_rgb_channel_info(&id, true, &mut store).unwrap(), info(150, 0));
    assert_eq!(get_rgb_channel_info(&id, false, &mut store).unwrap(), info(100, 50));
}

#[test]
fn settling_stays_in_range() {
    let mut store = MemoryStore::new();
    let channel = ChannelId([4; 32]);
    let id = channel.to_hex();
    store.write_rgb_channel_info(&id, &info(100, 50), false).unwrap();
    store.write_rgb_channel_info(&id, &info(u64::MAX, 1), true).unwrap();
    assert!(try_update_rgb_channel_amount(&id, 101, 0, false, &mut store).is_none());
    assert!(try_update_rgb_channel_amount(&id, 0, 51, false, &mut store).is_none());
    assert!(try_update_rgb_channel_amount_pending(&channel, 0, 1, &mut store).is_none());
    assert_eq!(get_rgb_channel_info(&id, false, &mut store).unwrap(), info(100, 50));
    try_update_rgb_channel_amount(&id, 100, 0, false, &mut store).unwrap().unwrap();
    assert_eq!(get_rgb_channel_info(&id, false, &mut store).unwrap(), info(0, 150));
    assert!(check_amounts_fit(&info(0, u64::MAX), u64::MAX, u64::MAX));
    assert!(!check_amounts_fit(&info(5, u64::MAX), 5, 4));
    let missing =
        try_update_rgb_channel_amount("none", 0, 0, true, &mut store).unwrap().unwrap_err();
    assert_eq!(missing.kind(), ErrorKind::NotFound);
}

#[test]
fn known_asset_is_noted_where_there_is_info() {
    let mut store = MemoryStore::new();
    let channel = ChannelId([4; 32]);
    let id = channel.to_hex();
    set_counterparty_knows_asset(&channel, &mut store).unwrap();
    assert!(!is_channel_rgb(&channel, &mut store));
    store.write_rgb_channel_info(&id, &info(1, 2), true).unwrap();
    set_counterparty_knows_asset(&channel, &mut store).unwrap();
    let known = RgbInfo { counterparty_knows_asset: true, ..info(1, 2) };
    assert_eq!(get_rgb_channel_info(&id, true, &mut store).unwrap(), known);
    assert!(!is_channel_rgb(&channel, &mut store));
    store.write_rgb_channel_info(&id, &info(3, 4), false).unwrap();
    set_counterparty_knows_asset(&channel, &mut store).unwrap();
    assert!(get_rgb_channel_info(&id, false, &mut store).unwrap().counterparty_knows_asset);
}

#[test]
fn settling_twice_is_settling_the_sums() {
    let mut store = MemoryStore::new();
    store.write_rgb_channel_info("a", &info(100, 50), false).unwrap();
    store.write_rgb_channel_info("b", &info(100, 50), false).unwrap();
    update_rgb_channel_amount("a", 30, 10, false, &mut store).unwrap();
    update_rgb_channel_amount("a", 5, 40, false, &mut store).unwrap();
    update_rgb_channel_amount("b", 35, 50, false, &mut store).unwrap();
    let twice = get_rgb_channel_info("a", false, &mut store).unwrap();
    assert_eq!(twice, info(115, 35));
    assert_eq!(get_rgb_channel_info("b", false, &mut store).unwrap(), twice);
}

#[test]
fn different_ids_have_different_texts() {
    let mut bytes = [0u8; 32];
    let first = ChannelId(bytes).to_hex();
    bytes[17] = 0x10;
    let high = ChannelId(bytes).to_hex();
    bytes[17] = 0x01;
    let low = ChannelId(bytes).to_hex();
    assert_ne!(first, high);
    assert_ne!(first, low);
    assert_ne!(high, low);
}
