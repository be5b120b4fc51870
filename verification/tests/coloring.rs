use rgb_utils::channel::write_rgb_payment_info_file;
use rgb_utils::coloring::{
    begin_closing_coloring, begin_commitment_coloring, begin_htlc_coloring, check_htlcs,
    commitment_extraction_error, commitment_psbt_error, deserialize_fascia,
    finish_commitment_coloring, is_tx_colored, keep_colored_transaction, keep_commitment,
    keep_transfer, op_return_position, plan_htlc, script_position, split_commitment,
    transaction_id, ClosingParts, Coloring, ColoringFailure, CommitmentHtlcs,
    CommitmentParts, CommitmentStep, Transaction, TxOut, STATIC_BLINDING,
};
use rgb_utils::errors::{Error, ErrorKind};
use rgb_utils::htlc::{find_htlc_payment_info, is_compatible, HTLCOutputInCommitment};
use rgb_utils::info::{AssetSchema, ContractId, RgbInfo, RgbPaymentInfo, TransferInfo};
use rgb_utils::memory::MemoryStore;
use rgb_utils::records::{ChannelId, PaymentHash, RgbKvStoreExt};
use rgb_utils::store::{
    KVStoreSync, RGB_COMMITMENT_FASCIA_NS, RGB_PAYMENT_INFO_INBOUND_NS,
    RGB_PAYMENT_INFO_OUTBOUND_NS, RGB_PRIMARY_NS,
};
use rgbstd::containers::Fascia;
use std::collections::HashMap;
use strict_encoding::StrictDumb;

const CHANNEL: ChannelId = ChannelId([4; 32]);
const HASH: PaymentHash = PaymentHash([6; 32]);

fn info(local: u64, remote: u64) -> RgbInfo {
    RgbInfo {
        contract_id: ContractId([7; 32]),
        schema: AssetSchema::Nia,
        local_rgb_amount: local,
        remote_rgb_amount: remote,
        batch_transfer_idx: None,
        counterparty_knows_asset: false,
    }
}

fn payment(amount: u64, local: u64, remote: u64, swap: bool, inbound: bool) -> RgbPaymentInfo {
    RgbPaymentInfo {
        contract_id: ContractId([7; 32]),
        amount,
        local_rgb_amount: local,
        remote_rgb_amount: remote,
        swap_payment: swap,
        inbound,
    }
}

fn htlc(offered: bool, byte: u8, amount: u64, vout: u32) -> HTLCOutputInCommitment {
    HTLCOutputInCommitment {
        offered,
        payment_hash: PaymentHash([byte; 32]),
        rgb_payment: Some((ContractId([7; 32]), amount)),
        transaction_output_index: Some(vout),
    }
}

fn output(script: &[u8]) -> TxOut {
    TxOut { script_pubkey: script.to_vec() }
}

fn proxy_id() -> String {
    format!("{}{}", CHANNEL.to_hex(), HASH.to_hex())
}

fn kept(store: &mut MemoryStore, inbound: bool, key: &str) -> Result<RgbPaymentInfo, Error> {
    let namespace =
        if inbound { RGB_PAYMENT_INFO_INBOUND_NS } else { RGB_PAYMENT_INFO_OUTBOUND_NS };
    let data = store.read(RGB_PRIMARY_NS, namespace, key)?;
    RgbPaymentInfo::from_bytes(&data)
}

fn parts(htlcs: Vec<HTLCOutputInCommitment>) -> CommitmentParts {
    CommitmentParts {
        nondust_htlcs: htlcs,
        outputs: vec![output(&[1]), output(&[2]), output(&[3]), output(&[3])],
        holder_payment_script: vec![2],
        counterparty_payment_script: vec![3],
        revokeable_output_index: Some(5),
        funding_txid: Some("funding".to_string()),
        trusted_no_broadcast: false,
    }
}

fn with_pending_info(local: u64, remote: u64) -> MemoryStore {
    let mut store = MemoryStore::new();
    store.write_rgb_channel_info(&CHANNEL.to_hex(), &info(local, remote), true).unwrap();
    store
}

#[test]
fn op_return_is_found_by_its_first_byte() {
    let tx = Transaction { output: vec![output(&[]), output(&[0x51, 0x6a]), output(&[0x6a, 1])] };
    assert_eq!(op_return_position(&tx), Some(2));
    assert!(is_tx_colored(&tx));
    let two = Transaction { output: vec![output(&[0x6a]), output(&[0x6a, 9])] };
    assert_eq!(op_return_position(&two), Some(0));
    let plain = Transaction { output: vec![output(&[0x51])] };
    assert_eq!(op_return_position(&plain), None);
    assert!(!is_tx_colored(&plain));
    assert!(!is_tx_colored(&Transaction { output: vec![] }));
}

#[test]
fn script_is_found_at_its_first_output() {
    let outputs = vec![output(&[1]), output(&[2]), output(&[2])];
    assert_eq!(script_position(&outputs, &[2]), Some(1));
    assert_eq!(script_position(&outputs, &[3]), None);
}

#[test]
fn waiting_payment_is_taken_over_with_present_balances() {
    let mut store = MemoryStore::new();
    write_rgb_payment_info_file(&HASH, ContractId([7; 32]), 30, false, true, &mut store).unwrap();
    let found =
        find_htlc_payment_info(&CHANNEL.to_hex(), &HASH, &info(100, 50), 30, true, &mut store)
            .unwrap();
    assert_eq!(found, payment(30, 100, 50, false, true));
    assert_eq!(kept(&mut store, true, &proxy_id()).unwrap(), found);
    assert_eq!(kept(&mut store, true, &format!("{}_pending", proxy_id())).unwrap(), found);
    let waiting = format!("{}_pending", HASH.to_hex());
    assert_eq!(kept(&mut store, true, &waiting).unwrap_err().kind(), ErrorKind::NotFound);
    assert_eq!(kept(&mut store, true, &HASH.to_hex()).unwrap(), payment(30, 0, 0, false, true));
}

#[test]
fn kept_payment_keeps_its_balances() {
    let mut store = MemoryStore::new();
    let id = CHANNEL.to_hex();
    let first = find_htlc_payment_info(&id, &HASH, &info(100, 50), 30, false, &mut store).unwrap();
    let again = find_htlc_payment_info(&id, &HASH, &info(70, 80), 30, false, &mut store).unwrap();
    assert_eq!(first, payment(30, 100, 50, true, false));
    assert_eq!(again, first);
}

#[test]
fn second_channel_uses_the_payment_itself() {
    let mut store = MemoryStore::new();
    write_rgb_payment_info_file(&HASH, ContractId([7; 32]), 30, false, false, &mut store).unwrap();
    find_htlc_payment_info("first", &HASH, &info(100, 50), 30, false, &mut store).unwrap();
    let id = CHANNEL.to_hex();
    let second = find_htlc_payment_info(&id, &HASH, &info(11, 12), 30, false, &mut store).unwrap();
    assert_eq!(second, payment(30, 11, 12, false, false));
    assert_eq!(kept(&mut store, false, &proxy_id()).unwrap(), second);
}

#[test]
fn payment_of_another_asset_or_amount_is_not_used() {
    let mut store = MemoryStore::new();
    write_rgb_payment_info_file(&HASH, ContractId([8; 32]), 30, false, true, &mut store).unwrap();
    let id = CHANNEL.to_hex();
    let found = find_htlc_payment_info(&id, &HASH, &info(100, 50), 30, true, &mut store).unwrap();
    assert_eq!(found, payment(30, 100, 50, true, true));
    let larger = find_htlc_payment_info(&id, &HASH, &info(90, 60), 31, true, &mut store).unwrap();
    assert_eq!(larger, payment(31, 90, 60, true, true));
    assert!(is_compatible(&larger, &info(0, 0), 31, true));
    assert!(!is_compatible(&larger, &info(0, 0), 31, false));
    assert!(!is_compatible(&larger, &info(0, 0), 30, true));
}

#[test]
fn lost_pending_copy_is_written_again() {
    let mut store = MemoryStore::new();
    let id = CHANNEL.to_hex();
    let found = find_htlc_payment_info(&id, &HASH, &info(100, 50), 30, true, &mut store).unwrap();
    let pending = format!("{}_pending", proxy_id());
    store.remove(RGB_PRIMARY_NS, RGB_PAYMENT_INFO_INBOUND_NS, &pending, false).unwrap();
    find_htlc_payment_info(&id, &HASH, &info(1, 2), 30, true, &mut store).unwrap();
    assert_eq!(kept(&mut store, true, &pending).unwrap(), found);
}

#[test]
fn payment_that_does_not_decode_is_reported() {
    let id = CHANNEL.to_hex();
    for key in [format!("{}_pending", HASH.to_hex()), proxy_id()] {
        let mut store = MemoryStore::new();
        store.write(RGB_PRIMARY_NS, RGB_PAYMENT_INFO_INBOUND_NS, &key, vec![1]).unwrap();
        let error =
            find_htlc_payment_info(&id, &HASH, &info(1, 2), 1, true, &mut store).unwrap_err();
        assert_eq!(error.kind(), ErrorKind::InvalidData);
    }
    let mut store = MemoryStore::new();
    let key = HASH.to_hex();
    store.write(RGB_PRIMARY_NS, RGB_PAYMENT_INFO_INBOUND_NS, &key, vec![1]).unwrap();
    let found = find_htlc_payment_info(&id, &HASH, &info(1, 2), 1, true, &mut store).unwrap();
    assert_eq!(found, payment(1, 1, 2, true, true));
}

#[test]
fn own_commitment_is_colored() {
    let mut store = with_pending_info(1000, 500);
    let htlcs = vec![htlc(true, 1, 100, 0), htlc(false, 2, 40, 1), htlc(true, 3, 0, 9)];
    let parts = parts(htlcs);
    assert!(check_htlcs(&parts.nondust_htlcs, false));
    let step = begin_commitment_coloring(&CHANNEL, &parts, false, &mut store).unwrap();
    let CommitmentStep::Color { operation_id, coloring } = step else {
        panic!("must be colored");
    };
    assert_eq!(operation_id, "funding");
    assert_eq!(coloring.contract_id, ContractId([7; 32]));
    assert_eq!(
        coloring.output_map,
        HashMap::from([(0, 100), (1, 40), (2, 460), (5, 900)])
    );
    assert_eq!(coloring.static_blinding, Some(777));
    assert_eq!(coloring.nonce, None);
    assert_eq!(STATIC_BLINDING, 777);
}

#[test]
fn commitment_of_the_counterparty_is_colored() {
    let mut store = with_pending_info(1000, 500);
    let mut parts = parts(vec![htlc(true, 1, 100, 0)]);
    parts.revokeable_output_index = None;
    let step = begin_commitment_coloring(&CHANNEL, &parts, true, &mut store).unwrap();
    let CommitmentStep::Color { coloring, .. } = step else {
        panic!("must be colored");
    };
    assert_eq!(coloring.output_map, HashMap::from([(0, 100), (1, 1000)]));
    let received = payment(100, 1000, 500, true, true);
    let key = format!("{}{}", CHANNEL.to_hex(), "01".repeat(32));
    assert_eq!(kept(&mut store, true, &key).unwrap(), received);
}

#[test]
fn commitment_without_htlcs_gives_each_side_its_balance() {
    let mut store = with_pending_info(3, 4);
    let step = begin_commitment_coloring(&CHANNEL, &parts(vec![]), false, &mut store).unwrap();
    let CommitmentStep::Color { coloring, .. } = step else {
        panic!("must be colored");
    };
    assert_eq!(coloring.output_map, HashMap::from([(2, 4), (5, 3)]));
}

#[test]
fn commitment_that_is_never_broadcast_is_not_colored() {
    let mut store = with_pending_info(3, 4);
    let mut parts = parts(vec![htlc(true, 6, 100, 0)]);
    parts.trusted_no_broadcast = true;
    parts.funding_txid = None;
    let step = begin_commitment_coloring(&CHANNEL, &parts, false, &mut store).unwrap();
    assert!(matches!(step, CommitmentStep::Finished));
    assert_eq!(kept(&mut store, false, &proxy_id()).unwrap(), payment(100, 3, 4, true, false));
}

#[test]
fn commitment_without_funding_closes_the_channel() {
    let mut store = with_pending_info(3, 4);
    let mut parts = parts(vec![]);
    parts.funding_txid = None;
    let failure = begin_commitment_coloring(&CHANNEL, &parts, false, &mut store).unwrap_err();
    let ColoringFailure::Channel(error) = failure else {
        panic!("must close the channel");
    };
    assert_eq!(error.message(), "RGB commitment is missing its funding outpoint");
}

#[test]
fn commitment_cannot_exceed_the_balances() {
    let mut store = with_pending_info(99, 4);
    let parts = parts(vec![htlc(true, 1, 100, 0)]);
    let failure = begin_commitment_coloring(&CHANNEL, &parts, false, &mut store).unwrap_err();
    assert!(matches!(failure, ColoringFailure::Exceeded));
    let sums = CommitmentHtlcs {
        offered: 10,
        received: 5,
        output_map: HashMap::new(),
        last: Some(payment(1, 10, 5, true, false)),
    };
    assert_eq!(split_commitment(&info(0, 0), &sums), Some((0, 0)));
}

#[test]
fn commitment_needs_the_info_of_its_channel() {
    let mut store = MemoryStore::new();
    let failure =
        begin_commitment_coloring(&CHANNEL, &parts(vec![]), false, &mut store).unwrap_err();
    let ColoringFailure::Store(error) = failure else {
        panic!("must fail in the store");
    };
    assert_eq!(error.kind(), ErrorKind::NotFound);
}

#[test]
fn htlcs_must_be_outputs_and_stay_in_range() {
    let mut unplaced = htlc(true, 1, 5, 0);
    unplaced.transaction_output_index = None;
    assert!(!check_htlcs(&vec![unplaced], false));
    unplaced.rgb_payment = Some((ContractId([7; 32]), 0));
    assert!(check_htlcs(&vec![unplaced], false));
    unplaced.rgb_payment = None;
    assert!(check_htlcs(&vec![unplaced], false));
    let large = vec![htlc(true, 1, u64::MAX, 0), htlc(true, 2, 1, 1)];
    assert!(!check_htlcs(&large, false));
    assert!(!check_htlcs(&large, true));
    let split = vec![htlc(true, 1, u64::MAX, 0), htlc(false, 2, u64::MAX, 1)];
    assert!(check_htlcs(&split, false));
}

#[test]
fn psbt_failures_close_the_channel() {
    assert_eq!(
        commitment_psbt_error("why").message(),
        "Failed to construct RGB commitment PSBT: why"
    );
    assert_eq!(
        commitment_extraction_error("why").message(),
        "Failed to extract colored RGB commitment transaction: why"
    );
}

fn coloring() -> Coloring {
    Coloring {
        contract_id: ContractId([7; 32]),
        output_map: HashMap::from([(1, 2)]),
        static_blinding: Some(STATIC_BLINDING),
        nonce: None,
    }
}

#[test]
fn kept_fascia_can_be_read() {
    let mut store = MemoryStore::new();
    let fascia = Fascia::strict_dumb();
    for (counterparty, key) in [
        (true, format!("{}_cp", CHANNEL.to_hex())),
        (false, format!("{}_local", CHANNEL.to_hex())),
    ] {
        let txid = finish_commitment_coloring(
            &CHANNEL,
            counterparty,
            &fascia,
            &spending(&[3]),
            coloring(),
            &mut store,
        )
        .unwrap();
        assert_eq!(txid, transaction_id(&spending(&[3])).unwrap());
        let data = store.read(RGB_PRIMARY_NS, RGB_COMMITMENT_FASCIA_NS, &key).unwrap();
        assert_eq!(deserialize_fascia(data.clone()).unwrap(), fascia);
        let mut longer = data.clone();
        longer.push(0);
        assert_eq!(deserialize_fascia(longer).unwrap_err().kind(), ErrorKind::InvalidData);
        let shorter = data[..data.len() - 1].to_vec();
        assert_eq!(deserialize_fascia(shorter).unwrap_err().kind(), ErrorKind::InvalidData);
    }
    assert!(deserialize_fascia(vec![]).is_err());
    let txid = transaction_id(&spending(&[3])).unwrap();
    let transfer = store.read_rgb_transfer_info(&txid).unwrap();
    assert_eq!(transfer.contract_id, ContractId([7; 32]));
    assert_eq!(transfer.output_map, HashMap::from([(1, 2)]));
    let failure =
        finish_commitment_coloring(&CHANNEL, true, &fascia, &[1], coloring(), &mut store)
            .unwrap_err();
    assert!(matches!(failure, ColoringFailure::NoTransaction(_)));
}

/// The encoding of a transaction whose inputs spend transactions with such bytes as IDs.
fn spending(ids: &[u8]) -> Vec<u8> {
    let mut bytes = vec![2, 0, 0, 0, ids.len() as u8];
    for id in ids {
        bytes.extend([*id; 32]);
        bytes.extend([7, 0, 0, 0, 0, 255, 255, 255, 255]);
    }
    bytes.push(1);
    bytes.extend(5u64.to_le_bytes());
    bytes.extend([1, 0x6a, 0, 0, 0, 0]);
    bytes
}

#[test]
fn transaction_id_is_the_one_of_the_transaction() {
    let mut bytes = vec![2, 0, 0, 0, 1];
    bytes.extend(0..32u8);
    bytes.extend([7, 0, 0, 0, 0, 255, 255, 255, 255, 1]);
    bytes.extend(5u64.to_le_bytes());
    bytes.extend([1, 0x6a, 0, 0, 0, 0]);
    assert_eq!(transaction_id(&bytes).unwrap(), "688860d1b492f8c419ea4055f18977f4eb9efa056804c55acf35d556a14ccc3f");
    bytes.push(0);
    assert_eq!(transaction_id(&bytes).unwrap_err().kind(), ErrorKind::InvalidData);
}

#[test]
fn colored_transaction_is_kept_under_its_id() {
    let mut store = MemoryStore::new();
    let txid = keep_colored_transaction(&spending(&[1]), coloring(), &mut store).unwrap();
    assert_eq!(txid, transaction_id(&spending(&[1])).unwrap());
    assert!(store.read_rgb_transfer_info(&txid).is_ok());
    let failure = keep_colored_transaction(&[], coloring(), &mut store).unwrap_err();
    assert!(matches!(failure, ColoringFailure::NoTransaction(_)));
}

#[test]
fn htlc_transaction_is_colored_after_the_commitment_it_spends() {
    let mut store = MemoryStore::new();
    let transfer = TransferInfo { contract_id: ContractId([9; 32]), output_map: HashMap::new() };
    let commitment = "0a".repeat(32);
    store.write_rgb_transfer_info(&commitment, &transfer).unwrap();
    let carrying = htlc(true, 1, 33, 4);
    let found = begin_htlc_coloring(&carrying, &spending(&[10, 11]), &mut store).unwrap().unwrap();
    assert_eq!(found.contract_id, ContractId([9; 32]));
    let failure = begin_htlc_coloring(&carrying, &spending(&[11, 10]), &mut store).unwrap_err();
    assert!(matches!(failure, ColoringFailure::Store(_)));
    let failure = begin_htlc_coloring(&carrying, &[], &mut store).unwrap_err();
    assert!(matches!(failure, ColoringFailure::NoTransaction(_)));
    let mut unspending = vec![2, 0, 0, 0, 0, 1, 0, 1];
    unspending.extend(5u64.to_le_bytes());
    unspending.extend([1, 0x6a, 0, 0, 0, 0]);
    let failure = begin_htlc_coloring(&carrying, &unspending, &mut store).unwrap_err();
    assert!(matches!(failure, ColoringFailure::NoInput));
    assert!(begin_htlc_coloring(&htlc(true, 1, 0, 4), &[], &mut store).unwrap().is_none());
}

#[test]
fn later_fascia_replaces_the_earlier_one() {
    let mut store = MemoryStore::new();
    keep_commitment(&CHANNEL, true, vec![1], "a", coloring(), &mut store).unwrap();
    keep_commitment(&CHANNEL, true, vec![2], "b", coloring(), &mut store).unwrap();
    let key = format!("{}_cp", CHANNEL.to_hex());
    assert_eq!(store.read(RGB_PRIMARY_NS, RGB_COMMITMENT_FASCIA_NS, &key).unwrap(), vec![2]);
    assert!(store.read_rgb_transfer_info("a").is_ok());
    assert!(store.read_rgb_transfer_info("b").is_ok());
}

#[test]
fn htlc_transaction_carries_what_the_htlc_carries() {
    let mut store = MemoryStore::new();
    let transfer = TransferInfo { contract_id: ContractId([9; 32]), output_map: HashMap::new() };
    store.write_rgb_transfer_info("commitment", &transfer).unwrap();
    let found =
        plan_htlc(&htlc(true, 1, 33, 4), "commitment", &mut store).unwrap().unwrap();
    assert_eq!(found.contract_id, ContractId([9; 32]));
    assert_eq!(found.output_map, HashMap::from([(0, 33)]));
    assert_eq!(found.static_blinding, Some(777));
    assert_eq!(found.nonce, Some(1));
    keep_transfer("htlc", found, &mut store).unwrap();
    let kept = store.read_rgb_transfer_info("htlc").unwrap();
    assert_eq!(kept.output_map, HashMap::from([(0, 33)]));
    let none = plan_htlc(&htlc(true, 1, 0, 4), "other", &mut store).unwrap();
    assert!(none.is_none());
    let error = plan_htlc(&htlc(true, 1, 1, 4), "other", &mut store).unwrap_err();
    assert_eq!(error.kind(), ErrorKind::NotFound);
}

fn closing(holder_sat: u64, counterparty_sat: u64) -> ClosingParts {
    ClosingParts {
        outputs: vec![output(&[5]), output(&[6])],
        to_holder_value_sat: holder_sat,
        to_holder_script: vec![6],
        to_counterparty_value_sat: counterparty_sat,
        to_counterparty_script: vec![5],
    }
}

#[test]
fn closing_gives_each_side_that_is_paid_its_balance() {
    let mut store = with_pending_info(30, 20);
    for (holder, counterparty, expected) in [
        (1, 1, HashMap::from([(1, 30), (0, 20)])),
        (1, 0, HashMap::from([(1, 30)])),
        (0, 1, HashMap::from([(0, 20)])),
        (0, 0, HashMap::new()),
    ] {
        let parts = closing(holder, counterparty);
        assert!(parts.check_pays_both());
        let found = begin_closing_coloring(&CHANNEL, &parts, &mut store).unwrap();
        assert_eq!(found.output_map, expected);
        assert_eq!(found.nonce, None);
        assert_eq!(found.contract_id, ContractId([7; 32]));
    }
    let mut unpaid = closing(1, 1);
    unpaid.to_holder_script = vec![9];
    assert!(!unpaid.check_pays_both());
    unpaid.to_holder_value_sat = 0;
    assert!(unpaid.check_pays_both());
    let mut empty = MemoryStore::new();
    assert!(begin_closing_coloring(&CHANNEL, &closing(1, 1), &mut empty).is_err());
}

#[test]
fn commitment_changes_nothing_but_payments() {
    let mut store = with_pending_info(1000, 500);
    let id = CHANNEL.to_hex();
    store.write_rgb_channel_info(&id, &info(1, 2), false).unwrap();
    store.write_rgb_consignment(&id, vec![3]).unwrap();
    write_rgb_payment_info_file(&HASH, ContractId([7; 32]), 30, false, false, &mut store).unwrap();
    let parts = parts(vec![htlc(true, 1, 100, 0)]);
    begin_commitment_coloring(&CHANNEL, &parts, false, &mut store).unwrap();
    assert_eq!(store.read_rgb_channel_info(&id, true).unwrap(), info(1000, 500));
    assert_eq!(store.read_rgb_channel_info(&id, false).unwrap(), info(1, 2));
    assert_eq!(store.read_rgb_consignment(&id).unwrap(), vec![3]);
    let waiting = format!("{}_pending", HASH.to_hex());
    assert_eq!(kept(&mut store, false, &waiting).unwrap(), payment(30, 0, 0, false, false));
}

#[test]
fn commitment_is_colored_the_same_again() {
    let mut store = with_pending_info(1000, 500);
    let parts = parts(vec![htlc(true, 1, 100, 0), htlc(false, 2, 40, 1)]);
    let expected = HashMap::from([(0, 100), (1, 40), (2, 460), (5, 900)]);
    for (local, remote) in [(1000, 500), (900, 600), (0, 0)] {
        store.write_rgb_channel_info(&CHANNEL.to_hex(), &info(local, remote), true).unwrap();
        let step = begin_commitment_coloring(&CHANNEL, &parts, false, &mut store).unwrap();
        let CommitmentStep::Color { coloring, .. } = step else {
            panic!("must be colored");
        };
        assert_eq!(coloring.output_map, expected);
    }
}

#[test]
fn new_commitment_shares_out_the_balances_of_the_channel() {
    let mut store = with_pending_info(1000, 500);
    let waiting = PaymentHash([1; 32]);
    write_rgb_payment_info_file(&waiting, ContractId([7; 32]), 100, false, false, &mut store)
        .unwrap();
    let parts = parts(vec![htlc(true, 1, 100, 0), htlc(false, 2, 40, 1)]);
    let step = begin_commitment_coloring(&CHANNEL, &parts, false, &mut store).unwrap();
    let CommitmentStep::Color { coloring, .. } = step else {
        panic!("must be colored");
    };
    assert_eq!(coloring.output_map, HashMap::from([(0, 100), (1, 40), (2, 460), (5, 900)]));
    assert_eq!(coloring.output_map.values().sum::<u64>(), 1500);
}

#[test]
fn waiting_payment_brings_the_present_balances() {
    let mut store = with_pending_info(1000, 500);
    let parts = parts(vec![htlc(true, 1, 100, 0)]);
    begin_commitment_coloring(&CHANNEL, &parts, false, &mut store).unwrap();
    store.write_rgb_channel_info(&CHANNEL.to_hex(), &info(700, 900), true).unwrap();
    let waiting = PaymentHash([1; 32]);
    write_rgb_payment_info_file(&waiting, ContractId([7; 32]), 100, false, false, &mut store)
        .unwrap();
    let step = begin_commitment_coloring(&CHANNEL, &parts, false, &mut store).unwrap();
    let CommitmentStep::Color { coloring, .. } = step else {
        panic!("must be colored");
    };
    assert_eq!(coloring.output_map, HashMap::from([(0, 100), (2, 900), (5, 600)]));
    assert_eq!(coloring.output_map.values().sum::<u64>(), 1600);
}
