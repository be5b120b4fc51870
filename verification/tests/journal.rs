use rgb_utils::contract_id_serde;
use rgb_utils::errors::{Error, ErrorKind};
use rgb_utils::info::{AssetSchema, RgbInfo};
use rgb_utils::journal::{
    read_pending_funding_acceptance, remove_pending_funding_acceptance,
    write_pending_funding_acceptance, FundingAcceptanceStage, PendingFundingAcceptance,
    JOURNAL_VERSION,
};
use rgb_utils::memory::MemoryStore;
use rgb_utils::records::{ChannelId, RgbKvStoreExt};
use rgb_utils::rename::try_rename_rgb_files;
use rgb_utils::store::{KVStoreSync, StoreView, RGB_FUNDING_ACCEPTANCE_NS, RGB_PRIMARY_NS};

const CONTRACT: &str = "rgb:Ar4ouaLv-b7f7Dc_-z5EMvtu-FA5KNh1-nlae~jk-8xMBo7E";

fn record(stage: FundingAcceptanceStage) -> PendingFundingAcceptance {
    PendingFundingAcceptance {
        version: JOURNAL_VERSION,
        temporary_channel_id: "01".repeat(32),
        counterparty_node_id: "02".repeat(33),
        funding_txid: "03".repeat(32),
        funding_output_index: 0,
        push_asset_amount: Some(500),
        stage,
        consignment: None,
        rgb_info: None,
    }
}

fn info() -> RgbInfo {
    RgbInfo {
        contract_id: contract_id_serde::deserialize(CONTRACT).unwrap(),
        schema: AssetSchema::Nia,
        local_rgb_amount: 500,
        remote_rgb_amount: 0,
        batch_transfer_idx: None,
        counterparty_knows_asset: false,
    }
}

#[test]
fn pending_funding_state_survives_reopen() {
    let mut store = MemoryStore::new();
    let validating = record(FundingAcceptanceStage::Validating);
    write_pending_funding_acceptance(&validating, &mut store).unwrap();

    let after_reopen = read_pending_funding_acceptance(validating.key(), &mut store).unwrap();
    assert_eq!(after_reopen, validating);

    remove_pending_funding_acceptance(validating.key(), &mut store).unwrap();
    assert!(read_pending_funding_acceptance(validating.key(), &mut store).is_err());
}

#[test]
fn pending_funding_state_rejects_malformed_identity() {
    let mut store = MemoryStore::new();
    let mut malformed = record(FundingAcceptanceStage::Validating);
    malformed.funding_txid = "zz".repeat(32);
    assert!(write_pending_funding_acceptance(&malformed, &mut store).is_err());
}

#[test]
fn channel_rename_retains_promoted_funding_journal_for_application_reconciliation() {
    let mut store = MemoryStore::new();
    let temporary_channel_id = ChannelId([1; 32]);
    let channel_id = ChannelId([2; 32]);
    let temporary_channel_id_hex = temporary_channel_id.to_hex();
    let info = info();
    store.write_rgb_channel_info(&temporary_channel_id_hex, &info, false).unwrap();
    store.write_rgb_channel_info(&temporary_channel_id_hex, &info, true).unwrap();
    let mut promoted = record(FundingAcceptanceStage::Promoted);
    promoted.temporary_channel_id = temporary_channel_id_hex.clone();
    write_pending_funding_acceptance(&promoted, &mut store).unwrap();

    try_rename_rgb_files(&channel_id, &temporary_channel_id, &mut store).unwrap();

    assert_eq!(
        read_pending_funding_acceptance(&temporary_channel_id_hex, &mut store).unwrap(),
        promoted,
    );
    assert_eq!(store.read_rgb_channel_info(&channel_id.to_hex(), false).unwrap(), info);
    try_rename_rgb_files(&channel_id, &temporary_channel_id, &mut store).unwrap();
}

#[test]
fn channel_rename_reports_missing_metadata_without_panicking() {
    let mut store = MemoryStore::new();
    let temporary_channel_id = ChannelId([1; 32]);
    let channel_id = ChannelId([2; 32]);

    let error =
        try_rename_rgb_files(&channel_id, &temporary_channel_id, &mut store).unwrap_err();
    assert_eq!(error.kind(), ErrorKind::NotFound);
}

#[test]
fn every_stage_reads_back() {
    let stages = [
        FundingAcceptanceStage::Validating,
        FundingAcceptanceStage::Prepared,
        FundingAcceptanceStage::Promoted,
        FundingAcceptanceStage::RollingBack,
        FundingAcceptanceStage::Finalized,
        FundingAcceptanceStage::RetryRequired,
        FundingAcceptanceStage::Finalizing,
    ];
    let mut store = MemoryStore::new();
    for stage in stages {
        let mut written = record(stage);
        written.consignment = Some(vec![1, 2, 3]);
        written.rgb_info = Some(info());
        write_pending_funding_acceptance(&written, &mut store).unwrap();
        assert_eq!(
            read_pending_funding_acceptance(written.key(), &mut store).unwrap(),
            written
        );
    }
}

#[test]
fn record_bytes_are_positional() {
    let mut written = record(FundingAcceptanceStage::RetryRequired);
    written.funding_output_index = 0x0102;
    written.consignment = Some(vec![9, 8]);
    let mut expected: Vec<u8> = vec![3];
    for text in ["01".repeat(32), "02".repeat(33), "03".repeat(32)] {
        expected.extend((text.len() as u64).to_le_bytes());
        expected.extend(text.as_bytes());
    }
    expected.extend([2, 1]);
    expected.push(1);
    expected.extend(500u64.to_le_bytes());
    expected.extend(5u32.to_le_bytes());
    expected.push(1);
    expected.extend(2u64.to_le_bytes());
    expected.extend([9, 8]);
    expected.push(0);
    assert_eq!(written.to_bytes(), expected);
}

#[test]
fn malformed_identities_are_invalid_data() {
    let mut store = MemoryStore::new();
    let mut wrong_version = record(FundingAcceptanceStage::Validating);
    wrong_version.version = 2;
    let mut short_channel = record(FundingAcceptanceStage::Validating);
    short_channel.temporary_channel_id = "01".repeat(31);
    let mut odd_node = record(FundingAcceptanceStage::Validating);
    odd_node.counterparty_node_id = "0".repeat(65);
    let mut foreign_digits = record(FundingAcceptanceStage::Validating);
    foreign_digits.funding_txid = "\u{e9}".repeat(32);
    for malformed in [wrong_version, short_channel, odd_node, foreign_digits] {
        let error = write_pending_funding_acceptance(&malformed, &mut store).unwrap_err();
        assert_eq!(error.kind(), ErrorKind::InvalidData);
        assert_eq!(error.message(), "invalid RGB funding acceptance journal");
        let missing =
            read_pending_funding_acceptance(malformed.key(), &mut store).unwrap_err();
        assert_eq!(missing.kind(), ErrorKind::NotFound);
    }
    let mut upper_case = record(FundingAcceptanceStage::Validating);
    upper_case.funding_txid = "AbcDEF0123456789".repeat(4);
    write_pending_funding_acceptance(&upper_case, &mut store).unwrap();
}

#[test]
fn record_under_a_foreign_key_is_a_mismatch() {
    let mut store = MemoryStore::new();
    let written = record(FundingAcceptanceStage::Prepared);
    let foreign = "04".repeat(32);
    store
        .write(RGB_PRIMARY_NS, RGB_FUNDING_ACCEPTANCE_NS, &foreign, written.to_bytes())
        .unwrap();
    let error = read_pending_funding_acceptance(&foreign, &mut store).unwrap_err();
    assert_eq!(error.kind(), ErrorKind::InvalidData);
    assert_eq!(error.message(), "RGB funding acceptance journal key mismatch");
}

#[test]
fn stored_record_is_checked_when_it_is_read() {
    let mut store = MemoryStore::new();
    let mut stale = record(FundingAcceptanceStage::Prepared);
    stale.version = 1;
    let key = stale.key().to_string();
    store.write(RGB_PRIMARY_NS, RGB_FUNDING_ACCEPTANCE_NS, &key, stale.to_bytes()).unwrap();
    let error = read_pending_funding_acceptance(&key, &mut store).unwrap_err();
    assert_eq!(error.message(), "invalid RGB funding acceptance journal");
}

#[test]
fn bytes_that_are_no_record_are_invalid_data() {
    let mut store = MemoryStore::new();
    let key = "01".repeat(32);
    let mut unknown_stage = record(FundingAcceptanceStage::Validating).to_bytes();
    let stage_at = 1 + 3 * 8 + 64 + 66 + 64 + 2 + 9;
    unknown_stage[stage_at] = 7;
    for bytes in [vec![], vec![3, 1], unknown_stage.clone()] {
        store.write(RGB_PRIMARY_NS, RGB_FUNDING_ACCEPTANCE_NS, &key, bytes).unwrap();
        let error = read_pending_funding_acceptance(&key, &mut store).unwrap_err();
        assert_eq!(error.kind(), ErrorKind::InvalidData);
    }
    assert_eq!(
        PendingFundingAcceptance::from_bytes(&unknown_stage).unwrap_err().message(),
        "invalid value: integer `7`, expected variant index 0 <= i < 7"
    );
}

#[test]
fn record_is_cloned() {
    let written = PendingFundingAcceptance {
        consignment: Some(vec![1, 2]),
        rgb_info: Some(info()),
        ..record(FundingAcceptanceStage::Promoted)
    };
    assert_eq!(written.clone().to_bytes(), written.to_bytes());
}

/// A store that refuses what is not durable, and notes the calls.
struct Strict {
    removals: Vec<String>,
}

impl KVStoreSync for Strict {
    fn view(&self) -> StoreView {
        unreachable!("only contracts speak of it")
    }

    fn read(&mut self, _: &str, _: &str, _: &str) -> Result<Vec<u8>, Error> {
        Err(Error::Stated { kind: ErrorKind::PermissionDenied, message: "locked".to_string() })
    }

    fn write(&mut self, _: &str, _: &str, _: &str, _: Vec<u8>) -> Result<(), Error> {
        Err(Error::Stated { kind: ErrorKind::TimedOut, message: "slow".to_string() })
    }

    fn remove(
        &mut self,
        primary: &str,
        secondary: &str,
        key: &str,
        lazy: bool,
    ) -> Result<(), Error> {
        assert!(!lazy);
        self.removals.push(format!("{primary}/{secondary}/{key}"));
        Ok(())
    }
}

#[test]
fn record_is_removed_durably() {
    let mut store = Strict { removals: vec![] };
    remove_pending_funding_acceptance("id", &mut store).unwrap();
    assert_eq!(store.removals, vec!["rgb/funding_acceptance/id"]);
}

#[test]
fn failures_of_the_store_are_handed_on() {
    let mut store = Strict { removals: vec![] };
    let error = read_pending_funding_acceptance("id", &mut store).unwrap_err();
    assert_eq!(error.kind(), ErrorKind::PermissionDenied);
    assert_eq!(error.message(), "locked");
    let written = record(FundingAcceptanceStage::Validating);
    let error = write_pending_funding_acceptance(&written, &mut store).unwrap_err();
    assert_eq!(error.kind(), ErrorKind::TimedOut);
}

/// A store that has no place for what is written.
struct Placeless;

impl KVStoreSync for Placeless {
    fn view(&self) -> StoreView {
        unreachable!("only contracts speak of it")
    }

    fn read(&mut self, _: &str, _: &str, _: &str) -> Result<Vec<u8>, Error> {
        Err(Error::Stated { kind: ErrorKind::NotFound, message: "no entry".to_string() })
    }

    fn write(&mut self, _: &str, _: &str, _: &str, _: Vec<u8>) -> Result<(), Error> {
        Err(Error::Stated { kind: ErrorKind::NotFound, message: "no directory".to_string() })
    }

    fn remove(&mut self, _: &str, _: &str, _: &str, _: bool) -> Result<(), Error> {
        Ok(())
    }
}

#[test]
fn write_without_a_place_is_handed_on() {
    let written = record(FundingAcceptanceStage::Validating);
    let error = write_pending_funding_acceptance(&written, &mut Placeless).unwrap_err();
    assert_eq!(error.kind(), ErrorKind::NotFound);
    assert_eq!(error.message(), "no directory");
}
