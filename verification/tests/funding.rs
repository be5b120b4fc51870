use rgb_utils::errors::{
    funding_acceptance_error, funding_storage_error, Error, ErrorKind, RgbError,
};
use rgb_utils::funding::{
    begin_rollback, clear_prepared_funding_artifacts, funding_worker_details,
    persist_prepared_funding_artifacts, prepare_funding, rollback_funding, wallet_worker_error,
    Assignment, FundingAttempt, FundingStep, PreparedTransfer, PromotionStep,
};
use rgb_utils::info::{AssetSchema, ContractId, RgbInfo};
use rgb_utils::journal::{
    read_pending_funding_acceptance, write_pending_funding_acceptance, FundingAcceptanceStage,
    PendingFundingAcceptance, JOURNAL_VERSION,
};
use rgb_utils::memory::MemoryStore;
use rgb_utils::records::{ChannelId, RgbKvStoreExt};
use rgb_utils::rename::try_rename_rgb_files;
use rgb_utils::store::{KVStoreSync, StoreView, RGB_FUNDING_ACCEPTANCE_NS};

/// A store whose calls fail from one point on, up to another.
struct Faulty {
    inner: MemoryStore,
    calls: usize,
    from: usize,
    to: usize,
}

impl Faulty {
    fn new(from: usize, to: usize) -> Faulty {
        Faulty { inner: MemoryStore::new(), calls: 0, from, to }
    }

    fn fails(&mut self) -> bool {
        let call = self.calls;
        self.calls += 1;
        self.from <= call && call < self.to
    }

    fn fault<T>() -> Result<T, Error> {
        Err(Error::Stated { kind: ErrorKind::Other, message: "disk".to_string() })
    }
}

impl KVStoreSync for Faulty {
    fn view(&self) -> StoreView {
        unreachable!("only contracts speak of it")
    }

    fn read(&mut self, primary: &str, secondary: &str, key: &str) -> Result<Vec<u8>, Error> {
        if self.fails() {
            return Faulty::fault();
        }
        self.inner.read(primary, secondary, key)
    }

    fn write(
        &mut self,
        primary: &str,
        secondary: &str,
        key: &str,
        data: Vec<u8>,
    ) -> Result<(), Error> {
        if self.fails() {
            return Faulty::fault();
        }
        self.inner.write(primary, secondary, key, data)
    }

    fn remove(
        &mut self,
        primary: &str,
        secondary: &str,
        key: &str,
        lazy: bool,
    ) -> Result<(), Error> {
        if self.fails() {
            return Faulty::fault();
        }
        self.inner.remove(primary, secondary, key, lazy)
    }
}

const TEMPORARY: ChannelId = ChannelId([1; 32]);
const NODE: [u8; 33] = [2; 33];

fn txid() -> String {
    (0..32).map(|byte| format!("{byte:02x}")).collect()
}

/// The final ID for [`txid`] and the output 0x0102: the bytes last to first, the index mixed in.
fn final_id() -> String {
    let mut bytes: Vec<u8> = (0..32).rev().collect();
    bytes[30] ^= 1;
    bytes[31] ^= 2;
    bytes.iter().map(|byte| format!("{byte:02x}")).collect()
}

fn info(local: u64, remote: u64) -> RgbInfo {
    RgbInfo {
        contract_id: ContractId([7; 32]),
        schema: AssetSchema::Nia,
        local_rgb_amount: local,
        remote_rgb_amount: remote,
        batch_transfer_idx: None,
        counterparty_knows_asset: false,
    }
}

fn record(stage: FundingAcceptanceStage) -> PendingFundingAcceptance {
    PendingFundingAcceptance {
        version: JOURNAL_VERSION,
        temporary_channel_id: "01".repeat(32),
        counterparty_node_id: "02".repeat(33),
        funding_txid: txid(),
        funding_output_index: 0x0102,
        push_asset_amount: Some(40),
        stage,
        consignment: None,
        rgb_info: None,
    }
}

fn prepared() -> PendingFundingAcceptance {
    PendingFundingAcceptance {
        consignment: Some(vec![5, 6]),
        rgb_info: Some(info(40, 60)),
        ..record(FundingAcceptanceStage::Prepared)
    }
}

fn begin<K: KVStoreSync>(store: &mut K) -> FundingAttempt {
    prepare_funding(&TEMPORARY, txid(), 0x0102, &NODE, Some(40), store).unwrap()
}

fn transfer(assignments: Vec<Assignment>) -> PreparedTransfer {
    PreparedTransfer {
        consignment: Ok(vec![5, 6]),
        assignments,
        schema: Ok(AssetSchema::Nia),
        contract_id: ContractId([7; 32]),
    }
}

fn stored<K: KVStoreSync>(store: &mut K) -> PendingFundingAcceptance {
    read_pending_funding_acceptance(&TEMPORARY.to_hex(), store).unwrap()
}

fn nothing_staged(store: &mut MemoryStore) {
    for id in [TEMPORARY.to_hex(), final_id(), txid()] {
        assert!(store.read_rgb_channel_info(&id, true).is_err());
        assert!(store.read_rgb_channel_info(&id, false).is_err());
        assert!(store.read_rgb_consignment(&id).is_err());
    }
}

#[test]
fn final_channel_id_mixes_the_output_index_in() {
    assert_eq!(ChannelId::v1_from_funding_outpoint(&[2; 32], 1).to_hex(), {
        let mut expected = "02".repeat(31);
        expected.push_str("03");
        expected
    });
    let both = ChannelId::v1_from_funding_outpoint(&[2; 32], 0xff01);
    assert_eq!(both.0[29..], [2, 0xfd, 3]);
}

#[test]
fn funding_is_written_down_before_validation() {
    let mut store = MemoryStore::new();
    begin(&mut store);
    assert_eq!(stored(&mut store), record(FundingAcceptanceStage::Validating));
    let error =
        prepare_funding(&TEMPORARY, "zz".repeat(32), 0, &NODE, None, &mut store).unwrap_err();
    assert_eq!(
        error.message(),
        "Failed to persist RGB funding intent: invalid RGB funding acceptance journal"
    );
    let mut faulty = Faulty::new(0, 1);
    let error = prepare_funding(&TEMPORARY, txid(), 0, &NODE, None, &mut faulty).unwrap_err();
    assert_eq!(error.message(), "Failed to persist RGB funding intent: disk");
}

#[test]
fn rejected_funding_must_be_retried() {
    let mut store = MemoryStore::new();
    let error = begin(&mut store).rejected(RgbError::InvalidConsignment, &mut store);
    assert_eq!(error.message(), "Invalid RGB consignment for funding");
    assert_eq!(stored(&mut store), record(FundingAcceptanceStage::RetryRequired));
    let mut faulty = Faulty::new(1, 2);
    let error = begin(&mut faulty).rejected(RgbError::NoConsignment, &mut faulty);
    assert_eq!(error.message(), "Failed to persist rejected RGB funding validation: disk");
    assert_eq!(stored(&mut faulty), record(FundingAcceptanceStage::Validating));
}

#[test]
fn transfer_is_split_between_the_sides() {
    let mut store = MemoryStore::new();
    let attempt = begin(&mut store);
    let fungible = transfer(vec![Assignment::Fungible(100)]);
    assert!(fungible.check_holdable());
    assert_eq!(attempt.examine(&fungible).unwrap(), info(40, 60));
    let exact = transfer(vec![Assignment::Fungible(40)]);
    assert_eq!(attempt.examine(&exact).unwrap(), info(40, 0));
    let unpushed = prepare_funding(&TEMPORARY, txid(), 0, &NODE, None, &mut store).unwrap();
    let token = transfer(vec![Assignment::NonFungible]);
    assert_eq!(unpushed.examine(&token).unwrap(), info(0, 1));
    assert!(!transfer(vec![Assignment::Other]).check_holdable());
    assert!(transfer(vec![Assignment::Other, Assignment::Other]).check_holdable());
}

#[test]
fn unfit_transfers_are_refused() {
    let mut store = MemoryStore::new();
    let attempt = begin(&mut store);
    let reason = |transfer: &PreparedTransfer| {
        attempt.examine(transfer).unwrap_err().message().to_string()
    };
    let mut lost = transfer(vec![]);
    lost.consignment = Err("why".to_string());
    assert_eq!(reason(&lost), "Failed to serialize RGB consignment: why");
    assert_eq!(reason(&transfer(vec![])), "Unexpected number of RGB assignments: 0");
    assert_eq!(
        reason(&transfer(vec![Assignment::NonFungible; 12])),
        "Unexpected number of RGB assignments: 12"
    );
    assert_eq!(
        reason(&transfer(vec![Assignment::NonFungible])),
        "RGB push amount 40 exceeds received channel amount 1"
    );
    let mut unknown = transfer(vec![Assignment::Fungible(40)]);
    unknown.schema = Err("why".to_string());
    assert_eq!(reason(&unknown), "Unsupported RGB funding schema: why");
}

#[test]
fn accepted_funding_is_durable() {
    let mut store = MemoryStore::new();
    let attempt = begin(&mut store);
    let FundingStep::Prepared(acceptance) = attempt.accept(vec![5, 6], info(40, 60), &mut store)
    else {
        panic!("must be prepared");
    };
    assert_eq!(stored(&mut store), prepared());
    let id = TEMPORARY.to_hex();
    assert_eq!(store.read_rgb_channel_info(&id, true).unwrap(), info(40, 60));
    assert_eq!(store.read_rgb_channel_info(&id, false).unwrap(), info(40, 60));
    assert_eq!(store.read_rgb_consignment(&id).unwrap(), vec![5, 6]);
    assert_eq!(store.read_rgb_consignment(&txid()).unwrap(), vec![5, 6]);

    let PromotionStep::Promoted(promoted) = acceptance.promoted(&mut store) else {
        panic!("must be promoted");
    };
    assert_eq!(promoted, id);
    assert_eq!(stored(&mut store).stage, FundingAcceptanceStage::Promoted);
}

#[test]
fn refused_funding_is_rolled_back() {
    let mut store = MemoryStore::new();
    let attempt = begin(&mut store);
    let reason = attempt.examine(&transfer(vec![])).unwrap_err();
    let FundingStep::Discard(refusal) = attempt.refuse(reason, &mut store) else {
        panic!("must be discarded");
    };
    assert_eq!(stored(&mut store), record(FundingAcceptanceStage::RollingBack));
    let error = refusal.wallet_discarded(Ok(()), &mut store);
    assert_eq!(error.message(), "Unexpected number of RGB assignments: 0");
    assert_eq!(stored(&mut store), record(FundingAcceptanceStage::RetryRequired));
}

#[test]
fn refusal_reports_what_keeps_it_from_being_done() {
    let mut store = Faulty::new(1, 2);
    let attempt = begin(&mut store);
    let reason = attempt.examine(&transfer(vec![])).unwrap_err();
    let FundingStep::Failed(error) = attempt.refuse(reason, &mut store) else {
        panic!("must fail");
    };
    assert_eq!(error.message(), "Failed to persist RGB rollback decision: disk");

    let mut store = MemoryStore::new();
    let attempt = begin(&mut store);
    let reason = attempt.examine(&transfer(vec![])).unwrap_err();
    let FundingStep::Discard(refusal) = attempt.refuse(reason, &mut store) else {
        panic!("must be discarded");
    };
    let indexer = RgbError::Indexer { details: "down".to_string() };
    let error = refusal.wallet_discarded(Err(indexer), &mut store);
    assert_eq!(error.message(), "Failed to connect to indexer: down");
    assert_eq!(stored(&mut store).stage, FundingAcceptanceStage::RollingBack);
}

#[test]
fn funding_that_cannot_be_staged_is_refused_for_that_reason() {
    for (fails_at, words) in [
        (1, "Failed to persist prepared RGB funding: disk"),
        (2, "Failed to stage RGB channel metadata: disk"),
        (3, "Failed to stage RGB channel metadata: disk"),
        (4, "Failed to stage RGB consignment: disk"),
        (5, "Failed to stage RGB consignment: disk"),
    ] {
        let mut store = Faulty::new(fails_at, fails_at + 1);
        let attempt = begin(&mut store);
        let FundingStep::Discard(refusal) =
            attempt.accept(vec![5, 6], info(40, 60), &mut store)
        else {
            panic!("must be discarded");
        };
        let rolling = PendingFundingAcceptance {
            stage: FundingAcceptanceStage::RollingBack,
            ..prepared()
        };
        assert_eq!(stored(&mut store), rolling);
        assert_eq!(refusal.wallet_discarded(Ok(()), &mut store).message(), words);
        nothing_staged(&mut store.inner);
        assert_eq!(stored(&mut store), record(FundingAcceptanceStage::RetryRequired));
    }
}

#[test]
fn promotion_that_cannot_be_written_down_is_undone() {
    let mut store = Faulty::new(6, 7);
    let attempt = begin(&mut store);
    let FundingStep::Prepared(acceptance) = attempt.accept(vec![5, 6], info(40, 60), &mut store)
    else {
        panic!("must be prepared");
    };
    let PromotionStep::Undo(undone) = acceptance.promoted(&mut store) else {
        panic!("must be undone");
    };
    assert_eq!(stored(&mut store), prepared());
    let error = undone.wallet_restored(Ok(()), &mut store);
    assert_eq!(error.message(), "Failed to persist promoted RGB funding: disk");
    nothing_staged(&mut store.inner);
    assert_eq!(stored(&mut store), record(FundingAcceptanceStage::RetryRequired));
}

#[test]
fn promotion_that_cannot_be_undone_is_reported() {
    for (to, reply, words) in [
        (7, Err(RgbError::NoConsignment), "Failed to find RGB consignment"),
        (8, Ok(()), "Failed to remove staged RGB funding data: disk"),
    ] {
        let mut store = Faulty::new(6, to);
        let attempt = begin(&mut store);
        let FundingStep::Prepared(acceptance) =
            attempt.accept(vec![5, 6], info(40, 60), &mut store)
        else {
            panic!("must be prepared");
        };
        let PromotionStep::Undo(undone) = acceptance.promoted(&mut store) else {
            panic!("must be undone");
        };
        assert_eq!(undone.wallet_restored(reply, &mut store).message(), words);
        assert_eq!(stored(&mut store), prepared());
    }
}

#[test]
fn retry_after_promotion_has_words_of_its_own() {
    let mut store = Faulty::new(6, 7);
    let attempt = begin(&mut store);
    let FundingStep::Prepared(acceptance) = attempt.accept(vec![5, 6], info(40, 60), &mut store)
    else {
        panic!("must be prepared");
    };
    let PromotionStep::Undo(undone) = acceptance.promoted(&mut store) else {
        panic!("must be undone");
    };
    store.from = store.calls + 7;
    store.to = store.calls + 8;
    assert_eq!(
        undone.wallet_restored(Ok(()), &mut store).message(),
        "Failed to persist RGB funding retry after promotion rollback: disk"
    );
}

#[test]
fn failed_promotion_changes_nothing() {
    let mut store = MemoryStore::new();
    let attempt = begin(&mut store);
    let FundingStep::Prepared(acceptance) = attempt.accept(vec![5, 6], info(40, 60), &mut store)
    else {
        panic!("must be prepared");
    };
    let other = RgbError::Other { description: "locked".to_string() };
    let error = acceptance.promotion_failed(other);
    assert_eq!(error.message(), "Unexpected RGB funding error: locked");
    assert_eq!(stored(&mut store), prepared());
}

#[test]
fn retry_is_asked_for_before_a_prepared_funding_is_discarded() {
    let mut store = MemoryStore::new();
    let attempt = begin(&mut store);
    let FundingStep::Prepared(acceptance) = attempt.accept(vec![5, 6], info(40, 60), &mut store)
    else {
        panic!("must be prepared");
    };
    let aborted = acceptance.abort(&mut store).unwrap();
    assert_eq!(stored(&mut store), record(FundingAcceptanceStage::RetryRequired));
    assert_eq!(store.read_rgb_consignment(&txid()).unwrap(), vec![5, 6]);
    aborted.wallet_discarded(Ok(()), &mut store).unwrap();
    nothing_staged(&mut store);
    assert_eq!(stored(&mut store), record(FundingAcceptanceStage::RetryRequired));
}

#[test]
fn abort_reports_what_keeps_it_from_being_done() {
    let mut store = Faulty::new(6, 7);
    let attempt = begin(&mut store);
    let FundingStep::Prepared(acceptance) = attempt.accept(vec![5, 6], info(40, 60), &mut store)
    else {
        panic!("must be prepared");
    };
    let error = acceptance.abort(&mut store).unwrap_err();
    assert_eq!(error.message(), "Failed to persist RGB retry decision: disk");
    assert_eq!(stored(&mut store), prepared());

    let mut store = MemoryStore::new();
    let attempt = begin(&mut store);
    let FundingStep::Prepared(acceptance) = attempt.accept(vec![5, 6], info(40, 60), &mut store)
    else {
        panic!("must be prepared");
    };
    let aborted = acceptance.abort(&mut store).unwrap();
    let reply = Err(RgbError::NoConsignment);
    let error = aborted.wallet_discarded(reply, &mut store).unwrap_err();
    assert_eq!(error.message(), "Failed to find RGB consignment");
    assert_eq!(stored(&mut store), record(FundingAcceptanceStage::RetryRequired));
    let rollback = rollback_funding(&TEMPORARY.to_hex(), &mut store).unwrap();
    rollback.wallet_done(Ok(()), &mut store).unwrap();
    nothing_staged(&mut store);
}

#[test]
fn stored_funding_can_be_rolled_back() {
    let mut store = MemoryStore::new();
    let promoted = PendingFundingAcceptance {
        stage: FundingAcceptanceStage::Promoted,
        ..prepared()
    };
    write_pending_funding_acceptance(&promoted, &mut store).unwrap();
    persist_prepared_funding_artifacts(&promoted, &mut store).unwrap();
    store.write_rgb_channel_info(&final_id(), &info(1, 2), false).unwrap();
    store.write_rgb_channel_info(&final_id(), &info(1, 2), true).unwrap();
    store.write_rgb_consignment(&final_id(), vec![9]).unwrap();
    store.write_rgb_consignment("other", vec![8]).unwrap();

    let rollback = rollback_funding(&TEMPORARY.to_hex(), &mut store).unwrap();
    assert_eq!(stored(&mut store).stage, FundingAcceptanceStage::RollingBack);
    assert_eq!(rollback.resolution(Ok(true)).unwrap(), Some(txid()));
    assert_eq!(rollback.resolution(Ok(false)).unwrap(), None);
    let network = RgbError::Network { details: "none".to_string() };
    assert_eq!(
        rollback.resolution(Err(network)).unwrap_err().message(),
        "Failed to connect to indexer: none"
    );
    rollback.wallet_done(Ok(()), &mut store).unwrap();
    nothing_staged(&mut store);
    assert_eq!(stored(&mut store), record(FundingAcceptanceStage::RetryRequired));
    assert_eq!(store.read_rgb_consignment("other").unwrap(), vec![8]);
}

#[test]
fn rollback_of_an_unknown_funding_is_reported() {
    let mut store = MemoryStore::new();
    let error = rollback_funding("none", &mut store).unwrap_err();
    assert_eq!(error.message(), "Failed to load RGB funding rollback: no such entry");
    let undecodable = vec![1];
    store.write("rgb", RGB_FUNDING_ACCEPTANCE_NS, "none", undecodable).unwrap();
    let error = rollback_funding("none", &mut store).unwrap_err();
    assert!(error.message().starts_with("Failed to load RGB funding rollback: "));
}

#[test]
fn rollback_resumes_after_any_failure() {
    for fails_at in 0..10 {
        let mut store = Faulty::new(usize::MAX, usize::MAX);
        write_pending_funding_acceptance(&prepared(), &mut store).unwrap();
        persist_prepared_funding_artifacts(&prepared(), &mut store).unwrap();
        store.from = store.calls + fails_at;
        store.to = store.from + 1;
        let first = rollback_funding(&TEMPORARY.to_hex(), &mut store)
            .and_then(|rollback| rollback.wallet_done(Ok(()), &mut store));
        assert!(first.is_err());
        let rollback = rollback_funding(&TEMPORARY.to_hex(), &mut store).unwrap();
        rollback.wallet_done(Ok(()), &mut store).unwrap();
        nothing_staged(&mut store.inner);
        assert_eq!(stored(&mut store), record(FundingAcceptanceStage::RetryRequired));
    }
}

#[test]
fn retry_that_cannot_be_written_down_is_reported() {
    let mut store = Faulty::new(8, 9);
    let rollback = begin_rollback(prepared(), &mut store).unwrap();
    assert_eq!(
        rollback.wallet_done(Ok(()), &mut store).unwrap_err().message(),
        "Failed to persist RGB retry decision: disk"
    );
}

#[test]
fn incomplete_record_is_not_staged() {
    let mut store = MemoryStore::new();
    let mut incomplete = prepared();
    incomplete.rgb_info = None;
    let error = persist_prepared_funding_artifacts(&incomplete, &mut store).unwrap_err();
    assert_eq!(error.message(), "Prepared RGB funding is missing channel metadata");
    incomplete.consignment = None;
    let error = persist_prepared_funding_artifacts(&incomplete, &mut store).unwrap_err();
    assert_eq!(error.message(), "Prepared RGB funding is missing its consignment");
    nothing_staged(&mut store);
}

#[test]
fn transaction_id_that_does_not_parse_is_reported() {
    let mut store = MemoryStore::new();
    for text in ["zz".repeat(32), "00".repeat(31)] {
        let mut broken = prepared();
        broken.funding_txid = text;
        let error = clear_prepared_funding_artifacts(&broken, &mut store).unwrap_err();
        let prefix = "Invalid funding transaction ID in RGB journal: ";
        assert!(error.message().starts_with(prefix));
        assert!(error.message().len() > prefix.len());
    }
}

#[test]
fn wallet_errors_have_their_words() {
    let text = || "x".to_string();
    for (error, words) in [
        (RgbError::InvalidConsignment, "Invalid RGB consignment for funding"),
        (RgbError::NoConsignment, "Failed to find RGB consignment"),
        (RgbError::UnknownRgbSchema { schema_id: text() }, "Unknown RGB schema: x"),
        (RgbError::UnsupportedSchema { asset_schema: text() }, "Unsupported RGB schema: x"),
        (RgbError::Indexer { details: text() }, "Failed to connect to indexer: x"),
        (RgbError::InvalidIndexer { details: text() }, "Failed to connect to indexer: x"),
        (RgbError::Network { details: text() }, "Failed to connect to indexer: x"),
        (RgbError::Other { description: text() }, "Unexpected RGB funding error: x"),
    ] {
        assert_eq!(funding_acceptance_error(&error).message(), words);
    }
    let stated = Error::Stated { kind: ErrorKind::Other, message: text() };
    assert_eq!(funding_storage_error("context", &stated).message(), "context: x");
    assert_eq!(
        wallet_worker_error("gone").message(),
        "RGB wallet worker failed before completion: gone"
    );
    assert_eq!(
        funding_worker_details("gone"),
        "RGB funding worker failed before completion: gone"
    );
}

#[test]
fn rollback_undoes_the_transition_to_the_final_id() {
    let mut store = MemoryStore::new();
    write_pending_funding_acceptance(&prepared(), &mut store).unwrap();
    persist_prepared_funding_artifacts(&prepared(), &mut store).unwrap();
    let bytes: Vec<u8> = (0..32).rev().collect();
    let channel = ChannelId::v1_from_funding_outpoint(&bytes.try_into().unwrap(), 0x0102);
    assert_eq!(channel.to_hex(), final_id());
    try_rename_rgb_files(&channel, &TEMPORARY, &mut store).unwrap();
    assert_eq!(store.read_rgb_channel_info(&final_id(), false).unwrap(), info(40, 60));
    let rollback = rollback_funding(&TEMPORARY.to_hex(), &mut store).unwrap();
    rollback.wallet_done(Ok(()), &mut store).unwrap();
    nothing_staged(&mut store);
    assert_eq!(stored(&mut store), record(FundingAcceptanceStage::RetryRequired));
}
