//! Acceptance of inbound RGB channel fundings: what is written down before and after each step of
//! the wallet, so that a crash between any two of them can be recovered from.

use vstd::prelude::*;
use crate::errors::{funding_acceptance_error, funding_storage_error, ChannelError, RgbError};
#[allow(unused_imports)]
use crate::errors::{acceptance_reason, storage_failure, ErrorView, FailureView};
use crate::info::{AssetSchema, ContractId, RgbInfo};
#[allow(unused_imports)]
use crate::info::{encode_info, RgbInfoView};
use crate::journal::{
    read_pending_funding_acceptance, write_pending_funding_acceptance, FundingAcceptanceStage,
    PendingFundingAcceptance, JOURNAL_VERSION,
};
#[allow(unused_imports)]
use crate::journal::{journal_key, read_record, stored_record, write_record, RecordView};
use crate::outside::{hex_text, txid_bytes};
#[allow(unused_imports)]
use crate::outside::txid_refusal;
use crate::records::{channel_info_namespace, ChannelId};
#[allow(unused_imports)]
use crate::recovery::{clearing_removes_all_that_was_staged, is_staged_place};
#[allow(unused_imports)]
use crate::records::{consignment_key, info_key, stored_info};
use crate::store::{clear_rgb_entry, KVStoreSync, RGB_CONSIGNMENT_NS, RGB_PRIMARY_NS};
#[allow(unused_imports)]
use crate::store::{clear_entry, namespaces_differ, rgb_key, EntryKey, StoreView};
use crate::text::{copy_bytes, decimal_text, join};
#[allow(unused_imports)]
use crate::text::{decimal, hex, hex_value, is_fixed_hex};

verus! {

/// Whether a result says what is expected of it.
pub open spec fn answers(r: Result<(), ChannelError>, expected: Result<(), FailureView>) -> bool {
    match (r, expected) {
        (Ok(_), Ok(_)) => true,
        (Err(e), Err(failure)) => e.reports(failure),
        _ => false,
    }
}

/// A store operation that fails as a step of a funding.
pub open spec fn as_step(context: Seq<char>, run: (StoreView, Result<(), ErrorView>)) -> (
    StoreView,
    Result<(), FailureView>,
) {
    (
        run.0,
        match run.1 {
            Ok(_) => Ok(()),
            Err(e) => Err(storage_failure(context, e)),
        },
    )
}

/// The record at another stage.
pub open spec fn at_stage(record: RecordView, stage: FundingAcceptanceStage) -> RecordView {
    RecordView { stage, ..record }
}

/// The record that asks for a retry: the identity of the operation and the inputs of the handshake,
/// without the consignment and the channel info.
pub open spec fn retry_record(record: RecordView) -> RecordView {
    RecordView {
        stage: FundingAcceptanceStage::RetryRequired,
        consignment: None,
        rgb_info: None,
        ..record
    }
}

fn set_stage(record: &mut PendingFundingAcceptance, stage: FundingAcceptanceStage)
    ensures
        final(record)@ == at_stage(old(record)@, stage),
{
    record.stage = stage;
}

fn write_step<K: KVStoreSync>(
    record: &PendingFundingAcceptance,
    kv_store: &mut K,
    context: &str,
) -> (r: Result<(), ChannelError>)
    ensures
        ({
            let run = as_step(context@, write_record(old(kv_store)@, record@));
            final(kv_store)@ == run.0 && answers(r, run.1)
        }),
        r is Ok ==> stored_record(final(kv_store)@, record@.temporary_channel_id) == Some(record@),
{
    match write_pending_funding_acceptance(record, kv_store) {
        Ok(_) => Ok(()),
        Err(e) => Err(funding_storage_error(context, &e)),
    }
}

/// Writes down that the funding must be retried.
///
/// Retry evidence only needs the operation identity and the handshake inputs. A complete
/// consignment would grow the store with the asset's full history, and takes no part in recovery.
pub fn persist_retry_required<K: KVStoreSync>(
    record: &mut PendingFundingAcceptance,
    kv_store: &mut K,
    context: &str,
) -> (r: Result<(), ChannelError>)
    ensures
        final(record)@ == retry_record(old(record)@),
        ({
            let run = as_step(
                context@,
                write_record(old(kv_store)@, retry_record(old(record)@)),
            );
            final(kv_store)@ == run.0 && answers(r, run.1)
        }),
        r is Ok ==> stored_record(
            final(kv_store)@,
            old(record)@.temporary_channel_id,
        ) == Some(retry_record(old(record)@)),
{
    record.stage = FundingAcceptanceStage::RetryRequired;
    record.consignment = None;
    record.rgb_info = None;
    write_step(record, kv_store, context)
}

/// Writes one more entry, if all went well so far.
pub open spec fn and_write(
    run: (StoreView, Result<(), FailureView>),
    key: EntryKey,
    data: Seq<u8>,
    context: Seq<char>,
) -> (StoreView, Result<(), FailureView>) {
    match run.1 {
        Ok(_) => as_step(context, run.0.write(key, data)),
        Err(e) => run,
    }
}

/// The words for channel info that could not be staged.
pub const STAGE_INFO: &'static str = "Failed to stage RGB channel metadata";

/// The words for a consignment that could not be staged.
pub const STAGE_CONSIGNMENT: &'static str = "Failed to stage RGB consignment";

/// Stages what a prepared funding needs: the channel info, pending and current, and the
/// consignment, under the funding transaction and under the temporary channel.
pub open spec fn stage_artifacts(store: StoreView, record: RecordView) -> (
    StoreView,
    Result<(), FailureView>,
) {
    match (record.consignment, record.rgb_info) {
        (None, _) => (
            store,
            Err(FailureView::Text("Prepared RGB funding is missing its consignment"@)),
        ),
        (_, None) => (
            store,
            Err(FailureView::Text("Prepared RGB funding is missing channel metadata"@)),
        ),
        (Some(consignment), Some(info)) => {
            let id = record.temporary_channel_id;
            let data = encode_info(info);
            let pending = and_write((store, Ok(())), info_key(id, true), data, STAGE_INFO@);
            let current = and_write(pending, info_key(id, false), data, STAGE_INFO@);
            let by_txid = and_write(
                current,
                consignment_key(record.funding_txid),
                consignment,
                STAGE_CONSIGNMENT@,
            );
            and_write(by_txid, consignment_key(id), consignment, STAGE_CONSIGNMENT@)
        },
    }
}

fn stage_entry<K: KVStoreSync>(
    secondary_namespace: &str,
    key: &str,
    data: &Vec<u8>,
    context: &str,
    kv_store: &mut K,
) -> (r: Result<(), ChannelError>)
    ensures
        ({
            let run = as_step(
                context@,
                old(kv_store)@.write(rgb_key(secondary_namespace@, key@), data@),
            );
            final(kv_store)@ == run.0 && answers(r, run.1)
        }),
{
    match kv_store.write(RGB_PRIMARY_NS, secondary_namespace, key, copy_bytes(data)) {
        Ok(_) => Ok(()),
        Err(e) => Err(funding_storage_error(context, &e)),
    }
}

/// Whether the store holds what a prepared funding needs.
pub open spec fn artifacts_staged(store: StoreView, record: RecordView) -> bool {
    let id = record.temporary_channel_id;
    &&& stored_info(store, id, true) == record.rgb_info
    &&& stored_info(store, id, false) == record.rgb_info
    &&& store.entries.contains_key(consignment_key(record.funding_txid))
    &&& Some(store.entries[consignment_key(record.funding_txid)]) == record.consignment
    &&& store.entries.contains_key(consignment_key(id))
    &&& Some(store.entries[consignment_key(id)]) == record.consignment
}

/// Stages what a prepared funding needs.
///
/// Once it has succeeded, the store holds all of it.
pub fn persist_prepared_funding_artifacts<K: KVStoreSync>(
    record: &PendingFundingAcceptance,
    kv_store: &mut K,
) -> (r: Result<(), ChannelError>)
    ensures
        final(kv_store)@ == stage_artifacts(old(kv_store)@, record@).0,
        answers(r, stage_artifacts(old(kv_store)@, record@).1),
        r is Ok ==> artifacts_staged(final(kv_store)@, record@),
{
    proof {
        namespaces_differ();
    }
    let consignment: &Vec<u8> = match &record.consignment {
        Some(consignment) => consignment,
        None => return Err(
            ChannelError::close("Prepared RGB funding is missing its consignment".to_owned()),
        ),
    };
    let data: Vec<u8> = match &record.rgb_info {
        Some(info) => info.to_bytes(),
        None => return Err(
            ChannelError::close("Prepared RGB funding is missing channel metadata".to_owned()),
        ),
    };
    let id: &str = record.temporary_channel_id.as_str();
    let txid: &str = record.funding_txid.as_str();
    match stage_entry(channel_info_namespace(true), id, &data, STAGE_INFO, kv_store) {
        Ok(_) => {},
        Err(e) => return Err(e),
    }
    match stage_entry(channel_info_namespace(false), id, &data, STAGE_INFO, kv_store) {
        Ok(_) => {},
        Err(e) => return Err(e),
    }
    match stage_entry(RGB_CONSIGNMENT_NS, txid, consignment, STAGE_CONSIGNMENT, kv_store) {
        Ok(_) => {},
        Err(e) => return Err(e),
    }
    stage_entry(RGB_CONSIGNMENT_NS, id, consignment, STAGE_CONSIGNMENT, kv_store)
}

/// The words for a staged entry that could not be removed.
pub const REMOVE_STAGED: &'static str = "Failed to remove staged RGB funding data";

/// Removes one more entry, if all went well so far. That it is not there is no error.
pub open spec fn and_clear(run: (StoreView, Result<(), FailureView>), key: EntryKey) -> (
    StoreView,
    Result<(), FailureView>,
) {
    match run.1 {
        Ok(_) => as_step(REMOVE_STAGED@, clear_entry(run.0, key)),
        Err(e) => run,
    }
}

/// Removes a staged entry; that it is not there is no error.
pub fn remove_if_present<K: KVStoreSync>(
    kv_store: &mut K,
    secondary_namespace: &str,
    key: &str,
) -> (r: Result<(), ChannelError>)
    ensures
        ({
            let run = as_step(
                REMOVE_STAGED@,
                clear_entry(old(kv_store)@, rgb_key(secondary_namespace@, key@)),
            );
            final(kv_store)@ == run.0 && answers(r, run.1)
        }),
{
    match clear_rgb_entry(kv_store, secondary_namespace, key) {
        Ok(_) => Ok(()),
        Err(e) => Err(funding_storage_error(REMOVE_STAGED, &e)),
    }
}

/// The bytes of the transaction ID that 64 hexadecimal digits show, last byte first.
pub open spec fn txid_of(text: Seq<char>) -> Seq<u8> {
    Seq::new(
        32,
        |i: int|
            (16 * hex_value(text[2 * (31 - i)]) + hex_value(text[2 * (31 - i) + 1])) as u8,
    )
}

/// The final ID of a channel: the bytes of its funding transaction ID, with the output index mixed
/// into the last two of them.
pub open spec fn final_channel_id(txid: Seq<u8>, index: u16) -> Seq<u8> {
    txid.update(30, txid[30] ^ ((index >> 8) as u8)).update(31, txid[31] ^ ((index & 0xff) as u8))
}

impl ChannelId {
    /// The final ID of the channel that is funded by the given output.
    pub fn v1_from_funding_outpoint(txid: &[u8; 32], index: u16) -> (r: ChannelId)
        ensures
            r@ == final_channel_id(txid@, index),
    {
        let mut bytes: [u8; 32] = *txid;
        bytes[30] = bytes[30] ^ ((index >> 8) as u8);
        bytes[31] = bytes[31] ^ ((index & 0xff) as u8);
        assert(bytes@ =~= final_channel_id(txid@, index));
        ChannelId(bytes)
    }
}

/// The words for a record whose funding transaction ID does not parse.
pub const INVALID_TXID: &'static str = "Invalid funding transaction ID in RGB journal: ";

/// The final ID of the channel that a record funds, in hexadecimal digits.
pub open spec fn final_id_of(record: RecordView) -> Seq<char> {
    hex(final_channel_id(txid_of(record.funding_txid), record.funding_output_index))
}

/// Removes all that was staged for a funding: the channel info, pending and current, under the
/// temporary and the final ID; then the consignment, under the funding transaction and both IDs.
pub open spec fn clear_artifacts(store: StoreView, record: RecordView) -> (
    StoreView,
    Result<(), FailureView>,
) {
    if !is_fixed_hex(record.funding_txid, 32) {
        (store, Err(FailureView::Text(INVALID_TXID@ + txid_refusal(record.funding_txid))))
    } else {
        let id = record.temporary_channel_id;
        let final_id = final_id_of(record);
        let pending = and_clear(
            and_clear((store, Ok(())), info_key(id, true)),
            info_key(final_id, true),
        );
        let current = and_clear(and_clear(pending, info_key(id, false)), info_key(final_id, false));
        and_clear(
            and_clear(
                and_clear(current, consignment_key(record.funding_txid)),
                consignment_key(id),
            ),
            consignment_key(final_id),
        )
    }
}

/// Removes all that was staged for a funding, under its temporary and under its final ID.
pub fn clear_prepared_funding_artifacts<K: KVStoreSync>(
    record: &PendingFundingAcceptance,
    kv_store: &mut K,
) -> (r: Result<(), ChannelError>)
    ensures
        final(kv_store)@ == clear_artifacts(old(kv_store)@, record@).0,
        answers(r, clear_artifacts(old(kv_store)@, record@).1),
{
    let txid: [u8; 32] = match txid_bytes(record.funding_txid.as_str()) {
        Ok(bytes) => bytes,
        Err(words) => {
            return Err(ChannelError::close(join(INVALID_TXID, words.as_str())));
        },
    };
    assert(txid@ =~= txid_of(record@.funding_txid));
    let final_channel = ChannelId::v1_from_funding_outpoint(&txid, record.funding_output_index);
    let final_id: String = final_channel.to_hex();
    let id: &str = record.temporary_channel_id.as_str();
    match remove_if_present(kv_store, channel_info_namespace(true), id) {
        Ok(_) => {},
        Err(e) => return Err(e),
    }
    match remove_if_present(kv_store, channel_info_namespace(true), final_id.as_str()) {
        Ok(_) => {},
        Err(e) => return Err(e),
    }
    match remove_if_present(kv_store, channel_info_namespace(false), id) {
        Ok(_) => {},
        Err(e) => return Err(e),
    }
    match remove_if_present(kv_store, channel_info_namespace(false), final_id.as_str()) {
        Ok(_) => {},
        Err(e) => return Err(e),
    }
    match remove_if_present(kv_store, RGB_CONSIGNMENT_NS, record.funding_txid.as_str()) {
        Ok(_) => {},
        Err(e) => return Err(e),
    }
    match remove_if_present(kv_store, RGB_CONSIGNMENT_NS, id) {
        Ok(_) => {},
        Err(e) => return Err(e),
    }
    remove_if_present(kv_store, RGB_CONSIGNMENT_NS, final_id.as_str())
}

/// The words for a rollback that could not be written down.
pub const ROLLBACK_DECISION: &'static str = "Failed to persist RGB rollback decision";

/// The words for a retry that could not be written down.
pub const RETRY_DECISION: &'static str = "Failed to persist RGB retry decision";

/// Writes down that a funding is rolled back.
pub open spec fn decide_rollback(store: StoreView, record: RecordView) -> (
    StoreView,
    Result<(), FailureView>,
) {
    as_step(
        ROLLBACK_DECISION@,
        write_record(store, at_stage(record, FundingAcceptanceStage::RollingBack)),
    )
}

/// Removes all that was staged, then writes down that the funding must be retried.
pub open spec fn complete_rollback(store: StoreView, record: RecordView, context: Seq<char>) -> (
    StoreView,
    Result<(), FailureView>,
) {
    let cleared = clear_artifacts(store, record);
    match cleared.1 {
        Ok(_) => as_step(context, write_record(cleared.0, retry_record(record))),
        Err(_) => cleared,
    }
}

fn finish_rollback<K: KVStoreSync>(
    record: PendingFundingAcceptance,
    context: &str,
    kv_store: &mut K,
) -> (r: Result<(), ChannelError>)
    ensures
        final(kv_store)@ == complete_rollback(old(kv_store)@, record@, context@).0,
        answers(r, complete_rollback(old(kv_store)@, record@, context@).1),
        r is Ok ==> stored_record(final(kv_store)@, record@.temporary_channel_id) == Some(
            retry_record(record@),
        ),
{
    let mut record: PendingFundingAcceptance = record;
    match clear_prepared_funding_artifacts(&record, kv_store) {
        Ok(_) => persist_retry_required(&mut record, kv_store, context),
        Err(e) => Err(e),
    }
}

/// A rollback that has been written down. The wallet has yet to do its part.
#[derive(Debug)]
pub struct Rollback {
    record: PendingFundingAcceptance,
}

impl View for Rollback {
    type V = RecordView;

    closed spec fn view(&self) -> RecordView {
        self.record@
    }
}

/// Writes down that a funding is rolled back, before the wallet discards or restores anything.
///
/// Once it has succeeded, the journal says so.
pub fn begin_rollback<K: KVStoreSync>(record: PendingFundingAcceptance, kv_store: &mut K) -> (r:
    Result<Rollback, ChannelError>)
    ensures
        ({
            let rolling = at_stage(record@, FundingAcceptanceStage::RollingBack);
            let run = decide_rollback(old(kv_store)@, record@);
            &&& final(kv_store)@ == run.0
            &&& match r {
                Ok(rollback) => {
                    &&& run.1 is Ok
                    &&& rollback@ == rolling
                    &&& stored_record(final(kv_store)@, record@.temporary_channel_id) == Some(
                        rolling,
                    )
                },
                Err(e) => run.1 matches Err(failure) && e.reports(failure),
            }
        }),
{
    let mut record: PendingFundingAcceptance = record;
    set_stage(&mut record, FundingAcceptanceStage::RollingBack);
    match write_step(&record, kv_store, ROLLBACK_DECISION) {
        Ok(_) => Ok(Rollback { record }),
        Err(e) => Err(e),
    }
}

/// The words for a funding to roll back that could not be read.
pub const LOAD_ROLLBACK: &'static str = "Failed to load RGB funding rollback";

/// Reads a funding from the journal, then writes down that it is rolled back.
pub open spec fn decide_stored_rollback(store: StoreView, temporary_channel_id: Seq<char>) -> (
    StoreView,
    Result<RecordView, FailureView>,
) {
    let (after, read) = read_record(store, temporary_channel_id);
    match read {
        Err(e) => (after, Err(storage_failure(LOAD_ROLLBACK@, e))),
        Ok(record) => {
            let (decided, result) = decide_rollback(after, record);
            (
                decided,
                match result {
                    Ok(_) => Ok(at_stage(record, FundingAcceptanceStage::RollingBack)),
                    Err(failure) => Err(failure),
                },
            )
        },
    }
}

/// Begins to roll back a funding acceptance before `funding_signed` can be released.
///
/// Once it has succeeded, the journal says that the funding is rolled back.
pub fn rollback_funding<K: KVStoreSync>(temporary_channel_id: &str, kv_store: &mut K) -> (r: Result<
    Rollback,
    ChannelError,
>)
    ensures
        ({
            let run = decide_stored_rollback(old(kv_store)@, temporary_channel_id@);
            &&& final(kv_store)@ == run.0
            &&& match r {
                Ok(rollback) => {
                    &&& run.1 == Ok::<RecordView, FailureView>(rollback@)
                    &&& stored_record(final(kv_store)@, temporary_channel_id@) == Some(rollback@)
                },
                Err(e) => run.1 matches Err(failure) && e.reports(failure),
            }
        }),
{
    match read_pending_funding_acceptance(temporary_channel_id, kv_store) {
        Ok(record) => begin_rollback(record, kv_store),
        Err(e) => Err(funding_storage_error(LOAD_ROLLBACK, &e)),
    }
}

impl Rollback {
    /// Takes whether the wallet has a pending acceptance. The funding transaction under which the
    /// wallet is to resolve it is given back, or nothing if there is nothing to resolve.
    pub fn resolution(&self, pending: Result<bool, RgbError>) -> (r: Result<
        Option<String>,
        ChannelError,
    >)
        ensures
            match (r, pending) {
                (Ok(Some(txid)), Ok(is_pending)) => is_pending && txid@ == self@.funding_txid,
                (Ok(None), Ok(is_pending)) => !is_pending,
                (Err(e), Err(error)) => e.reason() == acceptance_reason(error),
                _ => false,
            },
    {
        match pending {
            Ok(is_pending) => {
                if is_pending {
                    Ok(Some(self.record.funding_txid.clone()))
                } else {
                    Ok(None)
                }
            },
            Err(error) => Err(funding_acceptance_error(&error)),
        }
    }

    /// Takes what came of the wallet's part. Where it has done it, all that was staged is removed,
    /// and the funding is written down as to be retried.
    pub fn wallet_done<K: KVStoreSync>(self, reply: Result<(), RgbError>, kv_store: &mut K) -> (r:
        Result<(), ChannelError>)
        ensures
            match reply {
                Err(error) => final(kv_store)@ == old(kv_store)@ && (r matches Err(e) && e.reason()
                    == acceptance_reason(error)),
                Ok(_) => {
                    let run = complete_rollback(old(kv_store)@, self@, RETRY_DECISION@);
                    final(kv_store)@ == run.0 && answers(r, run.1)
                },
            },
            r is Ok ==> stored_record(final(kv_store)@, self@.temporary_channel_id) == Some(
                retry_record(self@),
            ),
    {
        match reply {
            Ok(_) => finish_rollback(self.record, RETRY_DECISION, kv_store),
            Err(error) => Err(funding_acceptance_error(&error)),
        }
    }
}

/// The record with which a funding begins.
pub open spec fn intent(
    temporary_channel_id: Seq<u8>,
    counterparty_node_id: Seq<u8>,
    funding_txid: Seq<char>,
    funding_output_index: u16,
    push_asset_amount: Option<u64>,
) -> RecordView {
    RecordView {
        version: JOURNAL_VERSION,
        temporary_channel_id: hex(temporary_channel_id),
        counterparty_node_id: hex(counterparty_node_id),
        funding_txid,
        funding_output_index,
        push_asset_amount,
        stage: FundingAcceptanceStage::Validating,
        consignment: None,
        rgb_info: None,
    }
}

/// The words for a funding that could not be written down.
pub const FUNDING_INTENT: &'static str = "Failed to persist RGB funding intent";

/// A funding that has been written down. The wallet has yet to fetch and validate the consignment,
/// into an isolated stock.
#[derive(Debug)]
pub struct FundingAttempt {
    record: PendingFundingAcceptance,
}

impl View for FundingAttempt {
    type V = RecordView;

    closed spec fn view(&self) -> RecordView {
        self.record@
    }
}

/// Begins to validate an RGB funding: writes down the attempt, before the wallet does anything.
///
/// Once it has succeeded, the journal holds the attempt.
pub fn prepare_funding<K: KVStoreSync>(
    temporary_channel_id: &ChannelId,
    funding_txid: String,
    funding_output_index: u16,
    counterparty_node_id: &[u8; 33],
    push_asset_amount: Option<u64>,
    kv_store: &mut K,
) -> (r: Result<FundingAttempt, ChannelError>)
    ensures
        ({
            let record = intent(
                temporary_channel_id@,
                counterparty_node_id@,
                funding_txid@,
                funding_output_index,
                push_asset_amount,
            );
            let run = as_step(FUNDING_INTENT@, write_record(old(kv_store)@, record));
            &&& final(kv_store)@ == run.0
            &&& match r {
                Ok(attempt) => {
                    &&& run.1 is Ok
                    &&& attempt@ == record
                    &&& stored_record(final(kv_store)@, hex(temporary_channel_id@)) == Some(record)
                },
                Err(e) => run.1 matches Err(failure) && e.reports(failure),
            }
        }),
{
    let record = PendingFundingAcceptance {
        version: JOURNAL_VERSION,
        temporary_channel_id: temporary_channel_id.to_hex(),
        counterparty_node_id: hex_text(counterparty_node_id.as_slice()),
        funding_txid,
        funding_output_index,
        push_asset_amount,
        stage: FundingAcceptanceStage::Validating,
        consignment: None,
        rgb_info: None,
    };
    match write_step(&record, kv_store, FUNDING_INTENT) {
        Ok(_) => Ok(FundingAttempt { record }),
        Err(e) => Err(e),
    }
}

/// What an assignment of the received transfer is worth.
#[derive(Clone, Copy, Debug, PartialEq, Eq, Structural)]
pub enum Assignment {
    Fungible(u64),
    NonFungible,
    /// A right that no channel can hold.
    Other,
}

/// What the wallet says of a transfer that it has validated.
#[derive(Debug)]
pub struct PreparedTransfer {
    /// The consignment, or why it could not be serialized.
    pub consignment: Result<Vec<u8>, String>,
    pub assignments: Vec<Assignment>,
    /// The schema of the asset, or why it is not supported.
    pub schema: Result<AssetSchema, String>,
    pub contract_id: ContractId,
}

impl PreparedTransfer {
    /// Whether the assignment that funds the channel, if there is a single one, is an amount or a
    /// unique token.
    pub open spec fn holdable(self) -> bool {
        self.consignment is Ok && self.assignments@.len() == 1 ==> !(self.assignments@[0] is Other)
    }

    /// The amount that funds the channel.
    pub open spec fn channel_amount(self) -> u64 {
        match self.assignments@[0] {
            Assignment::Fungible(amount) => amount,
            _ => 1,
        }
    }

    /// Whether the assignment that funds the channel is an amount or a unique token.
    pub fn check_holdable(&self) -> (r: bool)
        ensures
            r == self.holdable(),
    {
        if self.consignment.is_ok() && self.assignments.len() == 1 {
            match self.assignments[0] {
                Assignment::Other => false,
                _ => true,
            }
        } else {
            true
        }
    }
}

/// What was pushed to the accepting node.
pub open spec fn pushed(push_asset_amount: Option<u64>) -> u64 {
    match push_asset_amount {
        Some(amount) => amount,
        None => 0,
    }
}

/// The info of the channel that a transfer funds, or the reason why it cannot.
pub open spec fn examined(transfer: PreparedTransfer, push_asset_amount: Option<u64>) -> Result<
    RgbInfoView,
    Seq<char>,
> {
    let push = pushed(push_asset_amount);
    let amount = transfer.channel_amount();
    match transfer.consignment {
        Err(words) => Err("Failed to serialize RGB consignment: "@ + words@),
        Ok(_) => if transfer.assignments@.len() != 1 {
            Err("Unexpected number of RGB assignments: "@ + decimal(transfer.assignments@.len()))
        } else if push > amount {
            Err(
                "RGB push amount "@ + decimal(push as nat)
                    + " exceeds received channel amount "@ + decimal(amount as nat),
            )
        } else {
            match transfer.schema {
                Err(words) => Err("Unsupported RGB funding schema: "@ + words@),
                Ok(schema) => Ok(
                    RgbInfoView {
                        contract_id: transfer.contract_id@,
                        schema,
                        local_rgb_amount: push,
                        remote_rgb_amount: (amount - push) as u64,
                        batch_transfer_idx: None,
                        counterparty_knows_asset: false,
                    },
                ),
            }
        },
    }
}

/// The record of a funding that has been prepared.
pub open spec fn prepared_record(
    record: RecordView,
    consignment: Seq<u8>,
    info: RgbInfoView,
) -> RecordView {
    RecordView {
        stage: FundingAcceptanceStage::Prepared,
        consignment: Some(consignment),
        rgb_info: Some(info),
        ..record
    }
}

/// The words for a prepared funding that could not be written down.
pub const PREPARED_FUNDING: &'static str = "Failed to persist prepared RGB funding";

/// The words for a rejected funding that could not be written down.
pub const REJECTED_FUNDING: &'static str = "Failed to persist rejected RGB funding validation";

/// Writes down a prepared funding, then stages what it needs.
pub open spec fn persist_prepared(store: StoreView, record: RecordView) -> (
    StoreView,
    Result<(), FailureView>,
) {
    let written = as_step(PREPARED_FUNDING@, write_record(store, record));
    match written.1 {
        Ok(_) => stage_artifacts(written.0, record),
        Err(_) => written,
    }
}

/// A validated RGB funding acceptance whose live wallet state is still unchanged.
#[derive(Debug)]
pub struct PreparedFundingAcceptance {
    record: PendingFundingAcceptance,
}

impl View for PreparedFundingAcceptance {
    type V = RecordView;

    closed spec fn view(&self) -> RecordView {
        self.record@
    }
}

/// A funding that is refused. The wallet has yet to discard what it has prepared.
#[derive(Debug)]
pub struct Refusal {
    rollback: Rollback,
    reason: ChannelError,
}

impl Refusal {
    /// The record that is rolled back.
    pub closed spec fn record(self) -> RecordView {
        self.rollback@
    }

    /// Why the funding is refused.
    pub closed spec fn error(self) -> ChannelError {
        self.reason
    }

    /// Takes what came of discarding what the wallet has prepared. The error is the reason for the
    /// refusal, unless the rollback itself fails.
    pub fn wallet_discarded<K: KVStoreSync>(
        self,
        reply: Result<(), RgbError>,
        kv_store: &mut K,
    ) -> (r: ChannelError)
        ensures
            match reply {
                Err(error) => final(kv_store)@ == old(kv_store)@ && r.reason() == acceptance_reason(
                    error,
                ),
                Ok(_) => {
                    let run = complete_rollback(old(kv_store)@, self.record(), RETRY_DECISION@);
                    &&& final(kv_store)@ == run.0
                    &&& match run.1 {
                        Ok(_) => r == self.error() && stored_record(
                            final(kv_store)@,
                            self.record().temporary_channel_id,
                        ) == Some(retry_record(self.record())),
                        Err(failure) => r.reports(failure),
                    }
                },
            },
    {
        match self.rollback.wallet_done(reply, kv_store) {
            Ok(_) => self.reason,
            Err(e) => e,
        }
    }
}

/// What to do next about a funding that the wallet has validated.
#[derive(Debug)]
pub enum FundingStep {
    /// Nothing: it is prepared, and durable.
    Prepared(PreparedFundingAcceptance),
    /// Have the wallet discard what it has prepared.
    Discard(Refusal),
    /// Nothing: not even the refusal could be written down.
    Failed(ChannelError),
}

/// Whether a step is what refusing the record for `reason` leads to.
pub open spec fn refuses(
    step: FundingStep,
    store: StoreView,
    record: RecordView,
    after: StoreView,
) -> bool {
    let rolling = at_stage(record, FundingAcceptanceStage::RollingBack);
    let run = decide_rollback(store, record);
    &&& after == run.0
    &&& match step {
        FundingStep::Prepared(_) => false,
        FundingStep::Discard(refusal) => {
            &&& run.1 is Ok
            &&& refusal.record() == rolling
            &&& stored_record(after, record.temporary_channel_id) == Some(rolling)
        },
        FundingStep::Failed(e) => run.1 matches Err(failure) && e.reports(failure),
    }
}

fn refuse_record<K: KVStoreSync>(
    record: PendingFundingAcceptance,
    reason: ChannelError,
    kv_store: &mut K,
) -> (r: FundingStep)
    ensures
        refuses(r, old(kv_store)@, record@, final(kv_store)@),
        r matches FundingStep::Discard(refusal) ==> refusal.error() == reason,
{
    match begin_rollback(record, kv_store) {
        Ok(rollback) => FundingStep::Discard(Refusal { rollback, reason }),
        Err(e) => FundingStep::Failed(e),
    }
}

impl FundingAttempt {
    /// Takes that the wallet has rejected the funding, and why. The funding is written down as to
    /// be retried.
    pub fn rejected<K: KVStoreSync>(self, error: RgbError, kv_store: &mut K) -> (r: ChannelError)
        ensures
            ({
                let run = as_step(
                    REJECTED_FUNDING@,
                    write_record(old(kv_store)@, retry_record(self@)),
                );
                &&& final(kv_store)@ == run.0
                &&& match run.1 {
                    Ok(_) => r.reason() == acceptance_reason(error) && stored_record(
                        final(kv_store)@,
                        self@.temporary_channel_id,
                    ) == Some(retry_record(self@)),
                    Err(failure) => r.reports(failure),
                }
            }),
    {
        let mut record: PendingFundingAcceptance = self.record;
        match persist_retry_required(&mut record, kv_store, REJECTED_FUNDING) {
            Ok(_) => funding_acceptance_error(&error),
            Err(e) => e,
        }
    }

    /// Derives the info of the channel from the transfer that the wallet has validated.
    pub fn examine(&self, transfer: &PreparedTransfer) -> (r: Result<RgbInfo, ChannelError>)
        requires
            transfer.holdable(),
        ensures
            match r {
                Ok(info) => examined(*transfer, self@.push_asset_amount) == Ok::<
                    RgbInfoView,
                    Seq<char>,
                >(info@),
                Err(e) => examined(*transfer, self@.push_asset_amount) == Err::<
                    RgbInfoView,
                    Seq<char>,
                >(e.reason()),
            },
    {
        match &transfer.consignment {
            Ok(_) => {},
            Err(words) => return Err(
                ChannelError::close(join("Failed to serialize RGB consignment: ", words.as_str())),
            ),
        }
        if transfer.assignments.len() != 1 {
            let count: String = decimal_text(transfer.assignments.len() as u64);
            return Err(
                ChannelError::close(
                    join("Unexpected number of RGB assignments: ", count.as_str()),
                ),
            );
        }
        let amount: u64 = match transfer.assignments[0] {
            Assignment::Fungible(amount) => amount,
            _ => 1,
        };
        let push: u64 = match self.record.push_asset_amount {
            Some(amount) => amount,
            None => 0,
        };
        if push > amount {
            let pushed_text: String = decimal_text(push);
            let amount_text: String = decimal_text(amount);
            let start: String = join("RGB push amount ", pushed_text.as_str());
            let middle: String = join(start.as_str(), " exceeds received channel amount ");
            return Err(ChannelError::close(join(middle.as_str(), amount_text.as_str())));
        }
        match &transfer.schema {
            Ok(schema) => Ok(
                RgbInfo {
                    contract_id: transfer.contract_id,
                    schema: *schema,
                    local_rgb_amount: push,
                    remote_rgb_amount: amount - push,
                    batch_transfer_idx: None,
                    counterparty_knows_asset: false,
                },
            ),
            Err(words) => Err(
                ChannelError::close(join("Unsupported RGB funding schema: ", words.as_str())),
            ),
        }
    }

    /// Refuses the funding after the wallet has validated it, for the given reason.
    pub fn refuse<K: KVStoreSync>(self, reason: ChannelError, kv_store: &mut K) -> (r: FundingStep)
        ensures
            refuses(r, old(kv_store)@, self@, final(kv_store)@),
            r matches FundingStep::Discard(refusal) ==> refusal.error() == reason,
    {
        refuse_record(self.record, reason, kv_store)
    }

    /// Accepts the funding: writes it down as prepared, then stages what it needs. Where either
    /// fails, the funding is refused for that reason.
    pub fn accept<K: KVStoreSync>(
        self,
        consignment: Vec<u8>,
        rgb_info: RgbInfo,
        kv_store: &mut K,
    ) -> (r: FundingStep)
        ensures
            ({
                let prepared = prepared_record(self@, consignment@, rgb_info@);
                let run = persist_prepared(old(kv_store)@, prepared);
                match run.1 {
                    Ok(_) => r matches FundingStep::Prepared(acceptance) && {
                        &&& final(kv_store)@ == run.0
                        &&& acceptance@ == prepared
                        &&& stored_record(final(kv_store)@, prepared.temporary_channel_id) == Some(
                            prepared,
                        )
                        &&& artifacts_staged(final(kv_store)@, prepared)
                    },
                    Err(failure) => {
                        &&& refuses(r, run.0, prepared, final(kv_store)@)
                        &&& r matches FundingStep::Discard(refusal) ==> refusal.error().reports(
                            failure,
                        )
                    },
                }
            }),
    {
        proof {
            namespaces_differ();
        }
        let mut record: PendingFundingAcceptance = self.record;
        record.stage = FundingAcceptanceStage::Prepared;
        record.consignment = Some(consignment);
        record.rgb_info = Some(rgb_info);
        assert(record@ == prepared_record(self@, consignment@, rgb_info@));
        match write_step(&record, kv_store, PREPARED_FUNDING) {
            Ok(_) => {},
            Err(e) => return refuse_record(record, e, kv_store),
        }
        match persist_prepared_funding_artifacts(&record, kv_store) {
            Ok(_) => FundingStep::Prepared(PreparedFundingAcceptance { record }),
            Err(e) => refuse_record(record, e, kv_store),
        }
    }
}

/// The words for a promoted funding that could not be written down.
pub const PROMOTED_FUNDING: &'static str = "Failed to persist promoted RGB funding";

/// The words for a retry after a promotion that could not be written down.
pub const RETRY_AFTER_PROMOTION: &'static str =
    "Failed to persist RGB funding retry after promotion rollback";

/// A promotion that is undone. The wallet has yet to restore what it had before.
#[derive(Debug)]
pub struct UndonePromotion {
    record: PendingFundingAcceptance,
    reason: ChannelError,
}

/// What to do next about a funding that the wallet has promoted.
#[derive(Debug)]
pub enum PromotionStep {
    /// Nothing: it is promoted, and durable. The temporary channel ID is given back.
    Promoted(String),
    /// Have the wallet restore what it had before.
    Undo(UndonePromotion),
}

/// Writes down that a funding is promoted.
pub open spec fn persist_promoted(store: StoreView, record: RecordView) -> (
    StoreView,
    Result<(), FailureView>,
) {
    as_step(
        PROMOTED_FUNDING@,
        write_record(store, at_stage(record, FundingAcceptanceStage::Promoted)),
    )
}

impl PreparedFundingAcceptance {
    /// Takes that the wallet could not promote the prepared stock, and why. Nothing is written.
    pub fn promotion_failed(self, error: RgbError) -> (r: ChannelError)
        ensures
            r.reason() == acceptance_reason(error),
    {
        funding_acceptance_error(&error)
    }

    /// Takes that the wallet has promoted the prepared stock, with its rollback snapshot retained.
    pub fn promoted<K: KVStoreSync>(self, kv_store: &mut K) -> (r: PromotionStep)
        ensures
            ({
                let promoted = at_stage(self@, FundingAcceptanceStage::Promoted);
                let run = persist_promoted(old(kv_store)@, self@);
                &&& final(kv_store)@ == run.0
                &&& match r {
                    PromotionStep::Promoted(id) => {
                        &&& run.1 is Ok
                        &&& id@ == self@.temporary_channel_id
                        &&& stored_record(final(kv_store)@, id@) == Some(promoted)
                    },
                    PromotionStep::Undo(undone) => {
                        &&& undone.promoted_record() == promoted
                        &&& run.1 matches Err(failure) && undone.error().reports(failure)
                    },
                }
            }),
    {
        let mut record: PendingFundingAcceptance = self.record;
        set_stage(&mut record, FundingAcceptanceStage::Promoted);
        match write_step(&record, kv_store, PROMOTED_FUNDING) {
            Ok(_) => PromotionStep::Promoted(record.temporary_channel_id),
            Err(reason) => PromotionStep::Undo(UndonePromotion { record, reason }),
        }
    }

    /// Begins to discard a prepared acceptance: writes down that the funding must be retried,
    /// before the wallet discards anything.
    ///
    /// Once it has succeeded, the journal says so.
    pub fn abort<K: KVStoreSync>(self, kv_store: &mut K) -> (r: Result<
        AbortedFunding,
        ChannelError,
    >)
        ensures
            ({
                let run = decide_retry(old(kv_store)@, self@);
                &&& final(kv_store)@ == run.0
                &&& match r {
                    Ok(aborted) => {
                        &&& run.1 is Ok
                        &&& aborted@ == retry_record(self@)
                        &&& stored_record(final(kv_store)@, self@.temporary_channel_id) == Some(
                            retry_record(self@),
                        )
                    },
                    Err(e) => run.1 matches Err(failure) && e.reports(failure),
                }
            }),
    {
        let mut record: PendingFundingAcceptance = self.record;
        match persist_retry_required(&mut record, kv_store, RETRY_DECISION) {
            Ok(_) => Ok(AbortedFunding { record }),
            Err(e) => Err(e),
        }
    }
}

/// Writes down that a funding must be retried.
pub open spec fn decide_retry(store: StoreView, record: RecordView) -> (
    StoreView,
    Result<(), FailureView>,
) {
    as_step(RETRY_DECISION@, write_record(store, retry_record(record)))
}

/// A prepared funding that must be retried, as the journal says. The wallet has yet to discard what
/// it has prepared.
#[derive(Debug)]
pub struct AbortedFunding {
    record: PendingFundingAcceptance,
}

impl View for AbortedFunding {
    type V = RecordView;

    closed spec fn view(&self) -> RecordView {
        self.record@
    }
}

impl AbortedFunding {
    /// Takes what came of discarding what the wallet has prepared. Where it has done it, all that
    /// was staged is removed. The journal keeps asking for a retry.
    pub fn wallet_discarded<K: KVStoreSync>(
        self,
        reply: Result<(), RgbError>,
        kv_store: &mut K,
    ) -> (r: Result<(), ChannelError>)
        ensures
            match reply {
                Err(error) => final(kv_store)@ == old(kv_store)@ && (r matches Err(e) && e.reason()
                    == acceptance_reason(error)),
                Ok(_) => {
                    let run = clear_artifacts(old(kv_store)@, self@);
                    final(kv_store)@ == run.0 && answers(r, run.1)
                },
            },
            stored_record(final(kv_store)@, self@.temporary_channel_id) == stored_record(
                old(kv_store)@,
                self@.temporary_channel_id,
            ),
    {
        proof {
            namespaces_differ();
            clearing_removes_all_that_was_staged(kv_store@, self@);
            let key = journal_key(self@.temporary_channel_id);
            assert(!is_staged_place(key, self@));
            assert(clear_artifacts(kv_store@, self@).0.entries.contains_key(key)
                == kv_store@.entries.contains_key(key));
        }
        match reply {
            Ok(_) => clear_prepared_funding_artifacts(&self.record, kv_store),
            Err(error) => Err(funding_acceptance_error(&error)),
        }
    }
}

impl UndonePromotion {
    /// The record of the promotion.
    pub closed spec fn promoted_record(self) -> RecordView {
        self.record@
    }

    /// Why the promotion is undone.
    pub closed spec fn error(self) -> ChannelError {
        self.reason
    }

    /// Takes what came of restoring what the wallet had before. The error is the reason for undoing
    /// the promotion, unless that itself fails.
    pub fn wallet_restored<K: KVStoreSync>(
        self,
        reply: Result<(), RgbError>,
        kv_store: &mut K,
    ) -> (r: ChannelError)
        ensures
            match reply {
                Err(error) => final(kv_store)@ == old(kv_store)@ && r.reason() == acceptance_reason(
                    error,
                ),
                Ok(_) => {
                    let record = self.promoted_record();
                    let run = complete_rollback(
                        old(kv_store)@,
                        record,
                        RETRY_AFTER_PROMOTION@,
                    );
                    &&& final(kv_store)@ == run.0
                    &&& match run.1 {
                        Ok(_) => r == self.error() && stored_record(
                            final(kv_store)@,
                            record.temporary_channel_id,
                        ) == Some(retry_record(record)),
                        Err(failure) => r.reports(failure),
                    }
                },
            },
    {
        match reply {
            Ok(_) => match finish_rollback(self.record, RETRY_AFTER_PROMOTION, kv_store) {
                Ok(_) => self.reason,
                Err(e) => e,
            },
            Err(error) => funding_acceptance_error(&error),
        }
    }
}

/// The channel error for a wallet worker that ended before it was done, with the words of the
/// runtime.
pub fn wallet_worker_error(words: &str) -> (r: ChannelError)
    ensures
        r.reason() == "RGB wallet worker failed before completion: "@ + words@,
{
    ChannelError::close(join("RGB wallet worker failed before completion: ", words))
}

/// The details of a wallet error for a funding worker that ended before it was done, with the words
/// of the runtime.
pub fn funding_worker_details(words: &str) -> (r: String)
    ensures
        r@ == "RGB funding worker failed before completion: "@ + words@,
{
    join("RGB funding worker failed before completion: ", words)
}

} // verus!
