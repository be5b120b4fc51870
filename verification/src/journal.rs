//! The durable journal of inbound RGB channel fundings.

use vstd::prelude::*;
use crate::errors::{invalid_data_error, unknown_variant_error, Error};
#[allow(unused_imports)]
use crate::errors::{
    invalid_data, undecodable, unit_view, unknown_variant, ErrorKind, ErrorView,
};
use crate::info::RgbInfo;
#[allow(unused_imports)]
use crate::info::{info_from_fields, info_to_fields, RgbInfoView};
use crate::outside::{decode_record_fields, encode_record_fields, InfoFields, RecordFields};
#[allow(unused_imports)]
use crate::outside::{optional_bytes_view, record_decoding, record_encoding, RecordFieldsView};
use crate::store::{KVStoreSync, RGB_FUNDING_ACCEPTANCE_NS, RGB_PRIMARY_NS};
#[allow(unused_imports)]
use crate::store::{rgb_key, EntryKey, StoreView};
use crate::text::{check_fixed_hex, copy_bytes, same_text};
#[allow(unused_imports)]
use crate::text::is_fixed_hex;

verus! {

/// How many stages there are.
pub const STAGES: u64 = 7;

/// Durable phase of an inbound RGB channel funding acceptance.
#[derive(Clone, Copy, Debug, PartialEq, Eq, Structural)]
pub enum FundingAcceptanceStage {
    /// The RGB consignment is being fetched and validated outside the peer mutex.
    Validating,
    /// The validated RGB result is durable in an isolated staging stock.
    Prepared,
    /// The staged stock is live but retains an exact rollback snapshot.
    Promoted,
    /// A rollback decision was persisted before restoring the prior stock.
    RollingBack,
    /// The embedding node observed durable funded channel state and committed the RGB result.
    Finalized,
    /// Acceptance failed and the funding handshake must be retried from a fresh channel.
    RetryRequired,
    /// The embedding node persisted a commit decision and is applying it to the RGB stock.
    Finalizing,
}

impl FundingAcceptanceStage {
    /// The number under which the stage is kept.
    pub open spec fn spec_number(self) -> u32 {
        match self {
            FundingAcceptanceStage::Validating => 0,
            FundingAcceptanceStage::Prepared => 1,
            FundingAcceptanceStage::Promoted => 2,
            FundingAcceptanceStage::RollingBack => 3,
            FundingAcceptanceStage::Finalized => 4,
            FundingAcceptanceStage::RetryRequired => 5,
            FundingAcceptanceStage::Finalizing => 6,
        }
    }

    /// The stage kept under a number, if there is one.
    pub open spec fn spec_from_number(number: u32) -> Option<FundingAcceptanceStage> {
        if number == 0 {
            Some(FundingAcceptanceStage::Validating)
        } else if number == 1 {
            Some(FundingAcceptanceStage::Prepared)
        } else if number == 2 {
            Some(FundingAcceptanceStage::Promoted)
        } else if number == 3 {
            Some(FundingAcceptanceStage::RollingBack)
        } else if number == 4 {
            Some(FundingAcceptanceStage::Finalized)
        } else if number == 5 {
            Some(FundingAcceptanceStage::RetryRequired)
        } else if number == 6 {
            Some(FundingAcceptanceStage::Finalizing)
        } else {
            None
        }
    }

    fn number(self) -> (r: u32)
        ensures
            r == self.spec_number(),
    {
        match self {
            FundingAcceptanceStage::Validating => 0,
            FundingAcceptanceStage::Prepared => 1,
            FundingAcceptanceStage::Promoted => 2,
            FundingAcceptanceStage::RollingBack => 3,
            FundingAcceptanceStage::Finalized => 4,
            FundingAcceptanceStage::RetryRequired => 5,
            FundingAcceptanceStage::Finalizing => 6,
        }
    }

    fn from_number(number: u32) -> (r: Option<FundingAcceptanceStage>)
        ensures
            r == FundingAcceptanceStage::spec_from_number(number),
    {
        if number == 0 {
            Some(FundingAcceptanceStage::Validating)
        } else if number == 1 {
            Some(FundingAcceptanceStage::Prepared)
        } else if number == 2 {
            Some(FundingAcceptanceStage::Promoted)
        } else if number == 3 {
            Some(FundingAcceptanceStage::RollingBack)
        } else if number == 4 {
            Some(FundingAcceptanceStage::Finalized)
        } else if number == 5 {
            Some(FundingAcceptanceStage::RetryRequired)
        } else if number == 6 {
            Some(FundingAcceptanceStage::Finalizing)
        } else {
            None
        }
    }
}

/// Crash evidence for an inbound RGB funding operation.
///
/// The embedding node reconciles this record against durable channel state before deciding whether
/// to commit, roll back, or quarantine an ambiguous promoted funding attempt.
#[derive(Clone, Debug, PartialEq, Eq)]
pub struct PendingFundingAcceptance {
    /// Persistence schema version.
    pub version: u8,
    /// Temporary channel ID used as the durable record key.
    pub temporary_channel_id: String,
    /// Remote node participating in the funding handshake.
    pub counterparty_node_id: String,
    /// Proposed funding transaction ID.
    pub funding_txid: String,
    /// Funding output index in the proposed transaction.
    pub funding_output_index: u16,
    /// Asset amount pushed to the accepting node.
    pub push_asset_amount: Option<u64>,
    /// Current durable acceptance phase.
    pub stage: FundingAcceptanceStage,
    /// Validated transfer consignment, populated once preparation completes.
    pub consignment: Option<Vec<u8>>,
    /// Derived channel metadata, populated once preparation completes.
    pub rgb_info: Option<RgbInfo>,
}

/// What contracts say of a [`PendingFundingAcceptance`].
pub struct RecordView {
    pub version: u8,
    pub temporary_channel_id: Seq<char>,
    pub counterparty_node_id: Seq<char>,
    pub funding_txid: Seq<char>,
    pub funding_output_index: u16,
    pub push_asset_amount: Option<u64>,
    pub stage: FundingAcceptanceStage,
    pub consignment: Option<Seq<u8>>,
    pub rgb_info: Option<RgbInfoView>,
}

impl View for PendingFundingAcceptance {
    type V = RecordView;

    open spec fn view(&self) -> RecordView {
        RecordView {
            version: self.version,
            temporary_channel_id: self.temporary_channel_id@,
            counterparty_node_id: self.counterparty_node_id@,
            funding_txid: self.funding_txid@,
            funding_output_index: self.funding_output_index,
            push_asset_amount: self.push_asset_amount,
            stage: self.stage,
            consignment: optional_bytes_view(self.consignment),
            rgb_info: match self.rgb_info {
                Some(info) => Some(info@),
                None => None,
            },
        }
    }
}

/// The version of the journal's records.
pub const JOURNAL_VERSION: u8 = 3;

impl RecordView {
    /// Whether the record may stand in the journal.
    pub open spec fn valid(self) -> bool {
        &&& self.version == JOURNAL_VERSION
        &&& is_fixed_hex(self.temporary_channel_id, 32)
        &&& is_fixed_hex(self.counterparty_node_id, 33)
        &&& is_fixed_hex(self.funding_txid, 32)
    }
}

/// A record in plain values.
pub open spec fn record_to_fields(record: RecordView) -> RecordFieldsView {
    (
        record.version,
        record.temporary_channel_id,
        record.counterparty_node_id,
        record.funding_txid,
        record.funding_output_index,
        record.push_asset_amount,
        record.stage.spec_number(),
        record.consignment,
        match record.rgb_info {
            Some(info) => Some(info_to_fields(info)),
            None => None,
        },
    )
}

/// The record given by plain values: the stage must be known and the channel info be in order.
pub open spec fn record_from_fields(fields: RecordFieldsView) -> Option<RecordView> {
    match FundingAcceptanceStage::spec_from_number(fields.6) {
        None => None,
        Some(stage) => {
            let record = RecordView {
                version: fields.0,
                temporary_channel_id: fields.1,
                counterparty_node_id: fields.2,
                funding_txid: fields.3,
                funding_output_index: fields.4,
                push_asset_amount: fields.5,
                stage,
                consignment: fields.7,
                rgb_info: None,
            };
            match fields.8 {
                None => Some(record),
                Some(info_fields) => match info_from_fields(info_fields) {
                    None => None,
                    Some(info) => Some(RecordView { rgb_info: Some(info), ..record }),
                },
            }
        },
    }
}

/// The bytes under which a record is kept.
pub open spec fn encode_record(record: RecordView) -> Seq<u8> {
    record_encoding(record_to_fields(record))
}

/// The record that kept bytes hold, if they hold one.
pub open spec fn decode_record(bytes: Seq<u8>) -> Option<RecordView> {
    match record_decoding(bytes) {
        Some(fields) => record_from_fields(fields),
        None => None,
    }
}

/// The error for a record that may not stand in the journal.
pub open spec fn invalid_journal() -> ErrorView {
    invalid_data("invalid RGB funding acceptance journal"@)
}

/// The error for a record kept under a key other than its own.
pub open spec fn key_mismatch() -> ErrorView {
    invalid_data("RGB funding acceptance journal key mismatch"@)
}

/// Where the record of a temporary channel is kept.
pub open spec fn journal_key(temporary_channel_id: Seq<char>) -> EntryKey {
    rgb_key(RGB_FUNDING_ACCEPTANCE_NS@, temporary_channel_id)
}

/// What the bytes kept for a temporary channel are read as.
pub open spec fn journal_entry(bytes: Seq<u8>, temporary_channel_id: Seq<char>) -> Result<
    RecordView,
    ErrorView,
> {
    match decode_record(bytes) {
        None => Err(undecodable()),
        Some(record) => if !record.valid() {
            Err(invalid_journal())
        } else if record.temporary_channel_id != temporary_channel_id {
            Err(key_mismatch())
        } else {
            Ok(record)
        },
    }
}

/// The record that the store holds for a temporary channel, if it holds one in order.
pub open spec fn stored_record(store: StoreView, temporary_channel_id: Seq<char>) -> Option<
    RecordView,
> {
    let key = journal_key(temporary_channel_id);
    if store.entries.contains_key(key) {
        match journal_entry(store.entries[key], temporary_channel_id) {
            Ok(record) => Some(record),
            Err(_) => None,
        }
    } else {
        None
    }
}

/// Writes a record to the journal.
pub open spec fn write_record(store: StoreView, record: RecordView) -> (
    StoreView,
    Result<(), ErrorView>,
) {
    if record.valid() {
        store.write(journal_key(record.temporary_channel_id), encode_record(record))
    } else {
        (store, Err(invalid_journal()))
    }
}

/// Reads a record from the journal.
pub open spec fn read_record(store: StoreView, temporary_channel_id: Seq<char>) -> (
    StoreView,
    Result<RecordView, ErrorView>,
) {
    let (after, read) = store.read(journal_key(temporary_channel_id));
    (
        after,
        match read {
            Ok(bytes) => journal_entry(bytes, temporary_channel_id),
            Err(e) => Err(e),
        },
    )
}

/// The view of a result that carries a record on success.
pub open spec fn record_view(r: Result<PendingFundingAcceptance, Error>) -> Result<
    RecordView,
    ErrorView,
> {
    match r {
        Ok(record) => Ok(record@),
        Err(e) => Err(e@),
    }
}

impl PendingFundingAcceptance {
    /// Returns the stable persistence key.
    pub fn key(&self) -> (r: &str)
        ensures
            r@ == self@.temporary_channel_id,
    {
        self.temporary_channel_id.as_str()
    }

    /// Checks that the record may stand in the journal.
    pub fn validate(&self) -> (r: Result<(), Error>)
        ensures
            unit_view(r) == (if self@.valid() {
                Ok(())
            } else {
                Err(invalid_journal())
            }),
    {
        if self.version != JOURNAL_VERSION || !check_fixed_hex(
            self.temporary_channel_id.as_str(),
            32,
        ) || !check_fixed_hex(self.counterparty_node_id.as_str(), 33) || !check_fixed_hex(
            self.funding_txid.as_str(),
            32,
        ) {
            return Err(invalid_data_error("invalid RGB funding acceptance journal"));
        }
        Ok(())
    }

    /// The bytes under which the record is kept. They read back as the same record.
    pub fn to_bytes(&self) -> (r: Vec<u8>)
        ensures
            r@ == encode_record(self@),
            decode_record(r@) == Some(self@),
    {
        let consignment: Option<Vec<u8>> = match &self.consignment {
            Some(bytes) => Some(copy_bytes(bytes)),
            None => None,
        };
        let info: Option<InfoFields> = match &self.rgb_info {
            Some(info) => Some(info.to_fields()),
            None => None,
        };
        let fields: RecordFields = (
            self.version,
            self.temporary_channel_id.clone(),
            self.counterparty_node_id.clone(),
            self.funding_txid.clone(),
            self.funding_output_index,
            self.push_asset_amount,
            self.stage.number(),
            consignment,
            info,
        );
        encode_record_fields(&fields)
    }

    /// The record that kept bytes hold.
    pub fn from_bytes(bytes: &[u8]) -> (r: Result<PendingFundingAcceptance, Error>)
        ensures
            match r {
                Ok(record) => decode_record(bytes@) == Some(record@),
                Err(e) => {
                    &&& decode_record(bytes@) is None
                    &&& e@ == undecodable()
                    &&& record_decoding(bytes@) matches Some(fields)
                        ==> FundingAcceptanceStage::spec_from_number(fields.6) is None ==> e.words()
                        == unknown_variant(fields.6, STAGES)
                },
            },
    {
        let fields: RecordFields = match decode_record_fields(bytes) {
            Ok(fields) => fields,
            Err(message) => return Err(Error::Undecodable { message }),
        };
        let stage: FundingAcceptanceStage = match FundingAcceptanceStage::from_number(fields.6) {
            Some(stage) => stage,
            None => return Err(unknown_variant_error(fields.6, STAGES)),
        };
        let rgb_info: Option<RgbInfo> = match &fields.8 {
            Some(info_fields) => match RgbInfo::from_fields(info_fields) {
                Ok(info) => Some(info),
                Err(e) => return Err(e),
            },
            None => None,
        };
        Ok(
            PendingFundingAcceptance {
                version: fields.0,
                temporary_channel_id: fields.1,
                counterparty_node_id: fields.2,
                funding_txid: fields.3,
                funding_output_index: fields.4,
                push_asset_amount: fields.5,
                stage,
                consignment: fields.7,
                rgb_info,
            },
        )
    }

    /// The record that the bytes kept for a temporary channel hold, if it is in order.
    pub fn from_journal(bytes: &[u8], temporary_channel_id: &str) -> (r: Result<
        PendingFundingAcceptance,
        Error,
    >)
        ensures
            record_view(r) == journal_entry(bytes@, temporary_channel_id@),
    {
        let record: PendingFundingAcceptance = match PendingFundingAcceptance::from_bytes(bytes) {
            Ok(record) => record,
            Err(e) => return Err(e),
        };
        match record.validate() {
            Ok(_) => {},
            Err(e) => return Err(e),
        }
        if !same_text(record.key(), temporary_channel_id) {
            return Err(invalid_data_error("RGB funding acceptance journal key mismatch"));
        }
        Ok(record)
    }
}

/// Atomically writes the current funding acceptance record.
///
/// Once it has succeeded, the journal holds the record.
pub fn write_pending_funding_acceptance<K: KVStoreSync>(
    record: &PendingFundingAcceptance,
    kv_store: &mut K,
) -> (r: Result<(), Error>)
    ensures
        final(kv_store)@ == write_record(old(kv_store)@, record@).0,
        unit_view(r) == write_record(old(kv_store)@, record@).1,
        r is Ok ==> stored_record(final(kv_store)@, record@.temporary_channel_id) == Some(record@),
{
    match record.validate() {
        Ok(_) => {},
        Err(e) => return Err(e),
    }
    let data: Vec<u8> = record.to_bytes();
    kv_store.write(RGB_PRIMARY_NS, RGB_FUNDING_ACCEPTANCE_NS, record.key(), data)
}

/// Reads a funding acceptance record by temporary channel ID.
pub fn read_pending_funding_acceptance<K: KVStoreSync>(
    temporary_channel_id: &str,
    kv_store: &mut K,
) -> (r: Result<PendingFundingAcceptance, Error>)
    ensures
        final(kv_store)@ == read_record(old(kv_store)@, temporary_channel_id@).0,
        record_view(r) == read_record(old(kv_store)@, temporary_channel_id@).1,
{
    match kv_store.read(RGB_PRIMARY_NS, RGB_FUNDING_ACCEPTANCE_NS, temporary_channel_id) {
        Ok(data) => PendingFundingAcceptance::from_journal(data.as_slice(), temporary_channel_id),
        Err(e) => Err(e),
    }
}

/// Durably removes a completed funding acceptance record.
///
/// Once it has succeeded, the record is gone, and its removal has reached the disk.
pub fn remove_pending_funding_acceptance<K: KVStoreSync>(
    temporary_channel_id: &str,
    kv_store: &mut K,
) -> (r: Result<(), Error>)
    ensures
        final(kv_store)@ == old(kv_store)@.remove(journal_key(temporary_channel_id@), false).0,
        unit_view(r) == old(kv_store)@.remove(journal_key(temporary_channel_id@), false).1,
        r is Ok ==> {
            let key = journal_key(temporary_channel_id@);
            &&& !final(kv_store)@.entries.contains_key(key)
            &&& !final(kv_store)@.lazily_removed.contains(key)
        },
{
    kv_store.remove(RGB_PRIMARY_NS, RGB_FUNDING_ACCEPTANCE_NS, temporary_channel_id, false)
}

/// Reading gives back the record that the journal holds, whenever the read itself does not fail.
pub proof fn journal_read_gives_stored_record(store: StoreView, temporary_channel_id: Seq<char>)
    requires
        store.next().fault is None,
    ensures
        match stored_record(store, temporary_channel_id) {
            Some(record) => read_record(store, temporary_channel_id).1
                == Ok::<RecordView, ErrorView>(record),
            None => read_record(store, temporary_channel_id).1 is Err,
        },
        read_record(store, temporary_channel_id).0.entries == store.entries,
{
}

/// A removed record cannot be read: the read fails, whatever else the store does.
pub proof fn journal_removed_record_is_gone(store: StoreView, temporary_channel_id: Seq<char>)
    requires
        store.remove(journal_key(temporary_channel_id), false).1 is Ok,
    ensures
        read_record(
            store.remove(journal_key(temporary_channel_id), false).0,
            temporary_channel_id,
        ).1 is Err,
{
}

/// Writing or removing one record leaves every other entry of the store as it was.
pub proof fn journal_changes_one_entry(store: StoreView, record: RecordView, key: EntryKey)
    requires
        key != journal_key(record.temporary_channel_id),
    ensures
        write_record(store, record).0.entries.contains_key(key) == store.entries.contains_key(key),
        write_record(store, record).0.entries[key] == store.entries[key],
        store.remove(journal_key(record.temporary_channel_id), false).0.entries.contains_key(key)
            == store.entries.contains_key(key),
        store.remove(journal_key(record.temporary_channel_id), false).0.entries[key]
            == store.entries[key],
{
}

/// A record that may not stand in the journal never reaches the store.
pub proof fn journal_rejects_invalid_records(store: StoreView, record: RecordView)
    requires
        !record.valid(),
    ensures
        write_record(store, record) == (store, Err::<(), ErrorView>(invalid_journal())),
{
}

/// A record may stand in the journal exactly if it is of version three and its IDs are hexadecimal
/// digits of the right number: 64 for the channel and the transaction, 66 for the node.
pub proof fn valid_record_has_a_version_and_three_ids(record: RecordView)
    ensures
        record.valid() <==> {
            &&& record.version == 3
            &&& is_fixed_hex(record.temporary_channel_id, 32)
            &&& is_fixed_hex(record.counterparty_node_id, 33)
            &&& is_fixed_hex(record.funding_txid, 32)
        },
{
}

/// Each stage is kept under its own number, and no other number stands for a stage.
pub proof fn stages_have_their_numbers(stage: FundingAcceptanceStage, number: u32)
    ensures
        FundingAcceptanceStage::Validating.spec_number() == 0,
        FundingAcceptanceStage::Prepared.spec_number() == 1,
        FundingAcceptanceStage::Promoted.spec_number() == 2,
        FundingAcceptanceStage::RollingBack.spec_number() == 3,
        FundingAcceptanceStage::Finalized.spec_number() == 4,
        FundingAcceptanceStage::RetryRequired.spec_number() == 5,
        FundingAcceptanceStage::Finalizing.spec_number() == 6,
        FundingAcceptanceStage::spec_from_number(stage.spec_number()) == Some(stage),
        FundingAcceptanceStage::spec_from_number(number) is Some <==> number < 7,
        FundingAcceptanceStage::spec_from_number(number) matches Some(found) ==> found.spec_number()
            == number,
{
}

/// A record is kept as its nine values, in order, each in its own place.
pub proof fn record_keeps_each_value_in_its_place(record: RecordView, bytes: Seq<u8>)
    ensures
        encode_record(record) == record_encoding(
            (
                record.version,
                record.temporary_channel_id,
                record.counterparty_node_id,
                record.funding_txid,
                record.funding_output_index,
                record.push_asset_amount,
                record.stage.spec_number(),
                record.consignment,
                match record.rgb_info {
                    Some(info) => Some(info_to_fields(info)),
                    None => None,
                },
            ),
        ),
        decode_record(bytes) == Some(record) <==> (record_decoding(bytes) matches Some(fields) && {
            &&& fields.0 == record.version
            &&& fields.1 == record.temporary_channel_id
            &&& fields.2 == record.counterparty_node_id
            &&& fields.3 == record.funding_txid
            &&& fields.4 == record.funding_output_index
            &&& fields.5 == record.push_asset_amount
            &&& fields.6 == record.stage.spec_number()
            &&& fields.7 == record.consignment
            &&& match fields.8 {
                Some(info_fields) => record.rgb_info is Some && info_from_fields(info_fields)
                    == record.rgb_info,
                None => record.rgb_info is None,
            }
        }),
        decode_record(bytes) is None <==> (record_decoding(bytes) matches Some(fields)
            ==> fields.6 >= 7 || (fields.8 matches Some(info_fields) && info_from_fields(
            info_fields,
        ) is None)),
{
}

/// A record shows each of its values as it is.
pub proof fn record_shows_each_value(record: PendingFundingAcceptance)
    ensures
        record@.version == record.version,
        record@.temporary_channel_id == record.temporary_channel_id@,
        record@.counterparty_node_id == record.counterparty_node_id@,
        record@.funding_txid == record.funding_txid@,
        record@.funding_output_index == record.funding_output_index,
        record@.push_asset_amount == record.push_asset_amount,
        record@.stage == record.stage,
        record.consignment matches Some(bytes) ==> record@.consignment == Some(bytes@),
        record.consignment is None ==> record@.consignment is None,
        record.rgb_info matches Some(info) ==> record@.rgb_info == Some(info@),
        record.rgb_info is None ==> record@.rgb_info is None,
{
}

/// A record is read if and only if its bytes decode, it may stand in the journal, and it stands
/// under its own ID. Each other case has its own words, and all are invalid data.
pub proof fn journal_reads_a_record_under_its_own_id(
    store: StoreView,
    temporary_channel_id: Seq<char>,
)
    requires
        (store.outcomes)(store.calls).fault is None,
    ensures
        ({
            let key = EntryKey {
                primary: "rgb"@,
                secondary: "funding_acceptance"@,
                key: temporary_channel_id,
            };
            let (after, result) = read_record(store, temporary_channel_id);
            &&& after == store.called()
            &&& if !store.entries.contains_key(key) {
                &&& result matches Err(e) && e.kind == ErrorKind::NotFound
                &&& stored_record(store, temporary_channel_id) is None
            } else {
                match decode_record(store.entries[key]) {
                    None => result matches Err(e) && e.kind == ErrorKind::InvalidData
                        && e.message is None,
                    Some(record) => if !record.valid() {
                        result matches Err(e) && e.kind == ErrorKind::InvalidData && e.message
                            == Some("invalid RGB funding acceptance journal"@)
                    } else if record.temporary_channel_id != temporary_channel_id {
                        result matches Err(e) && e.kind == ErrorKind::InvalidData && e.message
                            == Some("RGB funding acceptance journal key mismatch"@)
                    } else {
                        &&& result == Ok::<RecordView, ErrorView>(record)
                        &&& stored_record(store, temporary_channel_id) == Some(record)
                    },
                }
            }
            &&& result is Err ==> stored_record(store, temporary_channel_id) is None
        }),
{
}

/// A record is written under its own ID if it may stand in the journal; the write succeeds unless
/// the store fails. A record that may not is refused before the store is called.
pub proof fn journal_writes_a_record_under_its_own_id(store: StoreView, record: RecordView)
    ensures
        ({
            let key = EntryKey {
                primary: "rgb"@,
                secondary: "funding_acceptance"@,
                key: record.temporary_channel_id,
            };
            let (after, result) = write_record(store, record);
            &&& journal_key(record.temporary_channel_id) == key
            &&& result is Ok <==> record.valid() && (store.outcomes)(store.calls).fault is None
            &&& result is Ok ==> after.entries == store.entries.insert(key, encode_record(record))
            &&& !record.valid() ==> after == store && (result matches Err(e) && e.kind
                == ErrorKind::InvalidData && e.message == Some(
                "invalid RGB funding acceptance journal"@,
            ))
            &&& record.valid() ==> ((store.outcomes)(store.calls).fault matches Some(fault) ==> (
            result matches Err(e) && e.kind == fault.kind && e.message == Some(fault.message)))
        }),
{
}

/// The view of a result shows the record and the error as they are.
pub proof fn record_result_shows_what_it_carries(r: Result<PendingFundingAcceptance, Error>)
    ensures
        r matches Ok(record) ==> record_view(r) == Ok::<RecordView, ErrorView>(record@),
        r matches Err(e) ==> record_view(r) == Err::<RecordView, ErrorView>(e@),
{
}

} // verus!
