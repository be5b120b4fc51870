//! What holds of every inbound funding: which channel info it gives, what each step writes down,
//! and what is staged and removed.

use vstd::prelude::*;
#[allow(unused_imports)]
use crate::errors::{ChannelError, ErrorView, FailureView};
#[allow(unused_imports)]
use crate::funding::{
    answers, artifacts_staged, as_step, at_stage, clear_artifacts, complete_rollback, decide_retry,
    decide_rollback, decide_stored_rollback, examined, final_channel_id, final_id_of, intent,
    persist_prepared, persist_promoted, prepared_record, refuses, retry_record, stage_artifacts,
    txid_of, Assignment, FundingStep, PreparedTransfer,
};
#[allow(unused_imports)]
use crate::info::{encode_info, AssetSchema, RgbInfoView};
#[allow(unused_imports)]
use crate::journal::{
    encode_record, journal_key, stored_record, FundingAcceptanceStage, RecordView,
};
#[allow(unused_imports)]
use crate::outside::txid_refusal;
#[allow(unused_imports)]
use crate::records::{consignment_key, info_key, stored_info};
#[allow(unused_imports)]
use crate::recovery::clearing;
#[allow(unused_imports)]
use crate::store::{namespaces_differ, EntryKey, StoreView};
#[allow(unused_imports)]
use crate::text::{decimal, hex, hex_value, is_fixed_hex};

verus! {

/// A transfer is accepted if and only if its consignment could be serialized, it has one
/// assignment, no more is pushed than was received, and its schema is supported. The channel info
/// is then of the contract and of the schema that the wallet reports, what was pushed is on the
/// local side, what is left of the amount received on the remote one, no batch transfer has begun,
/// and the counterparty is not known to know the asset.
pub proof fn accepted_funding_gives_the_info_of_its_transfer(
    transfer: PreparedTransfer,
    push_asset_amount: Option<u64>,
)
    ensures
        ({
            let push: u64 = match push_asset_amount {
                Some(amount) => amount,
                None => 0,
            };
            let received: u64 = match transfer.assignments@[0] {
                Assignment::Fungible(amount) => amount,
                _ => 1,
            };
            &&& examined(transfer, push_asset_amount) is Ok <==> {
                &&& transfer.consignment is Ok
                &&& transfer.assignments@.len() == 1
                &&& push <= received
                &&& transfer.schema is Ok
            }
            &&& examined(transfer, push_asset_amount) matches Ok(info) ==> {
                &&& transfer.schema == Ok::<AssetSchema, String>(info.schema)
                &&& info.contract_id == transfer.contract_id.0@
                &&& info.local_rgb_amount == push
                &&& info.local_rgb_amount + info.remote_rgb_amount == received
                &&& info.batch_transfer_idx is None
                &&& !info.counterparty_knows_asset
            }
        }),
{
}

/// A transfer is refused for the first thing that is wrong with it, in these words.
pub proof fn refused_funding_says_what_is_wrong(
    transfer: PreparedTransfer,
    push_asset_amount: Option<u64>,
    reason: Seq<char>,
)
    requires
        examined(transfer, push_asset_amount) == Err::<RgbInfoView, Seq<char>>(reason),
    ensures
        ({
            let push: u64 = match push_asset_amount {
                Some(amount) => amount,
                None => 0,
            };
            let received: u64 = match transfer.assignments@[0] {
                Assignment::Fungible(amount) => amount,
                _ => 1,
            };
            &&& transfer.consignment matches Err(words) ==> reason
                == "Failed to serialize RGB consignment: "@ + words@
            &&& transfer.consignment is Ok ==> {
                &&& transfer.assignments@.len() != 1 ==> reason
                    == "Unexpected number of RGB assignments: "@ + decimal(
                    transfer.assignments@.len(),
                )
                &&& transfer.assignments@.len() == 1 ==> {
                    &&& push > received ==> reason == "RGB push amount "@ + decimal(push as nat)
                        + " exceeds received channel amount "@ + decimal(received as nat)
                    &&& push <= received ==> (transfer.schema matches Err(words) && reason
                        == "Unsupported RGB funding schema: "@ + words@)
                }
            }
        }),
{
}

/// A transfer can be held unless a single assignment funds the channel and it is neither an amount
/// nor a unique token.
pub proof fn only_amounts_and_tokens_can_be_held(transfer: PreparedTransfer)
    ensures
        transfer.holdable() <==> !(transfer.consignment is Ok && transfer.assignments@.len() == 1
            && transfer.assignments@[0] == Assignment::Other),
        transfer.assignments@[0] matches Assignment::Fungible(amount) ==> transfer.channel_amount()
            == amount,
        transfer.assignments@[0] == Assignment::NonFungible ==> transfer.channel_amount() == 1,
{
}

/// A funding begins with a record of what the handshake gave: the IDs in hexadecimal digits, and
/// the rest as it is. It is being validated, and has neither consignment nor channel info yet.
pub proof fn funding_begins_with_what_the_handshake_gave(
    temporary_channel_id: Seq<u8>,
    counterparty_node_id: Seq<u8>,
    funding_txid: Seq<char>,
    funding_output_index: u16,
    push_asset_amount: Option<u64>,
)
    ensures
        ({
            let record = intent(
                temporary_channel_id,
                counterparty_node_id,
                funding_txid,
                funding_output_index,
                push_asset_amount,
            );
            &&& record.version == 3
            &&& record.temporary_channel_id == hex(temporary_channel_id)
            &&& record.counterparty_node_id == hex(counterparty_node_id)
            &&& record.funding_txid == funding_txid
            &&& record.funding_output_index == funding_output_index
            &&& record.push_asset_amount == push_asset_amount
            &&& record.stage == FundingAcceptanceStage::Validating
            &&& record.consignment is None
            &&& record.rgb_info is None
        }),
{
}

/// A record keeps what identifies the funding through all stages. Preparing it adds the consignment
/// and the channel info, asking for a retry drops both, and any other change of stage keeps them.
pub proof fn stages_keep_the_identity(
    record: RecordView,
    stage: FundingAcceptanceStage,
    consignment: Seq<u8>,
    info: RgbInfoView,
)
    ensures
        ({
            let moved = at_stage(record, stage);
            let prepared = prepared_record(record, consignment, info);
            let retry = retry_record(record);
            &&& moved == (RecordView { stage, ..record })
            &&& prepared == (RecordView {
                stage: FundingAcceptanceStage::Prepared,
                consignment: Some(consignment),
                rgb_info: Some(info),
                ..record
            })
            &&& retry == (RecordView {
                stage: FundingAcceptanceStage::RetryRequired,
                consignment: None,
                rgb_info: None,
                ..record
            })
        }),
{
}

/// A step that writes one entry, or removes one, succeeds exactly if the store does, and reports
/// its failure as what was being done and the words of the store.
pub proof fn step_reports_the_failure_of_the_store(
    context: Seq<char>,
    run: (StoreView, Result<(), ErrorView>),
)
    ensures
        as_step(context, run).0 == run.0,
        as_step(context, run).1 is Ok <==> run.1 is Ok,
        run.1 matches Err(e) ==> (e.message matches Some(words) ==> as_step(context, run).1 == Err::<
            (),
            FailureView,
        >(FailureView::Text(context + ": "@ + words))),
        run.1 matches Err(e) ==> (e.message is None ==> as_step(context, run).1 == Err::<
            (),
            FailureView,
        >(FailureView::Prefixed(context + ": "@))),
{
}

/// An answer agrees with what is expected in success and failure, and in the words of a failure.
pub proof fn answer_says_what_is_expected(
    r: Result<(), ChannelError>,
    expected: Result<(), FailureView>,
)
    requires
        answers(r, expected),
    ensures
        r is Ok <==> expected is Ok,
        r matches Err(e) ==> (expected matches Err(FailureView::Text(text)) ==> e.reason() == text),
        r matches Err(e) ==> (expected matches Err(FailureView::Prefixed(text))
            ==> text.is_prefix_of(e.reason())),
{
}

/// A prepared funding is written down first, then its channel info is staged, pending and current,
/// then its consignment, under the funding transaction and under the temporary channel. It succeeds
/// if and only if the record may stand in the journal, carries both, and none of the five writes
/// fails. Once the record is written, the journal holds it, whatever fails later.
pub proof fn prepared_funding_is_written_down_and_staged(store: StoreView, record: RecordView)
    ensures
        ({
            let (after, result) = persist_prepared(store, record);
            let id = record.temporary_channel_id;
            &&& result is Ok <==> {
                &&& record.valid()
                &&& record.consignment is Some
                &&& record.rgb_info is Some
                &&& (store.outcomes)(store.calls).fault is None
                &&& (store.outcomes)(store.calls + 1).fault is None
                &&& (store.outcomes)(store.calls + 2).fault is None
                &&& (store.outcomes)(store.calls + 3).fault is None
                &&& (store.outcomes)(store.calls + 4).fault is None
            }
            &&& result is Ok ==> after.entries == store.entries.insert(
                journal_key(id),
                encode_record(record),
            ).insert(info_key(id, true), encode_info(record.rgb_info.unwrap())).insert(
                info_key(id, false),
                encode_info(record.rgb_info.unwrap()),
            ).insert(consignment_key(record.funding_txid), record.consignment.unwrap()).insert(
                consignment_key(id),
                record.consignment.unwrap(),
            )
            &&& record.valid() && (store.outcomes)(store.calls).fault is None
                ==> after.entries.contains_key(journal_key(id)) && after.entries[journal_key(id)]
                == encode_record(record)
            &&& !record.valid() ==> after == store
        }),
{
    namespaces_differ();
}

/// Staging a record that lacks its consignment or its channel info says which, and changes nothing.
pub proof fn staging_needs_consignment_and_info(store: StoreView, record: RecordView)
    ensures
        record.consignment is None ==> stage_artifacts(store, record) == (
            store,
            Err::<(), FailureView>(
                FailureView::Text("Prepared RGB funding is missing its consignment"@),
            ),
        ),
        record.consignment is Some && record.rgb_info is None ==> stage_artifacts(store, record)
            == (
            store,
            Err::<(), FailureView>(
                FailureView::Text("Prepared RGB funding is missing channel metadata"@),
            ),
        ),
{
}

/// A decision about a funding writes its record down at the stage that was decided for, keeps all
/// else of it, and succeeds if and only if the record may stand in the journal and the write does
/// not fail. A retry drops the consignment and the channel info.
pub proof fn decisions_are_written_down(store: StoreView, record: RecordView)
    ensures
        ({
            let key = journal_key(record.temporary_channel_id);
            let writable = record.valid() && (store.outcomes)(store.calls).fault is None;
            let (rolling, decided) = decide_rollback(store, record);
            let (promoted, done) = persist_promoted(store, record);
            let (asked, retried) = decide_retry(store, record);
            &&& decided is Ok <==> writable
            &&& done is Ok <==> writable
            &&& retried is Ok <==> writable
            &&& decided is Ok ==> rolling.entries == store.entries.insert(
                key,
                encode_record(
                    RecordView { stage: FundingAcceptanceStage::RollingBack, ..record },
                ),
            )
            &&& done is Ok ==> promoted.entries == store.entries.insert(
                key,
                encode_record(RecordView { stage: FundingAcceptanceStage::Promoted, ..record }),
            )
            &&& retried is Ok ==> asked.entries == store.entries.insert(
                key,
                encode_record(
                    RecordView {
                        stage: FundingAcceptanceStage::RetryRequired,
                        consignment: None,
                        rgb_info: None,
                        ..record
                    },
                ),
            )
        }),
{
}

/// A rollback of a funding in the journal takes the record that stands there, and writes it down as
/// being rolled back. Without a record in order nothing is written.
pub proof fn rollback_takes_the_record_of_the_journal(
    store: StoreView,
    temporary_channel_id: Seq<char>,
)
    ensures
        ({
            let (after, result) = decide_stored_rollback(store, temporary_channel_id);
            match stored_record(store, temporary_channel_id) {
                Some(record) => if (store.outcomes)(store.calls).fault is None {
                    let rolling = RecordView {
                        stage: FundingAcceptanceStage::RollingBack,
                        ..record
                    };
                    &&& result is Ok <==> (store.outcomes)(store.calls + 1).fault is None
                    &&& result is Ok ==> {
                        &&& result == Ok::<RecordView, FailureView>(rolling)
                        &&& after.entries == store.entries.insert(
                            journal_key(temporary_channel_id),
                            encode_record(rolling),
                        )
                    }
                } else {
                    result is Err && after.entries == store.entries
                },
                None => result is Err && after.entries == store.entries,
            }
        }),
{
}

/// The final ID of a channel is the bytes of its funding transaction ID, but for the last two,
/// into which the two bytes of the output index are mixed, high byte first. Mixing them in twice
/// restores the bytes.
pub proof fn final_id_mixes_the_output_into_the_transaction(txid: Seq<u8>, index: u16, i: int)
    requires
        txid.len() == 32,
        0 <= i < 32,
    ensures
        final_channel_id(txid, index).len() == 32,
        i < 30 ==> final_channel_id(txid, index)[i] == txid[i],
        final_channel_id(txid, index)[30] == txid[30] ^ ((index >> 8) as u8),
        final_channel_id(txid, index)[31] == txid[31] ^ ((index & 0xff) as u8),
        final_channel_id(final_channel_id(txid, index), index) == txid,
{
    let a = txid[30];
    let b = (index >> 8) as u8;
    let c = txid[31];
    let d = (index & 0xff) as u8;
    assert((a ^ b) ^ b == a) by (bit_vector);
    assert((c ^ d) ^ d == c) by (bit_vector);
    assert(final_channel_id(final_channel_id(txid, index), index) =~= txid);
}

/// A transaction ID is shown last byte first, two digits for each byte, and the final channel ID of
/// a record is made from the bytes that its text shows.
pub proof fn transaction_id_is_shown_backwards(record: RecordView, i: int)
    requires
        is_fixed_hex(record.funding_txid, 32),
        0 <= i < 32,
    ensures
        txid_of(record.funding_txid).len() == 32,
        txid_of(record.funding_txid)[i] == 16 * hex_value(record.funding_txid[62 - 2 * i])
            + hex_value(record.funding_txid[63 - 2 * i]),
        final_id_of(record) == hex(
            final_channel_id(txid_of(record.funding_txid), record.funding_output_index),
        ),
{
    let high = record.funding_txid[62 - 2 * i];
    let low = record.funding_txid[63 - 2 * i];
    assert(crate::text::is_hex_digit(high));
    assert(crate::text::is_hex_digit(low));
    assert(0 <= hex_value(high) < 16);
    assert(0 <= hex_value(low) < 16);
}

/// Clearing a funding removes its channel info, pending and current, under the temporary and under
/// the final ID, and its consignment under both and under the funding transaction. It removes
/// nothing else, and where no call fails it succeeds if and only if the transaction ID parses.
pub proof fn cleared_funding_is_gone_from_all_its_places(
    store: StoreView,
    record: RecordView,
    key: EntryKey,
)
    ensures
        ({
            let (after, result) = clear_artifacts(store, record);
            let id = record.temporary_channel_id;
            let final_id = hex(
                final_channel_id(txid_of(record.funding_txid), record.funding_output_index),
            );
            let staged = {
                ||| key == info_key(id, true)
                ||| key == info_key(final_id, true)
                ||| key == info_key(id, false)
                ||| key == info_key(final_id, false)
                ||| key == consignment_key(record.funding_txid)
                ||| key == consignment_key(id)
                ||| key == consignment_key(final_id)
            };
            &&& result is Ok && staged ==> !after.entries.contains_key(key)
            &&& !staged ==> after.entries.contains_key(key) == store.entries.contains_key(key)
                && after.entries[key] == store.entries[key]
            &&& store.calm() ==> (result is Ok <==> is_fixed_hex(record.funding_txid, 32))
            &&& is_fixed_hex(record.funding_txid, 32) ==> (result is Ok <==> {
                &&& (store.outcomes)(store.calls).fault is None
                &&& (store.outcomes)(store.calls + 1).fault is None
                &&& (store.outcomes)(store.calls + 2).fault is None
                &&& (store.outcomes)(store.calls + 3).fault is None
                &&& (store.outcomes)(store.calls + 4).fault is None
                &&& (store.outcomes)(store.calls + 5).fault is None
                &&& (store.outcomes)(store.calls + 6).fault is None
            })
            &&& !is_fixed_hex(record.funding_txid, 32) ==> after == store && result == Err::<
                (),
                FailureView,
            >(
                FailureView::Text(
                    "Invalid funding transaction ID in RGB journal: "@ + txid_refusal(
                        record.funding_txid,
                    ),
                ),
            )
        }),
{
    clearing(store, record);
}

/// A rollback that the wallet has done its part of, where no call fails, leaves nothing of what was
/// staged and a record that asks for a retry; all other entries stay as they were. The retry is
/// written only once everything staged is gone.
pub proof fn finished_rollback_asks_for_a_retry(
    store: StoreView,
    record: RecordView,
    context: Seq<char>,
    key: EntryKey,
)
    ensures
        ({
            let (after, result) = complete_rollback(store, record, context);
            let id = record.temporary_channel_id;
            let final_id = hex(
                final_channel_id(txid_of(record.funding_txid), record.funding_output_index),
            );
            let staged = {
                ||| key == info_key(id, true)
                ||| key == info_key(final_id, true)
                ||| key == info_key(id, false)
                ||| key == info_key(final_id, false)
                ||| key == consignment_key(record.funding_txid)
                ||| key == consignment_key(id)
                ||| key == consignment_key(final_id)
            };
            let retry = RecordView {
                stage: FundingAcceptanceStage::RetryRequired,
                consignment: None,
                rgb_info: None,
                ..record
            };
            &&& store.calm() && record.valid() ==> result is Ok
            &&& result is Ok ==> {
                &&& after.entries.contains_key(journal_key(id))
                &&& after.entries[journal_key(id)] == encode_record(retry)
                &&& staged ==> !after.entries.contains_key(key)
            }
            &&& !staged && key != journal_key(id) ==> after.entries.contains_key(key)
                == store.entries.contains_key(key) && after.entries[key] == store.entries[key]
            &&& clear_artifacts(store, record).1 is Err ==> result is Err && after
                == clear_artifacts(store, record).0
        }),
{
    namespaces_differ();
    clearing(store, record);
    let cleared = clear_artifacts(store, record).0;
    assert(store.calm() ==> cleared.next().fault is None);
}

/// The words with which each step of a funding reports that the store has failed.
pub proof fn words_of_the_funding_steps()
    ensures
        crate::funding::FUNDING_INTENT@ == "Failed to persist RGB funding intent"@,
        crate::funding::PREPARED_FUNDING@ == "Failed to persist prepared RGB funding"@,
        crate::funding::REJECTED_FUNDING@ == "Failed to persist rejected RGB funding validation"@,
        crate::funding::PROMOTED_FUNDING@ == "Failed to persist promoted RGB funding"@,
        crate::funding::ROLLBACK_DECISION@ == "Failed to persist RGB rollback decision"@,
        crate::funding::RETRY_DECISION@ == "Failed to persist RGB retry decision"@,
        crate::funding::RETRY_AFTER_PROMOTION@
            == "Failed to persist RGB funding retry after promotion rollback"@,
        crate::funding::LOAD_ROLLBACK@ == "Failed to load RGB funding rollback"@,
        crate::funding::REMOVE_STAGED@ == "Failed to remove staged RGB funding data"@,
        crate::funding::STAGE_INFO@ == "Failed to stage RGB channel metadata"@,
        crate::funding::STAGE_CONSIGNMENT@ == "Failed to stage RGB consignment"@,
{
}

/// Refusing a funding writes it down as being rolled back, before anything is discarded. Where that
/// succeeds the wallet is to discard what it has prepared; where it fails nothing more is done, and
/// the failure is reported. It never leads to a prepared funding.
pub proof fn refusal_is_written_down_first(
    step: FundingStep,
    store: StoreView,
    record: RecordView,
    after: StoreView,
)
    requires
        refuses(step, store, record, after),
    ensures
        ({
            let rolling = RecordView { stage: FundingAcceptanceStage::RollingBack, ..record };
            let writable = record.valid() && (store.outcomes)(store.calls).fault is None;
            match step {
                FundingStep::Prepared(_) => false,
                FundingStep::Discard(refusal) => {
                    &&& writable
                    &&& refusal.record() == rolling
                    &&& after.entries == store.entries.insert(
                        journal_key(record.temporary_channel_id),
                        encode_record(rolling),
                    )
                    &&& stored_record(after, record.temporary_channel_id) == Some(rolling)
                },
                FundingStep::Failed(e) => {
                    &&& !writable
                    &&& record.valid() ==> ((store.outcomes)(store.calls).fault matches Some(fault)
                        && e.reason() == "Failed to persist RGB rollback decision"@ + ": "@
                        + fault.message)
                },
            }
        }),
{
}

/// A funding is staged exactly if the store holds its channel info, pending and current, under the
/// temporary ID, and its consignment under that and under the funding transaction.
pub proof fn staged_funding_stands_in_four_places(store: StoreView, record: RecordView)
    ensures
        artifacts_staged(store, record) <==> {
            let id = record.temporary_channel_id;
            &&& stored_info(store, id, true) == record.rgb_info
            &&& stored_info(store, id, false) == record.rgb_info
            &&& store.entries.contains_key(consignment_key(record.funding_txid))
            &&& record.consignment == Some(store.entries[consignment_key(record.funding_txid)])
            &&& store.entries.contains_key(consignment_key(id))
            &&& record.consignment == Some(store.entries[consignment_key(id)])
        },
{
}

/// A decision that the store fails to write down is reported with its own words and those of the
/// store; a record that may not stand in the journal is reported as such.
pub proof fn decisions_report_in_their_own_words(
    store: StoreView,
    record: RecordView,
    words: Seq<char>,
)
    requires
        record.valid() ==> ((store.outcomes)(store.calls).fault matches Some(fault) && fault.message
            == words),
        !record.valid() ==> words == "invalid RGB funding acceptance journal"@,
    ensures
        decide_rollback(store, record).1 == Err::<(), FailureView>(
            FailureView::Text("Failed to persist RGB rollback decision"@ + ": "@ + words),
        ),
        persist_promoted(store, record).1 == Err::<(), FailureView>(
            FailureView::Text("Failed to persist promoted RGB funding"@ + ": "@ + words),
        ),
        decide_retry(store, record).1 == Err::<(), FailureView>(
            FailureView::Text("Failed to persist RGB retry decision"@ + ": "@ + words),
        ),
        persist_prepared(store, record).1 == Err::<(), FailureView>(
            FailureView::Text("Failed to persist prepared RGB funding"@ + ": "@ + words),
        ),
{
}

/// Staging writes four entries, in order, and stops at the first write that fails, which is
/// reported by what was being staged and in the words of the store. Where none fails, all four
/// stand.
pub proof fn staging_stops_at_the_first_failure(
    store: StoreView,
    record: RecordView,
    consignment: Seq<u8>,
    info: RgbInfoView,
)
    requires
        record.consignment == Some(consignment),
        record.rgb_info == Some(info),
    ensures
        ({
            let (after, result) = stage_artifacts(store, record);
            let id = record.temporary_channel_id;
            let data = encode_info(info);
            let first = store.entries.insert(info_key(id, true), data);
            let second = first.insert(info_key(id, false), data);
            let third = second.insert(consignment_key(record.funding_txid), consignment);
            let fourth = third.insert(consignment_key(id), consignment);
            let outcome = |k: nat| (store.outcomes)(store.calls + k).fault;
            match outcome(0) {
                Some(fault) => {
                    &&& result == Err::<(), FailureView>(
                        FailureView::Text(
                            "Failed to stage RGB channel metadata"@ + ": "@ + fault.message,
                        ),
                    )
                    &&& !fault.applied ==> after.entries == store.entries
                },
                None => match outcome(1) {
                    Some(fault) => {
                        &&& result == Err::<(), FailureView>(
                            FailureView::Text(
                                "Failed to stage RGB channel metadata"@ + ": "@ + fault.message,
                            ),
                        )
                        &&& !fault.applied ==> after.entries == first
                    },
                    None => match outcome(2) {
                        Some(fault) => {
                            &&& result == Err::<(), FailureView>(
                                FailureView::Text(
                                    "Failed to stage RGB consignment"@ + ": "@ + fault.message,
                                ),
                            )
                            &&& !fault.applied ==> after.entries == second
                        },
                        None => match outcome(3) {
                            Some(fault) => {
                                &&& result == Err::<(), FailureView>(
                                    FailureView::Text(
                                        "Failed to stage RGB consignment"@ + ": "@ + fault.message,
                                    ),
                                )
                                &&& !fault.applied ==> after.entries == third
                            },
                            None => result is Ok && after.entries == fourth,
                        },
                    },
                },
            }
        }),
{
}

/// Clearing and rolling back report a removal that fails in the words of the store, and a retry
/// that cannot be written down in the words given.
pub proof fn clearing_reports_the_first_failure(
    store: StoreView,
    record: RecordView,
    context: Seq<char>,
)
    requires
        is_fixed_hex(record.funding_txid, 32),
    ensures
        (store.outcomes)(store.calls).fault matches Some(fault) ==> {
            &&& clear_artifacts(store, record).1 == Err::<(), FailureView>(
                FailureView::Text(
                    "Failed to remove staged RGB funding data"@ + ": "@ + fault.message,
                ),
            )
            &&& complete_rollback(store, record, context).1 == Err::<(), FailureView>(
                FailureView::Text(
                    "Failed to remove staged RGB funding data"@ + ": "@ + fault.message,
                ),
            )
        },
        clear_artifacts(store, record).1 is Ok ==> ({
            let cleared = clear_artifacts(store, record).0;
            &&& cleared.calls == store.calls + 7
            &&& record.valid() ==> (complete_rollback(store, record, context).1 is Ok <==> (
            store.outcomes)(store.calls + 7).fault is None)
            &&& record.valid() ==> ((store.outcomes)(store.calls + 7).fault matches Some(fault)
                ==> complete_rollback(store, record, context).1 == Err::<(), FailureView>(
                FailureView::Text(context + ": "@ + fault.message),
            ))
        }),
{
}

} // verus!
