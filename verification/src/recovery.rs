//! What recovery from a crash can rely on: how fundings, their rollbacks and the journal relate.

use vstd::prelude::*;
#[allow(unused_imports)]
use crate::funding::{
    and_clear, as_step, at_stage, clear_artifacts, complete_rollback, decide_retry, decide_rollback,
    examined, final_id_of, intent, persist_prepared, persist_promoted, prepared_record, pushed,
    retry_record, stage_artifacts, PreparedTransfer,
};
#[allow(unused_imports)]
use crate::errors::FailureView;
#[allow(unused_imports)]
use crate::info::RgbInfoView;
#[allow(unused_imports)]
use crate::journal::{
    encode_record, journal_key, write_record, FundingAcceptanceStage, RecordView,
};
#[allow(unused_imports)]
use crate::records::{consignment_key, info_key};
#[allow(unused_imports)]
use crate::rename::{move_channel, renaming_touches_only_the_channel};
#[allow(unused_imports)]
use crate::store::{namespaces_differ, EntryKey, StoreView};
#[allow(unused_imports)]
use crate::text::{hex, hex_digit, is_fixed_hex, is_hex_digit};

verus! {

/// Whether `key` is one of the places that a funding stages data at.
pub open spec fn is_staged_place(key: EntryKey, record: RecordView) -> bool {
    ||| key == info_key(record.temporary_channel_id, true)
    ||| key == info_key(final_id_of(record), true)
    ||| key == info_key(record.temporary_channel_id, false)
    ||| key == info_key(final_id_of(record), false)
    ||| key == consignment_key(record.funding_txid)
    ||| key == consignment_key(record.temporary_channel_id)
    ||| key == consignment_key(final_id_of(record))
}

/// The entries without all that a funding stages.
pub open spec fn without_staged(entries: Map<EntryKey, Seq<u8>>, record: RecordView) -> Map<
    EntryKey,
    Seq<u8>,
> {
    entries.remove(info_key(record.temporary_channel_id, true)).remove(
        info_key(final_id_of(record), true),
    ).remove(info_key(record.temporary_channel_id, false)).remove(
        info_key(final_id_of(record), false),
    ).remove(consignment_key(record.funding_txid)).remove(
        consignment_key(record.temporary_channel_id),
    ).remove(consignment_key(final_id_of(record)))
}

/// The entries after a funding has been rolled back: nothing staged, and the request for a retry in
/// the journal.
pub open spec fn rolled_back(entries: Map<EntryKey, Seq<u8>>, record: RecordView) -> Map<
    EntryKey,
    Seq<u8>,
> {
    without_staged(entries, record).insert(
        journal_key(record.temporary_channel_id),
        encode_record(retry_record(record)),
    )
}

/// Whether two stores agree on everything but what a funding stages and its place in the journal.
pub open spec fn agree_elsewhere(
    a: Map<EntryKey, Seq<u8>>,
    b: Map<EntryKey, Seq<u8>>,
    record: RecordView,
) -> bool {
    forall|key: EntryKey|
        !is_staged_place(key, record) && key != journal_key(record.temporary_channel_id) ==> {
            &&& #[trigger] a.contains_key(key) == b.contains_key(key)
            &&& a[key] == b[key]
        }
}

proof fn same_rolled_back(
    a: Map<EntryKey, Seq<u8>>,
    b: Map<EntryKey, Seq<u8>>,
    record: RecordView,
)
    requires
        agree_elsewhere(a, b, record),
    ensures
        rolled_back(a, record) == rolled_back(b, record),
{
    let left = rolled_back(a, record);
    let right = rolled_back(b, record);
    assert forall|key: EntryKey|
        left.contains_key(key) == right.contains_key(key) && (left.contains_key(key) ==> left[key]
            == right[key]) by {
        if !is_staged_place(key, record) && key != journal_key(record.temporary_channel_id) {
            assert(a.contains_key(key) == b.contains_key(key));
        }
    }
    assert(left =~= right);
}

/// However the store fails, clearing a funding leaves all but its places as they were. Where it
/// succeeds, its places are empty; and where no call fails and the transaction ID parses, it
/// succeeds.
pub proof fn clearing(store: StoreView, record: RecordView)
    ensures
        ({
            let (after, result) = clear_artifacts(store, record);
            &&& after.outcomes == store.outcomes
            &&& forall|key: EntryKey| !is_staged_place(key, record) ==> {
                &&& #[trigger] after.entries.contains_key(key) == store.entries.contains_key(key)
                &&& after.entries[key] == store.entries[key]
            }
            &&& result is Ok ==> after.entries == without_staged(store.entries, record)
            &&& store.calm() && is_fixed_hex(record.funding_txid, 32) ==> result is Ok
        }),
{
    if is_fixed_hex(record.funding_txid, 32) {
        let id = record.temporary_channel_id;
        let final_id = final_id_of(record);
        let s0 = (store, Ok::<(), FailureView>(()));
        let s1 = and_clear(s0, info_key(id, true));
        let s2 = and_clear(s1, info_key(final_id, true));
        let s3 = and_clear(s2, info_key(id, false));
        let s4 = and_clear(s3, info_key(final_id, false));
        let s5 = and_clear(s4, consignment_key(record.funding_txid));
        let s6 = and_clear(s5, consignment_key(id));
        let s7 = and_clear(s6, consignment_key(final_id));
        one_clearing(s0, info_key(id, true));
        one_clearing(s1, info_key(final_id, true));
        one_clearing(s2, info_key(id, false));
        one_clearing(s3, info_key(final_id, false));
        one_clearing(s4, consignment_key(record.funding_txid));
        one_clearing(s5, consignment_key(id));
        one_clearing(s6, consignment_key(final_id));
        assert(clear_artifacts(store, record) == s7);
    }
}

proof fn one_clearing(run: (StoreView, Result<(), FailureView>), place: EntryKey)
    ensures
        ({
            let (after, result) = and_clear(run, place);
            &&& after.outcomes == run.0.outcomes
            &&& forall|key: EntryKey| key != place ==> {
                &&& #[trigger] after.entries.contains_key(key) == run.0.entries.contains_key(key)
                &&& after.entries[key] == run.0.entries[key]
            }
            &&& result is Ok ==> run.1 is Ok && after.entries == run.0.entries.remove(place)
            &&& run.0.calm() && run.1 is Ok ==> result is Ok
        }),
{
    assert(run.0.calm() ==> run.0.next().fault is None);
    assert(!run.0.entries.contains_key(place) ==> run.0.entries.remove(place) =~= run.0.entries);
}

/// However the store fails, removing what a funding has staged removes nothing else. Where it
/// succeeds, nothing staged is left; and where no call fails, it succeeds.
pub proof fn clearing_removes_all_that_was_staged(store: StoreView, record: RecordView)
    ensures
        ({
            let (after, result) = clear_artifacts(store, record);
            &&& forall|key: EntryKey| !is_staged_place(key, record) ==> {
                &&& #[trigger] after.entries.contains_key(key) == store.entries.contains_key(key)
                &&& after.entries[key] == store.entries[key]
            }
            &&& result is Ok ==> forall|key: EntryKey|
                is_staged_place(key, record) ==> !#[trigger] after.entries.contains_key(key)
            &&& store.calm() && is_fixed_hex(record.funding_txid, 32) ==> result is Ok
        }),
{
    clearing(store, record);
}

/// Once the wallet has done its part of a rollback, and where no call fails, the rollback succeeds:
/// nothing staged is left, the journal asks for a retry, and no other entry has changed.
pub proof fn rollback_completes(store: StoreView, record: RecordView, context: Seq<char>)
    requires
        record.valid(),
        store.calm(),
    ensures
        complete_rollback(store, record, context).1 is Ok,
        complete_rollback(store, record, context).0.entries == rolled_back(store.entries, record),
{
    clearing(store, record);
    let cleared = clear_artifacts(store, record).0;
    assert(cleared.calm());
    assert(cleared.next().fault is None);
}

/// A rollback can be taken up again: wherever a failure of the store has stopped it, taking it up
/// leads to the same entries. Until it is done, the journal keeps the record as it was, unless it
/// asks for the retry already.
pub proof fn rollback_can_be_resumed(store: StoreView, record: RecordView, context: Seq<char>)
    ensures
        ({
            let after = complete_rollback(store, record, context).0.entries;
            let key = journal_key(record.temporary_channel_id);
            &&& rolled_back(after, record) == rolled_back(store.entries, record)
            &&& {
                ||| after.contains_key(key) == store.entries.contains_key(key) && after[key]
                    == store.entries[key]
                ||| after.contains_key(key) && after[key] == encode_record(retry_record(record))
            }
        }),
{
    namespaces_differ();
    clearing(store, record);
    same_rolled_back(complete_rollback(store, record, context).0.entries, store.entries, record);
}

proof fn staging(store: StoreView, record: RecordView)
    ensures
        ({
            let after = stage_artifacts(store, record).0;
            forall|key: EntryKey| !is_staged_place(key, record) ==> {
                &&& #[trigger] after.entries.contains_key(key) == store.entries.contains_key(key)
                &&& after.entries[key] == store.entries[key]
            }
        }),
{
}

/// A rollback undoes a preparation, a promotion and an abort: however far they got, and however
/// the store failed, rolling back leads to the entries that rolling back would have led to without
/// them.
pub proof fn rollback_undoes_preparation(store: StoreView, record: RecordView)
    ensures
        rolled_back(persist_prepared(store, record).0.entries, record) == rolled_back(
            store.entries,
            record,
        ),
        rolled_back(decide_rollback(store, record).0.entries, record) == rolled_back(
            store.entries,
            record,
        ),
        rolled_back(persist_promoted(store, record).0.entries, record) == rolled_back(
            store.entries,
            record,
        ),
        rolled_back(decide_retry(store, record).0.entries, record) == rolled_back(
            store.entries,
            record,
        ),
        rolled_back(clear_artifacts(store, record).0.entries, record) == rolled_back(
            store.entries,
            record,
        ),
{
    let written = as_step(
        crate::funding::PREPARED_FUNDING@,
        write_record(store, record),
    ).0;
    staging(written, record);
    same_rolled_back(persist_prepared(store, record).0.entries, store.entries, record);
    same_rolled_back(decide_rollback(store, record).0.entries, store.entries, record);
    same_rolled_back(persist_promoted(store, record).0.entries, store.entries, record);
    same_rolled_back(decide_retry(store, record).0.entries, store.entries, record);
    clearing(store, record);
    same_rolled_back(clear_artifacts(store, record).0.entries, store.entries, record);
}

/// A rollback also undoes a transition to the final channel ID: however far the transition got, and
/// however the store failed, rolling back leads to the same entries.
pub proof fn rollback_undoes_renaming(store: StoreView, record: RecordView)
    ensures
        rolled_back(
            move_channel(store, record.temporary_channel_id, final_id_of(record)).0.entries,
            record,
        ) == rolled_back(store.entries, record),
{
    let id = record.temporary_channel_id;
    let final_id = final_id_of(record);
    let after = move_channel(store, id, final_id).0.entries;
    assert forall|key: EntryKey|
        !is_staged_place(key, record) && key != journal_key(id) implies #[trigger] after.contains_key(
        key,
    ) == store.entries.contains_key(key) && after[key] == store.entries[key] by {
        renaming_touches_only_the_channel(store, id, final_id, key);
    }
    same_rolled_back(after, store.entries, record);
}

/// A prepared funding that is rolled back on a store that does not fail leaves exactly the entries
/// from before, with nothing staged, and the request for a retry.
pub proof fn refused_funding_leaves_only_the_journal(
    store: StoreView,
    record: RecordView,
    context: Seq<char>,
)
    requires
        record.valid(),
        store.calm(),
    ensures
        ({
            let prepared = persist_prepared(store, record).0;
            let (rolling, decided) = decide_rollback(prepared, record);
            let (after, result) = complete_rollback(
                rolling,
                at_stage(record, FundingAcceptanceStage::RollingBack),
                context,
            );
            &&& decided is Ok
            &&& result is Ok
            &&& after.entries == rolled_back(store.entries, record)
        }),
{
    let prepared = persist_prepared(store, record).0;
    assert(prepared.outcomes == store.outcomes);
    assert(prepared.next().fault is None);
    let rolling = decide_rollback(prepared, record).0;
    assert(rolling.outcomes == store.outcomes);
    assert(rolling.calm());
    let rolling_record = at_stage(record, FundingAcceptanceStage::RollingBack);
    rollback_completes(rolling, rolling_record, context);
    rollback_undoes_preparation(store, record);
    rollback_undoes_preparation(prepared, record);
    assert(rolled_back(rolling.entries, rolling_record) == rolled_back(rolling.entries, record));
}

/// A prepared funding that is aborted on a store that does not fail leaves exactly the entries
/// from before, with nothing staged, and the request for a retry, which is written before anything
/// staged is removed.
pub proof fn aborted_funding_leaves_only_the_journal(store: StoreView, record: RecordView)
    requires
        record.valid(),
        store.calm(),
    ensures
        ({
            let prepared = persist_prepared(store, record).0;
            let (asked, decided) = decide_retry(prepared, record);
            let (after, result) = clear_artifacts(asked, retry_record(record));
            let key = journal_key(record.temporary_channel_id);
            &&& decided is Ok
            &&& asked.entries == prepared.entries.insert(key, encode_record(retry_record(record)))
            &&& result is Ok
            &&& after.entries == rolled_back(store.entries, record)
        }),
{
    let prepared = persist_prepared(store, record).0;
    assert(prepared.outcomes == store.outcomes);
    assert(prepared.next().fault is None);
    let asked = decide_retry(prepared, record).0;
    assert(asked.outcomes == store.outcomes);
    assert(asked.calm());
    let retry = retry_record(record);
    clearing(asked, retry);
    rollback_undoes_preparation(store, record);
    rollback_undoes_preparation(prepared, record);
    namespaces_differ();
    let after = clear_artifacts(asked, retry).0;
    assert(without_staged(asked.entries, retry) == without_staged(asked.entries, record));
    assert(rolled_back(asked.entries, record) =~= after.entries);
}

/// A retry keeps the identity of the operation and the inputs of the handshake, and nothing that
/// grows with the asset's history.
pub proof fn retry_keeps_the_identity(record: RecordView)
    ensures
        ({
            let retry = retry_record(record);
            &&& retry.valid() == record.valid()
            &&& retry.temporary_channel_id == record.temporary_channel_id
            &&& retry.counterparty_node_id == record.counterparty_node_id
            &&& retry.funding_txid == record.funding_txid
            &&& retry.funding_output_index == record.funding_output_index
            &&& retry.push_asset_amount == record.push_asset_amount
            &&& retry.consignment is None
            &&& retry.rgb_info is None
        }),
{
}

/// A funding can be written down exactly if its transaction ID is 32 bytes in hexadecimal digits.
pub proof fn intent_needs_a_transaction_id(
    temporary_channel_id: Seq<u8>,
    counterparty_node_id: Seq<u8>,
    funding_txid: Seq<char>,
    funding_output_index: u16,
    push_asset_amount: Option<u64>,
)
    requires
        temporary_channel_id.len() == 32,
        counterparty_node_id.len() == 33,
    ensures
        intent(
            temporary_channel_id,
            counterparty_node_id,
            funding_txid,
            funding_output_index,
            push_asset_amount,
        ).valid() <==> is_fixed_hex(funding_txid, 32),
{
    hex_is_fixed_hex(temporary_channel_id);
    hex_is_fixed_hex(counterparty_node_id);
}

proof fn hex_is_fixed_hex(bytes: Seq<u8>)
    ensures
        is_fixed_hex(hex(bytes), bytes.len()),
{
    assert forall|i: int| 0 <= i < hex(bytes).len() implies is_hex_digit(#[trigger] hex(bytes)[i]) by {
        let n = if i % 2 == 0 {
            bytes[i / 2] as int / 16
        } else {
            bytes[i / 2] as int % 16
        };
        assert(0 <= n < 16);
        assert(hex(bytes)[i] == hex_digit(n));
    }
}

/// A transfer that funds a channel is split between its two sides: what is pushed goes to the
/// accepting node, the rest to the other one, and together they come to the amount received.
pub proof fn funding_is_split_between_the_sides(
    transfer: PreparedTransfer,
    push_asset_amount: Option<u64>,
)
    ensures
        examined(transfer, push_asset_amount) matches Ok(info) ==> {
            &&& transfer.assignments@.len() == 1
            &&& info.contract_id == transfer.contract_id@
            &&& info.local_rgb_amount == pushed(push_asset_amount)
            &&& info.local_rgb_amount + info.remote_rgb_amount == transfer.channel_amount()
        },
        pushed(push_asset_amount) > transfer.channel_amount() ==> examined(
            transfer,
            push_asset_amount,
        ) is Err,
{
}

/// A prepared record carries the consignment and the channel info, and is otherwise the record of
/// the attempt.
pub proof fn prepared_record_extends_the_attempt(
    record: RecordView,
    consignment: Seq<u8>,
    info: RgbInfoView,
)
    ensures
        retry_record(prepared_record(record, consignment, info)) == retry_record(record),
        prepared_record(record, consignment, info).valid() == record.valid(),
{
}

} // verus!
