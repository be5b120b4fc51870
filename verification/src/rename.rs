//! The transition of a channel's RGB data from its temporary to its final ID.

use vstd::prelude::*;
use crate::errors::{invalid_data_error, Error, ErrorKind};
#[allow(unused_imports)]
use crate::errors::{invalid_data, undecodable, unit_view, ErrorView};
use crate::info::RgbInfo;
#[allow(unused_imports)]
use crate::info::decode_info;
use crate::records::{channel_info_namespace, ChannelId};
#[allow(unused_imports)]
use crate::records::{consignment_key, info_key};
use crate::store::{clear_rgb_entry, KVStoreSync, RGB_CONSIGNMENT_NS, RGB_PRIMARY_NS};
#[allow(unused_imports)]
use crate::store::{
    clear_entry, namespaces_differ, rgb_key, EntryKey, StoreView, RGB_FUNDING_ACCEPTANCE_NS,
};
use crate::text::{copy_bytes, same_bytes};
#[allow(unused_imports)]
use crate::text::hex;

verus! {

/// The words for channel info that stands under the final ID with other contents.
pub const METADATA_CONFLICT: &'static str =
    "final RGB channel metadata differs from temporary metadata";

/// The words for a consignment that stands under the final ID with other contents.
pub const CONSIGNMENT_CONFLICT: &'static str =
    "final RGB consignment differs from temporary consignment";

/// Moves `data`, read from `from`, to `to`: it is written there unless it is there already, then
/// removed from `from`. Other data under `to` is a conflict.
pub open spec fn move_data(
    store: StoreView,
    from: EntryKey,
    to: EntryKey,
    data: Seq<u8>,
    conflict: Seq<char>,
) -> (StoreView, Result<(), ErrorView>) {
    let (looked, existing) = store.read(to);
    match existing {
        Ok(bytes) => if bytes != data {
            (looked, Err(invalid_data(conflict)))
        } else {
            clear_entry(looked, from)
        },
        Err(e) => if e.kind == ErrorKind::NotFound {
            let (written, result) = looked.write(to, data);
            match result {
                Ok(_) => clear_entry(written, from),
                Err(e) => (written, Err(e)),
            }
        } else {
            (looked, Err(e))
        },
    }
}

/// Moves one of the two infos of a channel. It must be channel info; where it is not there, it must
/// stand under the final ID already.
pub open spec fn move_info(
    store: StoreView,
    temporary: Seq<char>,
    channel: Seq<char>,
    pending: bool,
) -> (StoreView, Result<(), ErrorView>) {
    let from = info_key(temporary, pending);
    let to = info_key(channel, pending);
    let (after, read) = store.read(from);
    match read {
        Ok(data) => if decode_info(data) is None {
            (after, Err(undecodable()))
        } else {
            move_data(after, from, to, data, METADATA_CONFLICT@)
        },
        Err(e) => if e.kind == ErrorKind::NotFound {
            let (looked, existing) = after.read(to);
            (
                looked,
                match existing {
                    Ok(data) => if decode_info(data) is None {
                        Err(undecodable())
                    } else {
                        Ok(())
                    },
                    Err(e) => Err(e),
                },
            )
        } else {
            (after, Err(e))
        },
    }
}

/// Moves the consignment of a channel, if there is one.
pub open spec fn move_consignment(store: StoreView, temporary: Seq<char>, channel: Seq<char>) -> (
    StoreView,
    Result<(), ErrorView>,
) {
    let from = consignment_key(temporary);
    let to = consignment_key(channel);
    let (after, read) = store.read(from);
    match read {
        Ok(data) => move_data(after, from, to, data, CONSIGNMENT_CONFLICT@),
        Err(e) => if e.kind == ErrorKind::NotFound {
            (after, Ok(()))
        } else {
            (after, Err(e))
        },
    }
}

/// Moves the current info, the pending info and the consignment of a channel, in this order.
pub open spec fn move_channel(store: StoreView, temporary: Seq<char>, channel: Seq<char>) -> (
    StoreView,
    Result<(), ErrorView>,
) {
    let (first, current) = move_info(store, temporary, channel, false);
    match current {
        Err(e) => (first, Err(e)),
        Ok(_) => {
            let (second, pending) = move_info(first, temporary, channel, true);
            match pending {
                Err(e) => (second, Err(e)),
                Ok(_) => move_consignment(second, temporary, channel),
            }
        },
    }
}

fn move_bytes<K: KVStoreSync>(
    kv_store: &mut K,
    secondary_namespace: &str,
    from: &str,
    to: &str,
    data: &Vec<u8>,
    conflict: &str,
) -> (r: Result<(), Error>)
    ensures
        ({
            let run = move_data(
                old(kv_store)@,
                rgb_key(secondary_namespace@, from@),
                rgb_key(secondary_namespace@, to@),
                data@,
                conflict@,
            );
            final(kv_store)@ == run.0 && unit_view(r) == run.1
        }),
{
    match kv_store.read(RGB_PRIMARY_NS, secondary_namespace, to) {
        Ok(existing) => {
            if !same_bytes(existing.as_slice(), data.as_slice()) {
                return Err(invalid_data_error(conflict));
            }
        },
        Err(e) => {
            if e.kind() != ErrorKind::NotFound {
                return Err(e);
            }
            match kv_store.write(RGB_PRIMARY_NS, secondary_namespace, to, copy_bytes(data)) {
                Ok(_) => {},
                Err(e) => return Err(e),
            }
        },
    }
    clear_rgb_entry(kv_store, secondary_namespace, from)
}

fn move_channel_info<K: KVStoreSync>(
    kv_store: &mut K,
    temporary: &str,
    channel: &str,
    pending: bool,
) -> (r: Result<(), Error>)
    ensures
        final(kv_store)@ == move_info(old(kv_store)@, temporary@, channel@, pending).0,
        unit_view(r) == move_info(old(kv_store)@, temporary@, channel@, pending).1,
{
    let namespace: &'static str = channel_info_namespace(pending);
    match kv_store.read(RGB_PRIMARY_NS, namespace, temporary) {
        Ok(data) => match RgbInfo::from_bytes(data.as_slice()) {
            Ok(_) => move_bytes(kv_store, namespace, temporary, channel, &data, METADATA_CONFLICT),
            Err(e) => Err(e),
        },
        Err(e) => {
            if e.kind() != ErrorKind::NotFound {
                return Err(e);
            }
            match kv_store.read(RGB_PRIMARY_NS, namespace, channel) {
                Ok(data) => match RgbInfo::from_bytes(data.as_slice()) {
                    Ok(_) => Ok(()),
                    Err(e) => Err(e),
                },
                Err(e) => Err(e),
            }
        },
    }
}

fn move_channel_consignment<K: KVStoreSync>(
    kv_store: &mut K,
    temporary: &str,
    channel: &str,
) -> (r: Result<(), Error>)
    ensures
        final(kv_store)@ == move_consignment(old(kv_store)@, temporary@, channel@).0,
        unit_view(r) == move_consignment(old(kv_store)@, temporary@, channel@).1,
{
    match kv_store.read(RGB_PRIMARY_NS, RGB_CONSIGNMENT_NS, temporary) {
        Ok(data) => move_bytes(
            kv_store,
            RGB_CONSIGNMENT_NS,
            temporary,
            channel,
            &data,
            CONSIGNMENT_CONFLICT,
        ),
        Err(e) => {
            if e.kind() == ErrorKind::NotFound {
                Ok(())
            } else {
                Err(e)
            }
        },
    }
}

/// Renames RGB channel state from a temporary to a final channel ID.
///
/// The funding acceptance journal stays under the temporary channel ID: it is removed only once
/// the finalized wallet and the metadata under the final ID have been acknowledged.
pub fn try_rename_rgb_files<K: KVStoreSync>(
    channel_id: &ChannelId,
    temporary_channel_id: &ChannelId,
    kv_store: &mut K,
) -> (r: Result<(), Error>)
    ensures
        ({
            let run = move_channel(
                old(kv_store)@,
                hex(temporary_channel_id@),
                hex(channel_id@),
            );
            final(kv_store)@ == run.0 && unit_view(r) == run.1
        }),
{
    let temporary: String = temporary_channel_id.to_hex();
    let channel: String = channel_id.to_hex();
    match move_channel_info(kv_store, temporary.as_str(), channel.as_str(), false) {
        Ok(_) => {},
        Err(e) => return Err(e),
    }
    match move_channel_info(kv_store, temporary.as_str(), channel.as_str(), true) {
        Ok(_) => {},
        Err(e) => return Err(e),
    }
    move_channel_consignment(kv_store, temporary.as_str(), channel.as_str())
}

/// Whether an entry can move from `from` to `to`: nothing else stands under `to`. Channel info
/// (`info`) must be in order, and must be there, under `from` or under `to`.
pub open spec fn movable(
    entries: Map<EntryKey, Seq<u8>>,
    from: EntryKey,
    to: EntryKey,
    info: bool,
) -> bool {
    if entries.contains_key(from) {
        &&& info ==> decode_info(entries[from]) is Some
        &&& entries.contains_key(to) ==> entries[to] == entries[from]
    } else {
        info ==> entries.contains_key(to) && decode_info(entries[to]) is Some
    }
}

/// The entries with what stood under `from` moved to `to`.
pub open spec fn moved(entries: Map<EntryKey, Seq<u8>>, from: EntryKey, to: EntryKey) -> Map<
    EntryKey,
    Seq<u8>,
> {
    if entries.contains_key(from) {
        entries.insert(to, entries[from]).remove(from)
    } else {
        entries
    }
}

/// Whether the data of a channel can move to its final ID.
pub open spec fn channel_movable(
    entries: Map<EntryKey, Seq<u8>>,
    temporary: Seq<char>,
    channel: Seq<char>,
) -> bool {
    &&& movable(entries, info_key(temporary, false), info_key(channel, false), true)
    &&& movable(entries, info_key(temporary, true), info_key(channel, true), true)
    &&& movable(entries, consignment_key(temporary), consignment_key(channel), false)
}

/// The entries with the data of a channel moved to its final ID.
pub open spec fn channel_moved(
    entries: Map<EntryKey, Seq<u8>>,
    temporary: Seq<char>,
    channel: Seq<char>,
) -> Map<EntryKey, Seq<u8>> {
    moved(
        moved(
            moved(entries, info_key(temporary, false), info_key(channel, false)),
            info_key(temporary, true),
            info_key(channel, true),
        ),
        consignment_key(temporary),
        consignment_key(channel),
    )
}

/// Whether `key` is one of the places that renaming may change.
pub open spec fn is_channel_place(
    key: EntryKey,
    temporary: Seq<char>,
    channel: Seq<char>,
) -> bool {
    ||| key == info_key(temporary, false)
    ||| key == info_key(channel, false)
    ||| key == info_key(temporary, true)
    ||| key == info_key(channel, true)
    ||| key == consignment_key(temporary)
    ||| key == consignment_key(channel)
}

/// How far a move from `from` to `to` can have got.
spec fn partly_moved(
    before: Map<EntryKey, Seq<u8>>,
    after: Map<EntryKey, Seq<u8>>,
    from: EntryKey,
    to: EntryKey,
) -> bool {
    ||| after == before
    ||| before.contains_key(from) && (before.contains_key(to) ==> before[to] == before[from]) && {
        ||| after == before.insert(to, before[from])
        ||| after == before.remove(from) && before.contains_key(to)
        ||| after == before.insert(to, before[from]).remove(from)
    }
}

proof fn one_move(
    store: StoreView,
    from: EntryKey,
    to: EntryKey,
    data: Seq<u8>,
    conflict: Seq<char>,
)
    requires
        from != to,
        store.entries.contains_key(from),
        store.entries[from] == data,
    ensures
        ({
            let (after, result) = move_data(store, from, to, data, conflict);
            &&& after.outcomes == store.outcomes
            &&& partly_moved(store.entries, after.entries, from, to)
            &&& result is Ok ==> after.entries == moved(store.entries, from, to)
            &&& store.calm() ==> (result is Ok <==> (store.entries.contains_key(to)
                ==> store.entries[to] == data))
        }),
{
    let (looked, existing) = store.read(to);
    if let Ok(bytes) = existing {
        assert(store.entries.insert(to, store.entries[from]) =~= store.entries
            || store.entries[to] != data);
    }
    assert(store.calm() ==> looked.next().fault is None);
    let (written, result) = looked.write(to, data);
    assert(store.calm() ==> written.next().fault is None);
}

proof fn one_info_move(
    store: StoreView,
    temporary: Seq<char>,
    channel: Seq<char>,
    pending: bool,
)
    requires
        temporary != channel,
    ensures
        ({
            let from = info_key(temporary, pending);
            let to = info_key(channel, pending);
            let (after, result) = move_info(store, temporary, channel, pending);
            &&& after.outcomes == store.outcomes
            &&& partly_moved(store.entries, after.entries, from, to)
            &&& result is Ok ==> after.entries == moved(store.entries, from, to)
            &&& store.calm() ==> (result is Ok <==> movable(store.entries, from, to, true))
        }),
{
    let from = info_key(temporary, pending);
    let to = info_key(channel, pending);
    let (after, read) = store.read(from);
    assert(store.calm() ==> store.next().fault is None);
    assert(store.calm() ==> after.next().fault is None);
    if let Ok(data) = read {
        one_move(after, from, to, data, METADATA_CONFLICT@);
        assert(store.calm() == after.calm());
    }
}

proof fn one_consignment_move(store: StoreView, temporary: Seq<char>, channel: Seq<char>)
    requires
        temporary != channel,
    ensures
        ({
            let from = consignment_key(temporary);
            let to = consignment_key(channel);
            let (after, result) = move_consignment(store, temporary, channel);
            &&& after.outcomes == store.outcomes
            &&& partly_moved(store.entries, after.entries, from, to)
            &&& result is Ok ==> after.entries == moved(store.entries, from, to)
            &&& store.calm() ==> (result is Ok <==> movable(store.entries, from, to, false))
        }),
{
    let from = consignment_key(temporary);
    let to = consignment_key(channel);
    let (after, read) = store.read(from);
    assert(store.calm() ==> store.next().fault is None);
    if let Ok(data) = read {
        one_move(after, from, to, data, CONSIGNMENT_CONFLICT@);
        assert(store.calm() == after.calm());
    }
}

proof fn places_differ(temporary: Seq<char>, channel: Seq<char>)
    requires
        temporary != channel,
    ensures
        info_key(temporary, false) != info_key(channel, false),
        info_key(temporary, true) != info_key(channel, true),
        consignment_key(temporary) != consignment_key(channel),
        forall|a: Seq<char>, b: Seq<char>| #[trigger]
            info_key(a, false) != #[trigger] info_key(b, true),
        forall|a: Seq<char>, b: Seq<char>, p: bool| #[trigger]
            info_key(a, p) != #[trigger] consignment_key(b),
{
    namespaces_differ();
}

proof fn moving_touches_two_places(
    store: StoreView,
    from: EntryKey,
    to: EntryKey,
    data: Seq<u8>,
    conflict: Seq<char>,
    key: EntryKey,
)
    requires
        key != from,
        key != to,
    ensures
        ({
            let after = move_data(store, from, to, data, conflict).0;
            &&& after.entries.contains_key(key) == store.entries.contains_key(key)
            &&& after.entries[key] == store.entries[key]
        }),
{
}

proof fn moving_info_touches_two_places(
    store: StoreView,
    temporary: Seq<char>,
    channel: Seq<char>,
    pending: bool,
    key: EntryKey,
)
    requires
        key != info_key(temporary, pending),
        key != info_key(channel, pending),
    ensures
        ({
            let after = move_info(store, temporary, channel, pending).0;
            &&& after.entries.contains_key(key) == store.entries.contains_key(key)
            &&& after.entries[key] == store.entries[key]
        }),
{
    let from = info_key(temporary, pending);
    let to = info_key(channel, pending);
    let (after, read) = store.read(from);
    if let Ok(data) = read {
        moving_touches_two_places(after, from, to, data, METADATA_CONFLICT@, key);
    }
}

proof fn moving_consignment_touches_two_places(
    store: StoreView,
    temporary: Seq<char>,
    channel: Seq<char>,
    key: EntryKey,
)
    requires
        key != consignment_key(temporary),
        key != consignment_key(channel),
    ensures
        ({
            let after = move_consignment(store, temporary, channel).0;
            &&& after.entries.contains_key(key) == store.entries.contains_key(key)
            &&& after.entries[key] == store.entries[key]
        }),
{
    let from = consignment_key(temporary);
    let to = consignment_key(channel);
    let (after, read) = store.read(from);
    if let Ok(data) = read {
        moving_touches_two_places(after, from, to, data, CONSIGNMENT_CONFLICT@, key);
    }
}

/// However the store fails, renaming changes no entry but those of the channel itself. The funding
/// acceptance journal stays as it was.
pub proof fn renaming_touches_only_the_channel(
    store: StoreView,
    temporary: Seq<char>,
    channel: Seq<char>,
    key: EntryKey,
)
    requires
        !is_channel_place(key, temporary, channel) || key.secondary == RGB_FUNDING_ACCEPTANCE_NS@,
    ensures
        ({
            let after = move_channel(store, temporary, channel).0;
            &&& after.entries.contains_key(key) == store.entries.contains_key(key)
            &&& after.entries[key] == store.entries[key]
        }),
{
    namespaces_differ();
    assert(!is_channel_place(key, temporary, channel));
    let first = move_info(store, temporary, channel, false).0;
    let second = move_info(first, temporary, channel, true).0;
    moving_info_touches_two_places(store, temporary, channel, false, key);
    moving_info_touches_two_places(first, temporary, channel, true, key);
    moving_consignment_touches_two_places(second, temporary, channel, key);
}

/// However the store fails, renaming loses nothing: what stood under the temporary ID stands there
/// still, or under the final ID.
pub proof fn renaming_loses_nothing(store: StoreView, temporary: Seq<char>, channel: Seq<char>)
    requires
        temporary != channel,
    ensures
        ({
            let after = move_channel(store, temporary, channel).0.entries;
            &&& forall|pending: bool| #[trigger]
                store.entries.contains_key(info_key(temporary, pending)) ==> {
                    ||| after.contains_key(info_key(temporary, pending))
                        && after[info_key(temporary, pending)] == store.entries[info_key(
                        temporary,
                        pending,
                    )]
                    ||| after.contains_key(info_key(channel, pending)) && after[info_key(
                        channel,
                        pending,
                    )] == store.entries[info_key(temporary, pending)]
                }
            &&& store.entries.contains_key(consignment_key(temporary)) ==> {
                ||| after.contains_key(consignment_key(temporary))
                    && after[consignment_key(temporary)] == store.entries[consignment_key(
                    temporary,
                )]
                ||| after.contains_key(consignment_key(channel))
                    && after[consignment_key(channel)] == store.entries[consignment_key(temporary)]
            }
        }),
{
    places_differ(temporary, channel);
    let (first, current) = move_info(store, temporary, channel, false);
    one_info_move(store, temporary, channel, false);
    let (second, pending) = move_info(first, temporary, channel, true);
    one_info_move(first, temporary, channel, true);
    one_consignment_move(second, temporary, channel);
}

/// Where no call fails, renaming succeeds exactly if the data can move, and it then moves all of
/// it.
pub proof fn renaming_moves_the_channel(store: StoreView, temporary: Seq<char>, channel: Seq<char>)
    requires
        temporary != channel,
    ensures
        ({
            let (after, result) = move_channel(store, temporary, channel);
            &&& result is Ok ==> after.entries == channel_moved(store.entries, temporary, channel)
            &&& store.calm() ==> (result is Ok <==> channel_movable(
                store.entries,
                temporary,
                channel,
            ))
        }),
{
    places_differ(temporary, channel);
    let (first, current) = move_info(store, temporary, channel, false);
    one_info_move(store, temporary, channel, false);
    assert(first.calm() == store.calm());
    let (second, pending) = move_info(first, temporary, channel, true);
    one_info_move(first, temporary, channel, true);
    assert(second.calm() == store.calm());
    one_consignment_move(second, temporary, channel);
    assert(movable(store.entries, info_key(temporary, true), info_key(channel, true), true)
        == movable(first.entries, info_key(temporary, true), info_key(channel, true), true));
    assert(movable(
        store.entries,
        consignment_key(temporary),
        consignment_key(channel),
        false,
    ) == movable(second.entries, consignment_key(temporary), consignment_key(channel), false));
}

proof fn partial_move_leads_on(
    before: Map<EntryKey, Seq<u8>>,
    after: Map<EntryKey, Seq<u8>>,
    from: EntryKey,
    to: EntryKey,
    info: bool,
)
    requires
        from != to,
        movable(before, from, to, info),
        partly_moved(before, after, from, to),
    ensures
        movable(after, from, to, info),
        moved(after, from, to) == moved(before, from, to),
{
    assert(moved(after, from, to) =~= moved(before, from, to));
}

/// Renaming can be taken up again: wherever a failure of the store has stopped it, the data can
/// still move, and ends where it would have ended without the failure. In particular, renaming
/// once more after it has succeeded changes nothing.
pub proof fn renaming_can_be_resumed(store: StoreView, temporary: Seq<char>, channel: Seq<char>)
    requires
        temporary != channel,
        channel_movable(store.entries, temporary, channel),
    ensures
        ({
            let (after, result) = move_channel(store, temporary, channel);
            &&& channel_movable(after.entries, temporary, channel)
            &&& channel_moved(after.entries, temporary, channel) == channel_moved(
                store.entries,
                temporary,
                channel,
            )
            &&& result is Ok ==> channel_moved(after.entries, temporary, channel) == after.entries
        }),
{
    places_differ(temporary, channel);
    let from0 = info_key(temporary, false);
    let to0 = info_key(channel, false);
    let from1 = info_key(temporary, true);
    let to1 = info_key(channel, true);
    let from2 = consignment_key(temporary);
    let to2 = consignment_key(channel);
    let (first, current) = move_info(store, temporary, channel, false);
    one_info_move(store, temporary, channel, false);
    partial_move_leads_on(store.entries, first.entries, from0, to0, true);
    assert(channel_movable(first.entries, temporary, channel));
    assert(channel_moved(first.entries, temporary, channel) == channel_moved(
        store.entries,
        temporary,
        channel,
    ));
    if current is Ok {
        let (second, pending) = move_info(first, temporary, channel, true);
        one_info_move(first, temporary, channel, true);
        partial_move_leads_on(first.entries, second.entries, from1, to1, true);
        assert(movable(second.entries, from0, to0, true));
        assert(movable(second.entries, from2, to2, false));
        assert(channel_moved(second.entries, temporary, channel) =~= channel_moved(
            first.entries,
            temporary,
            channel,
        ));
        if pending is Ok {
            let (third, last) = move_consignment(second, temporary, channel);
            one_consignment_move(second, temporary, channel);
            partial_move_leads_on(second.entries, third.entries, from2, to2, false);
            assert(movable(third.entries, from0, to0, true));
            assert(movable(third.entries, from1, to1, true));
            assert(channel_moved(third.entries, temporary, channel) =~= channel_moved(
                second.entries,
                temporary,
                channel,
            ));
            if last is Ok {
                assert(channel_moved(third.entries, temporary, channel) =~= third.entries);
            }
        }
    }
}

/// A channel without current info, under either ID, is reported as not found, and nothing changes.
pub proof fn renaming_reports_missing_info(
    store: StoreView,
    temporary: Seq<char>,
    channel: Seq<char>,
)
    requires
        store.calm(),
        !store.entries.contains_key(info_key(temporary, false)),
        !store.entries.contains_key(info_key(channel, false)),
    ensures
        ({
            let (after, result) = move_channel(store, temporary, channel);
            &&& after.entries == store.entries
            &&& result matches Err(e) && e.kind == ErrorKind::NotFound
        }),
{
    assert(store.next().fault is None);
    let (looked, _) = store.read(info_key(temporary, false));
    assert(looked.next().fault is None);
}

proof fn one_place_moves(
    before: Map<EntryKey, Seq<u8>>,
    from: EntryKey,
    to: EntryKey,
    key: EntryKey,
)
    requires
        from != to,
    ensures
        !moved(before, from, to).contains_key(from),
        before.contains_key(from) ==> moved(before, from, to).contains_key(to) && moved(
            before,
            from,
            to,
        )[to] == before[from],
        !before.contains_key(from) ==> moved(before, from, to) == before,
        key != from && key != to ==> moved(before, from, to).contains_key(key)
            == before.contains_key(key) && moved(before, from, to)[key] == before[key],
{
}

/// Once renaming has succeeded, nothing of the channel stands under the temporary ID. What stood
/// there, current info, pending info and consignment, stands under the final ID, byte for byte; and
/// where nothing stood there, the final ID has what it had before. Both infos are there, and in
/// order.
pub proof fn renamed_channel_has_its_data_under_the_final_id(
    store: StoreView,
    temporary: Seq<char>,
    channel: Seq<char>,
    pending: bool,
)
    requires
        temporary != channel,
        move_channel(store, temporary, channel).1 is Ok,
    ensures
        ({
            let after = move_channel(store, temporary, channel).0.entries;
            let before = store.entries;
            let info_from = info_key(temporary, pending);
            let info_to = info_key(channel, pending);
            let from = consignment_key(temporary);
            let to = consignment_key(channel);
            &&& !after.contains_key(info_from)
            &&& after.contains_key(info_to)
            &&& decode_info(after[info_to]) is Some
            &&& before.contains_key(info_from) ==> after[info_to] == before[info_from]
            &&& !before.contains_key(info_from) ==> before.contains_key(info_to) && after[info_to]
                == before[info_to]
            &&& !after.contains_key(from)
            &&& before.contains_key(from) ==> after.contains_key(to) && after[to] == before[from]
            &&& !before.contains_key(from) ==> after.contains_key(to) == before.contains_key(to)
                && after[to] == before[to]
        }),
{
    places_differ(temporary, channel);
    renaming_moves_the_channel(store, temporary, channel);
    let from0 = info_key(temporary, false);
    let to0 = info_key(channel, false);
    let from1 = info_key(temporary, true);
    let to1 = info_key(channel, true);
    let from2 = consignment_key(temporary);
    let to2 = consignment_key(channel);
    let e1 = moved(store.entries, from0, to0);
    let e2 = moved(e1, from1, to1);
    one_place_moves(store.entries, from0, to0, from1);
    one_place_moves(e1, from1, to1, from0);
    one_place_moves(e2, from2, to2, from0);
    let (first, current) = move_info(store, temporary, channel, false);
    one_info_move(store, temporary, channel, false);
    moved_info_is_in_order(store, temporary, channel, false);
    let (second, done) = move_info(first, temporary, channel, true);
    one_info_move(first, temporary, channel, true);
    moved_info_is_in_order(first, temporary, channel, true);
    one_consignment_move(second, temporary, channel);
}

proof fn moved_info_is_in_order(
    store: StoreView,
    temporary: Seq<char>,
    channel: Seq<char>,
    pending: bool,
)
    requires
        temporary != channel,
        move_info(store, temporary, channel, pending).1 is Ok,
    ensures
        ({
            let after = move_info(store, temporary, channel, pending).0.entries;
            let to = info_key(channel, pending);
            after.contains_key(to) && decode_info(after[to]) is Some
        }),
{
    one_info_move(store, temporary, channel, pending);
}

/// Where no call fails, renaming succeeds if and only if each of the two infos is in order, under
/// the temporary ID or else under the final one, and nothing of the channel, consignment included,
/// stands under both IDs with different bytes.
pub proof fn renaming_succeeds_on_data_in_order(
    store: StoreView,
    temporary: Seq<char>,
    channel: Seq<char>,
)
    requires
        temporary != channel,
        store.calm(),
    ensures
        ({
            let before = store.entries;
            let from = consignment_key(temporary);
            let to = consignment_key(channel);
            move_channel(store, temporary, channel).1 is Ok <==> {
                &&& forall|pending: bool|
                    {
                        let info_from = #[trigger] info_key(temporary, pending);
                        let info_to = info_key(channel, pending);
                        if before.contains_key(info_from) {
                            &&& decode_info(before[info_from]) is Some
                            &&& before.contains_key(info_to) ==> before[info_to]
                                == before[info_from]
                        } else {
                            before.contains_key(info_to) && decode_info(before[info_to]) is Some
                        }
                    }
                &&& before.contains_key(from) && before.contains_key(to) ==> before[to]
                    == before[from]
            }
        }),
{
    renaming_moves_the_channel(store, temporary, channel);
    let ok = forall|pending: bool|
        {
            let info_from = #[trigger] info_key(temporary, pending);
            let info_to = info_key(channel, pending);
            if store.entries.contains_key(info_from) {
                &&& decode_info(store.entries[info_from]) is Some
                &&& store.entries.contains_key(info_to) ==> store.entries[info_to]
                    == store.entries[info_from]
            } else {
                store.entries.contains_key(info_to) && decode_info(store.entries[info_to]) is Some
            }
        };
    if ok {
        assert(movable(store.entries, info_key(temporary, false), info_key(channel, false), true));
        assert(movable(store.entries, info_key(temporary, true), info_key(channel, true), true));
    }
}

/// Current info that stands under the final ID with other bytes is a conflict: where no call fails,
/// it is reported as invalid data, and nothing changes. Info that does not decode is invalid data
/// too.
pub proof fn renaming_refuses_other_info(
    store: StoreView,
    temporary: Seq<char>,
    channel: Seq<char>,
)
    requires
        store.calm(),
        store.entries.contains_key(info_key(temporary, false)),
    ensures
        ({
            let (after, result) = move_channel(store, temporary, channel);
            let from = info_key(temporary, false);
            let to = info_key(channel, false);
            &&& decode_info(store.entries[from]) is None ==> after.entries == store.entries && (
            result matches Err(e) && e.kind == ErrorKind::InvalidData)
            &&& decode_info(store.entries[from]) is Some && store.entries.contains_key(to)
                && store.entries[to] != store.entries[from] ==> after.entries == store.entries && (
            result matches Err(e) && e.kind == ErrorKind::InvalidData && e.message == Some(
                "final RGB channel metadata differs from temporary metadata"@,
            ))
        }),
{
    assert(store.next().fault is None);
    let (looked, _) = store.read(info_key(temporary, false));
    assert(looked.next().fault is None);
}

/// One entry is moved, where no call fails, by writing it in its new place, unless it is there
/// already, and removing it for good from the old one. Other bytes in the new place are a conflict,
/// reported in the words given, and nothing changes.
pub proof fn moving_writes_before_it_removes(
    store: StoreView,
    from: EntryKey,
    to: EntryKey,
    data: Seq<u8>,
    conflict: Seq<char>,
)
    requires
        from != to,
        store.entries.contains_key(from),
        store.entries[from] == data,
    ensures
        ({
            let (after, result) = move_data(store, from, to, data, conflict);
            &&& store.calm() && store.entries.contains_key(to) && store.entries[to] != data ==> {
                &&& result matches Err(e) && e.kind == ErrorKind::InvalidData && e.message == Some(
                    conflict,
                )
                &&& after.entries == store.entries
            }
            &&& store.calm() && (store.entries.contains_key(to) ==> store.entries[to] == data) ==> {
                &&& result is Ok
                &&& after.entries == store.entries.insert(to, data).remove(from)
            }
            &&& result is Ok ==> !after.lazily_removed.contains(from)
            &&& after.entries.contains_key(from) || after.entries.contains_key(to)
                && after.entries[to] == data
            &&& (store.outcomes)(store.calls).fault is Some ==> result is Err && after.entries
                == store.entries
        }),
        METADATA_CONFLICT@ == "final RGB channel metadata differs from temporary metadata"@,
        CONSIGNMENT_CONFLICT@ == "final RGB consignment differs from temporary consignment"@,
{
    one_move(store, from, to, data, conflict);
    let (looked, existing) = store.read(to);
    assert(store.calm() ==> store.next().fault is None);
    assert(store.calm() ==> looked.next().fault is None);
}

/// Renaming moves the current info, then the pending info, then the consignment, each in the
/// store that the one before has left, and stops at the first failure.
pub proof fn renaming_moves_in_order(store: StoreView, temporary: Seq<char>, channel: Seq<char>)
    ensures
        ({
            let (first, current) = move_info(store, temporary, channel, false);
            let (second, pending) = move_info(first, temporary, channel, true);
            let run = move_channel(store, temporary, channel);
            &&& current matches Err(e) ==> run == (first, Err::<(), ErrorView>(e))
            &&& current is Ok ==> (pending matches Err(e) ==> run == (second, Err::<
                (),
                ErrorView,
            >(e)))
            &&& current is Ok && pending is Ok ==> run == move_consignment(
                second,
                temporary,
                channel,
            )
        }),
{
}

/// One entry is moved only if every call of the move succeeds: the look at its new place, the write
/// if nothing stands there, and the removal.
pub proof fn moving_reports_every_failure(
    store: StoreView,
    from: EntryKey,
    to: EntryKey,
    data: Seq<u8>,
    conflict: Seq<char>,
)
    ensures
        ({
            let (after, result) = move_data(store, from, to, data, conflict);
            result is Ok <==> {
                &&& (store.outcomes)(store.calls).fault is None
                &&& (store.outcomes)(store.calls + 1).fault is None
                &&& store.entries.contains_key(to) ==> store.entries[to] == data
                &&& !store.entries.contains_key(to) ==> (store.outcomes)(
                    store.calls + 2,
                ).fault is None
            }
        }),
{
}

/// Info is moved if it can be read and is in order. If it is not there, it must stand under the
/// final ID already, in order: what stands there is left alone, what does not is not found, and
/// what is not in order is invalid. A read that fails is reported, and nothing changes.
pub proof fn info_is_moved_or_stands_there_already(
    store: StoreView,
    temporary: Seq<char>,
    channel: Seq<char>,
    pending: bool,
)
    ensures
        ({
            let (after, result) = move_info(store, temporary, channel, pending);
            let from = info_key(temporary, pending);
            let to = info_key(channel, pending);
            let here = store.called();
            &&& (store.outcomes)(store.calls).fault matches Some(fault) ==> {
                &&& result matches Err(e) && e.message == Some(fault.message)
                &&& after.entries == store.entries
            }
            &&& (store.outcomes)(store.calls).fault is None && store.entries.contains_key(from)
                ==> {
                &&& decode_info(store.entries[from]) is None ==> after == here && (
                result matches Err(e) && e.kind == ErrorKind::InvalidData)
                &&& decode_info(store.entries[from]) is Some ==> (after, result) == move_data(
                    here,
                    from,
                    to,
                    store.entries[from],
                    "final RGB channel metadata differs from temporary metadata"@,
                )
            }
            &&& (store.outcomes)(store.calls).fault is None && !store.entries.contains_key(from)
                ==> {
                &&& after.entries == store.entries
                &&& (store.outcomes)(store.calls + 1).fault matches Some(fault) ==> (
                result matches Err(e) && e.message == Some(fault.message))
                &&& (store.outcomes)(store.calls + 1).fault is None
                    && !store.entries.contains_key(to) ==> (result matches Err(e) && e.kind
                    == ErrorKind::NotFound)
                &&& (store.outcomes)(store.calls + 1).fault is None && store.entries.contains_key(
                    to,
                ) ==> if decode_info(store.entries[to]) is Some {
                    result is Ok
                } else {
                    result matches Err(e) && e.kind == ErrorKind::InvalidData
                }
            }
        }),
{
}

/// A consignment is moved if there is one, whatever its bytes are; that there is none is no error.
/// A read that fails is reported, and nothing changes.
pub proof fn consignment_is_moved_if_there_is_one(
    store: StoreView,
    temporary: Seq<char>,
    channel: Seq<char>,
)
    ensures
        ({
            let (after, result) = move_consignment(store, temporary, channel);
            let from = consignment_key(temporary);
            let to = consignment_key(channel);
            let here = store.called();
            &&& (store.outcomes)(store.calls).fault matches Some(fault) ==> {
                &&& result matches Err(e) && e.message == Some(fault.message)
                &&& after == here
            }
            &&& (store.outcomes)(store.calls).fault is None ==> if store.entries.contains_key(
                from,
            ) {
                (after, result) == move_data(
                    here,
                    from,
                    to,
                    store.entries[from],
                    "final RGB consignment differs from temporary consignment"@,
                )
            } else {
                after == here && result is Ok
            }
        }),
{
}

} // verus!
