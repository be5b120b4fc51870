//! The key-value store that keeps all RGB data, and the namespaces it is kept in.

use vstd::prelude::*;
use crate::errors::{Error, ErrorKind};
#[allow(unused_imports)]
use crate::errors::{bytes_view, unit_view, ErrorView};

verus! {

/// Primary namespace for all RGB data
pub const RGB_PRIMARY_NS: &'static str = "rgb";

/// Secondary namespace for channel info
pub const RGB_CHANNEL_INFO_NS: &'static str = "channel_info";

/// Secondary namespace for pending channel info
pub const RGB_CHANNEL_INFO_PENDING_NS: &'static str = "channel_info_pending";

/// Secondary namespace for durable inbound RGB funding acceptance state.
pub const RGB_FUNDING_ACCEPTANCE_NS: &'static str = "funding_acceptance";

/// Secondary namespace for inbound payment info
pub const RGB_PAYMENT_INFO_INBOUND_NS: &'static str = "payment_info_inbound";

/// Secondary namespace for outbound payment info
pub const RGB_PAYMENT_INFO_OUTBOUND_NS: &'static str = "payment_info_outbound";

/// Secondary namespace for transfer info
pub const RGB_TRANSFER_INFO_NS: &'static str = "transfer_info";

/// Secondary namespace for consignment data
pub const RGB_CONSIGNMENT_NS: &'static str = "consignment";

/// Secondary namespace for the latest commitment fascia of each channel
pub const RGB_COMMITMENT_FASCIA_NS: &'static str = "commitment_fascia";

/// Secondary namespace for wallet configuration
pub const RGB_WALLET_CONFIG_NS: &'static str = "wallet_config";

/// Where an entry of the store is kept.
pub struct EntryKey {
    pub primary: Seq<char>,
    pub secondary: Seq<char>,
    pub key: Seq<char>,
}

/// The place of the entry `key` of the namespaces `primary` and `secondary`.
pub open spec fn entry_key(primary: Seq<char>, secondary: Seq<char>, key: Seq<char>) -> EntryKey {
    EntryKey { primary, secondary, key }
}

/// The place of the RGB entry `key` of the namespace `secondary`.
pub open spec fn rgb_key(secondary: Seq<char>, key: Seq<char>) -> EntryKey {
    entry_key(RGB_PRIMARY_NS@, secondary, key)
}

/// A failure of the store itself.
pub struct Fault {
    pub kind: ErrorKind,
    pub message: Seq<char>,
    /// Whether the failed write or removal took effect all the same.
    pub applied: bool,
}

impl Fault {
    /// The error with which the failure of a write is reported.
    pub open spec fn write_error(self) -> ErrorView {
        ErrorView { kind: self.kind, message: Some(self.message) }
    }

    /// The error with which the failure of a read or a removal is reported. There, only an entry
    /// that is not there is reported as not found.
    pub open spec fn error(self) -> ErrorView {
        ErrorView {
            kind: if self.kind == ErrorKind::NotFound {
                ErrorKind::Other
            } else {
                self.kind
            },
            message: Some(self.message),
        }
    }
}

/// What the store adds of its own to one call.
pub struct Outcome {
    /// The failure that the call meets, if it meets one.
    pub fault: Option<Fault>,
    /// The words for an entry that is not there.
    pub missing: Seq<char>,
    /// Whether the removal of an entry that is not there is reported as an error.
    pub strict_removal: bool,
}

/// The state of a store: its entries, the places whose removal need not have reached the disk, how
/// often it has been called, and what it adds to each call. Calls are numbered from zero.
pub struct StoreView {
    pub entries: Map<EntryKey, Seq<u8>>,
    pub lazily_removed: Set<EntryKey>,
    pub calls: nat,
    pub outcomes: spec_fn(nat) -> Outcome,
}

impl StoreView {
    /// What the store adds to the next call.
    pub open spec fn next(self) -> Outcome {
        (self.outcomes)(self.calls)
    }

    /// Whether no call meets a failure of the store itself.
    pub open spec fn calm(self) -> bool {
        forall|n: nat| (#[trigger] (self.outcomes)(n)).fault is None
    }

    /// The error for an entry that is not there.
    pub open spec fn missing_error(self) -> ErrorView {
        ErrorView { kind: ErrorKind::NotFound, message: Some(self.next().missing) }
    }

    /// The state after one more call that changes nothing.
    pub open spec fn called(self) -> StoreView {
        StoreView { calls: self.calls + 1, ..self }
    }

    /// The state after one more call, which has written an entry.
    pub open spec fn written(self, key: EntryKey, data: Seq<u8>) -> StoreView {
        StoreView {
            entries: self.entries.insert(key, data),
            lazily_removed: self.lazily_removed.remove(key),
            ..self.called()
        }
    }

    /// The state after one more call, which has removed an entry. Unless it was lazy, the removal
    /// has reached the disk.
    pub open spec fn removed(self, key: EntryKey, lazy: bool) -> StoreView {
        StoreView {
            entries: self.entries.remove(key),
            lazily_removed: if lazy {
                self.lazily_removed.insert(key)
            } else {
                self.lazily_removed.remove(key)
            },
            ..self.called()
        }
    }

    /// Reads an entry.
    pub open spec fn read(self, key: EntryKey) -> (StoreView, Result<Seq<u8>, ErrorView>) {
        (
            self.called(),
            match self.next().fault {
                Some(fault) => Err(fault.error()),
                None => if self.entries.contains_key(key) {
                    Ok(self.entries[key])
                } else {
                    Err(self.missing_error())
                },
            },
        )
    }

    /// Writes an entry, replacing what was there.
    pub open spec fn write(self, key: EntryKey, data: Seq<u8>) -> (
        StoreView,
        Result<(), ErrorView>,
    ) {
        match self.next().fault {
            Some(fault) => (
                if fault.applied {
                    self.written(key, data)
                } else {
                    self.called()
                },
                Err(fault.write_error()),
            ),
            None => (self.written(key, data), Ok(())),
        }
    }

    /// Removes an entry.
    pub open spec fn remove(self, key: EntryKey, lazy: bool) -> (StoreView, Result<(), ErrorView>) {
        match self.next().fault {
            Some(fault) => (
                if fault.applied {
                    self.removed(key, lazy)
                } else {
                    self.called()
                },
                Err(fault.error()),
            ),
            None => (
                self.removed(key, lazy),
                if !self.entries.contains_key(key) && self.next().strict_removal {
                    Err(self.missing_error())
                } else {
                    Ok(())
                },
            ),
        }
    }
}

/// A store of byte strings under two namespaces and a key.
///
/// Implementors keep the last bytes written under each key. A call that fails leaves every other
/// entry as it was, and its own entry either as it was or as if the call had succeeded. A read or a
/// removal reports as not found only an entry that is not there; a write may report any kind.
pub trait KVStoreSync {
    /// The state of the store.
    spec fn view(&self) -> StoreView;

    /// Returns the data stored under the given key.
    fn read(&mut self, primary_namespace: &str, secondary_namespace: &str, key: &str) -> (r: Result<
        Vec<u8>,
        Error,
    >)
        ensures
            final(self)@ == old(self)@.read(
                entry_key(primary_namespace@, secondary_namespace@, key@),
            ).0,
            bytes_view(r) == old(self)@.read(
                entry_key(primary_namespace@, secondary_namespace@, key@),
            ).1,
    ;

    /// Persists the given data under the given key.
    fn write(
        &mut self,
        primary_namespace: &str,
        secondary_namespace: &str,
        key: &str,
        data: Vec<u8>,
    ) -> (r: Result<(), Error>)
        ensures
            final(self)@ == old(self)@.write(
                entry_key(primary_namespace@, secondary_namespace@, key@),
                data@,
            ).0,
            unit_view(r) == old(self)@.write(
                entry_key(primary_namespace@, secondary_namespace@, key@),
                data@,
            ).1,
    ;

    /// Removes any data that had previously been persisted under the given key.
    ///
    /// With `lazy` set, the removal need not reach the disk before the call returns.
    fn remove(
        &mut self,
        primary_namespace: &str,
        secondary_namespace: &str,
        key: &str,
        lazy: bool,
    ) -> (r: Result<(), Error>)
        ensures
            final(self)@ == old(self)@.remove(
                entry_key(primary_namespace@, secondary_namespace@, key@),
                lazy,
            ).0,
            unit_view(r) == old(self)@.remove(
                entry_key(primary_namespace@, secondary_namespace@, key@),
                lazy,
            ).1,
    ;
}

/// Removes an entry; that it is not there is no error.
pub open spec fn clear_entry(store: StoreView, key: EntryKey) -> (
    StoreView,
    Result<(), ErrorView>,
) {
    let (after, removed) = store.remove(key, false);
    (
        after,
        match removed {
            Ok(_) => Ok(()),
            Err(e) => if e.kind == ErrorKind::NotFound {
                Ok(())
            } else {
                Err(e)
            },
        },
    )
}

/// Removes an entry of the RGB data; that it is not there is no error.
pub fn clear_rgb_entry<K: KVStoreSync>(
    kv_store: &mut K,
    secondary_namespace: &str,
    key: &str,
) -> (r: Result<(), Error>)
    ensures
        final(kv_store)@ == clear_entry(
            old(kv_store)@,
            rgb_key(secondary_namespace@, key@),
        ).0,
        unit_view(r) == clear_entry(old(kv_store)@, rgb_key(secondary_namespace@, key@)).1,
{
    match kv_store.remove(RGB_PRIMARY_NS, secondary_namespace, key, false) {
        Ok(_) => Ok(()),
        Err(e) => {
            if e.kind() == ErrorKind::NotFound {
                Ok(())
            } else {
                Err(e)
            }
        },
    }
}

/// Namespaces that hold different kinds of data are different.
pub proof fn namespaces_differ()
    ensures
        RGB_CHANNEL_INFO_NS@ != RGB_CHANNEL_INFO_PENDING_NS@,
        RGB_CHANNEL_INFO_NS@ != RGB_FUNDING_ACCEPTANCE_NS@,
        RGB_CHANNEL_INFO_NS@ != RGB_CONSIGNMENT_NS@,
        RGB_CHANNEL_INFO_PENDING_NS@ != RGB_FUNDING_ACCEPTANCE_NS@,
        RGB_CHANNEL_INFO_PENDING_NS@ != RGB_CONSIGNMENT_NS@,
        RGB_FUNDING_ACCEPTANCE_NS@ != RGB_CONSIGNMENT_NS@,
        RGB_PAYMENT_INFO_INBOUND_NS@ != RGB_PAYMENT_INFO_OUTBOUND_NS@,
        RGB_TRANSFER_INFO_NS@ != RGB_COMMITMENT_FASCIA_NS@,
{
    reveal_strlit("channel_info");
    reveal_strlit("channel_info_pending");
    reveal_strlit("funding_acceptance");
    reveal_strlit("consignment");
    reveal_strlit("payment_info_inbound");
    reveal_strlit("payment_info_outbound");
    reveal_strlit("transfer_info");
    reveal_strlit("commitment_fascia");
    assert(RGB_CHANNEL_INFO_NS@.len() == 12);
    assert(RGB_CHANNEL_INFO_PENDING_NS@.len() == 20);
    assert(RGB_FUNDING_ACCEPTANCE_NS@.len() == 18);
    assert(RGB_CONSIGNMENT_NS@.len() == 11);
    assert(RGB_PAYMENT_INFO_INBOUND_NS@.len() == 20);
    assert(RGB_PAYMENT_INFO_OUTBOUND_NS@.len() == 21);
    assert(RGB_TRANSFER_INFO_NS@.len() == 13);
    assert(RGB_COMMITMENT_FASCIA_NS@.len() == 17);
}

/// A read changes nothing. It gives the entry that is there, reports one that is not there as not
/// found, and a failure of the store in its own words, never as not found.
pub proof fn reading_finds_what_is_there(store: StoreView, key: EntryKey)
    ensures
        ({
            let (after, result) = store.read(key);
            &&& after.entries == store.entries
            &&& after.lazily_removed == store.lazily_removed
            &&& after.outcomes == store.outcomes
            &&& after.calls == store.calls + 1
            &&& match (store.outcomes)(store.calls).fault {
                Some(fault) => result matches Err(e) && e.message == Some(fault.message) && e.kind
                    == if fault.kind == ErrorKind::NotFound {
                    ErrorKind::Other
                } else {
                    fault.kind
                },
                None => if store.entries.contains_key(key) {
                    result == Ok::<Seq<u8>, ErrorView>(store.entries[key])
                } else {
                    result matches Err(e) && e.kind == ErrorKind::NotFound && e.message == Some(
                        (store.outcomes)(store.calls).missing,
                    )
                },
            }
        }),
{
}

/// A write that succeeds replaces one entry. One that fails leaves the entry as it was or replaces
/// it all the same, and is reported in the words of the store. No other entry changes.
pub proof fn writing_replaces_one_entry(
    store: StoreView,
    key: EntryKey,
    data: Seq<u8>,
    other: EntryKey,
)
    ensures
        ({
            let (after, result) = store.write(key, data);
            &&& after.outcomes == store.outcomes
            &&& after.calls == store.calls + 1
            &&& match (store.outcomes)(store.calls).fault {
                Some(fault) => {
                    &&& result matches Err(e) && e.kind == fault.kind && e.message == Some(
                        fault.message,
                    )
                    &&& fault.applied ==> after.entries.contains_key(key) && after.entries[key]
                        == data
                    &&& !fault.applied ==> after.entries == store.entries
                },
                None => {
                    &&& result is Ok
                    &&& after.entries.contains_key(key)
                    &&& after.entries[key] == data
                    &&& !after.lazily_removed.contains(key)
                },
            }
            &&& other != key ==> {
                &&& after.entries.contains_key(other) == store.entries.contains_key(other)
                &&& after.entries[other] == store.entries[other]
            }
        }),
{
}

/// A removal takes one entry away, and leaves it open whether that has reached the disk only if it
/// is lazy. One that fails leaves the entry as it was or takes it away all the same. No other entry
/// changes.
pub proof fn removing_takes_one_entry_away(
    store: StoreView,
    key: EntryKey,
    lazy: bool,
    other: EntryKey,
)
    ensures
        ({
            let (after, result) = store.remove(key, lazy);
            &&& after.outcomes == store.outcomes
            &&& after.calls == store.calls + 1
            &&& match (store.outcomes)(store.calls).fault {
                Some(fault) => {
                    &&& result matches Err(e) && e.message == Some(fault.message) && e.kind
                        != ErrorKind::NotFound
                    &&& fault.applied ==> !after.entries.contains_key(key)
                    &&& !fault.applied ==> after.entries == store.entries
                },
                None => {
                    &&& !after.entries.contains_key(key)
                    &&& after.lazily_removed.contains(key) == lazy
                    &&& store.entries.contains_key(key) ==> result is Ok
                    &&& (result matches Err(e) ==> e.kind == ErrorKind::NotFound)
                },
            }
            &&& other != key ==> {
                &&& after.entries.contains_key(other) == store.entries.contains_key(other)
                &&& after.entries[other] == store.entries[other]
            }
        }),
{
}

/// Clearing an entry removes it for good. It succeeds unless the store itself fails: that the entry
/// is not there is no error. No other entry changes.
pub proof fn clearing_succeeds_unless_the_store_fails(
    store: StoreView,
    key: EntryKey,
    other: EntryKey,
)
    ensures
        ({
            let (after, result) = clear_entry(store, key);
            &&& after.outcomes == store.outcomes
            &&& after.calls == store.calls + 1
            &&& result is Ok <==> (store.outcomes)(store.calls).fault is None
            &&& result is Ok ==> !after.entries.contains_key(key) && !after.lazily_removed.contains(
                key,
            )
            &&& (store.outcomes)(store.calls).fault matches Some(fault) ==> (result matches Err(e)
                && e.message == Some(fault.message) && e.kind != ErrorKind::NotFound)
            &&& other != key ==> {
                &&& after.entries.contains_key(other) == store.entries.contains_key(other)
                &&& after.entries[other] == store.entries[other]
            }
        }),
{
}

/// A store is calm exactly if none of its calls, past or to come, meets a failure.
pub proof fn calm_store_meets_no_failure(store: StoreView)
    ensures
        store.calm() <==> forall|n: nat| (#[trigger] (store.outcomes)(n)).fault is None,
        store.next() == (store.outcomes)(store.calls),
        store.called().entries == store.entries,
        store.called().lazily_removed == store.lazily_removed,
        store.called().outcomes == store.outcomes,
        store.called().calls == store.calls + 1,
{
}

} // verus!
