//! The RGB side of a channel: its balances, and the payments that pass through it.

use vstd::prelude::*;
use crate::errors::Error;
#[allow(unused_imports)]
use crate::errors::{unit_view, ErrorView};
use crate::info::{ContractId, RgbInfo, RgbPaymentInfo};
#[allow(unused_imports)]
use crate::info::{encode_info, encode_payment, info_view, RgbInfoView, RgbPaymentInfoView};
use crate::records::{payment_info_namespace, ChannelId, PaymentHash, RgbKvStoreExt};
#[allow(unused_imports)]
use crate::records::{
    info_key, payment_key, read_info, stored_info, stored_payment, write_info, write_payment,
};
use crate::store::{KVStoreSync, RGB_PRIMARY_NS};
#[allow(unused_imports)]
use crate::store::{namespaces_differ, EntryKey, StoreView};
use crate::text::join;
#[allow(unused_imports)]
use crate::text::hex;

verus! {

/// Get channel info from the store
pub fn get_rgb_channel_info<K: KVStoreSync>(
    channel_id: &str,
    pending: bool,
    kv_store: &mut K,
) -> (r: Result<RgbInfo, Error>)
    ensures
        final(kv_store)@ == read_info(old(kv_store)@, channel_id@, pending).0,
        info_view(r) == read_info(old(kv_store)@, channel_id@, pending).1,
{
    kv_store.read_rgb_channel_info(channel_id, pending)
}

/// Get pending channel info from the store
pub fn get_rgb_channel_info_pending<K: KVStoreSync>(channel_id: &ChannelId, kv_store: &mut K) -> (r:
    Result<RgbInfo, Error>)
    ensures
        final(kv_store)@ == read_info(old(kv_store)@, hex(channel_id@), true).0,
        info_view(r) == read_info(old(kv_store)@, hex(channel_id@), true).1,
{
    let channel_id: String = channel_id.to_hex();
    get_rgb_channel_info(channel_id.as_str(), true, kv_store)
}

/// Whether the channel has RGB data in the store
pub fn is_channel_rgb<K: KVStoreSync>(channel_id: &ChannelId, kv_store: &mut K) -> (r: bool)
    ensures
        final(kv_store)@ == read_info(old(kv_store)@, hex(channel_id@), false).0,
        r == (read_info(old(kv_store)@, hex(channel_id@), false).1 is Ok),
{
    let channel_id: String = channel_id.to_hex();
    kv_store.read_rgb_channel_info(channel_id.as_str(), false).is_ok()
}

/// The key under which payment info waits for the first channel that carries the payment.
pub open spec fn pending_payment_key(payment_hash: Seq<u8>) -> Seq<char> {
    hex(payment_hash) + "_pending"@
}

/// The payment info of a payment that no channel carries yet.
pub open spec fn fresh_payment(
    contract_id: Seq<u8>,
    amount: u64,
    swap_payment: bool,
    inbound: bool,
) -> RgbPaymentInfoView {
    RgbPaymentInfoView {
        contract_id,
        amount,
        local_rgb_amount: 0,
        remote_rgb_amount: 0,
        swap_payment,
        inbound,
    }
}

/// Writes the info of a new payment: for the payment itself, then for its first channel.
pub open spec fn write_fresh_payment(
    store: StoreView,
    payment_hash: Seq<u8>,
    info: RgbPaymentInfoView,
) -> (StoreView, Result<(), ErrorView>) {
    let (written, result) = write_payment(store, hex(payment_hash), info, info.inbound);
    match result {
        Ok(_) => write_payment(written, pending_payment_key(payment_hash), info, info.inbound),
        Err(e) => (written, Err(e)),
    }
}

/// The key under which payment info waits for the first channel that carries the payment.
pub fn pending_payment_text(payment_hash: &PaymentHash) -> (r: String)
    ensures
        r@ == pending_payment_key(payment_hash@),
{
    let hash: String = payment_hash.to_hex();
    join(hash.as_str(), "_pending")
}

/// Write RGB payment info to the store
///
/// Once it has succeeded, the store holds the info both for the payment and for its first channel.
pub fn write_rgb_payment_info_file<K: KVStoreSync>(
    payment_hash: &PaymentHash,
    contract_id: ContractId,
    amount_rgb: u64,
    swap_payment: bool,
    inbound: bool,
    kv_store: &mut K,
) -> (r: Result<(), Error>)
    ensures
        ({
            let info = fresh_payment(contract_id@, amount_rgb, swap_payment, inbound);
            let run = write_fresh_payment(old(kv_store)@, payment_hash@, info);
            &&& final(kv_store)@ == run.0
            &&& unit_view(r) == run.1
            &&& r is Ok ==> stored_payment(final(kv_store)@, hex(payment_hash@), inbound) == Some(
                info,
            )
            &&& r is Ok ==> stored_payment(
                final(kv_store)@,
                pending_payment_key(payment_hash@),
                inbound,
            ) == Some(info)
        }),
{
    let info = RgbPaymentInfo {
        contract_id,
        amount: amount_rgb,
        local_rgb_amount: 0,
        remote_rgb_amount: 0,
        swap_payment,
        inbound,
    };
    match kv_store.write_rgb_payment_info(payment_hash, &info) {
        Ok(_) => {},
        Err(e) => return Err(e),
    }
    let pending_key: String = pending_payment_text(payment_hash);
    proof {
        pending_key_differs(payment_hash@);
    }
    let data: Vec<u8> = info.to_bytes();
    kv_store.write(RGB_PRIMARY_NS, payment_info_namespace(inbound), pending_key.as_str(), data)
}

proof fn pending_key_differs(payment_hash: Seq<u8>)
    ensures
        pending_payment_key(payment_hash) != hex(payment_hash),
{
    reveal_strlit("_pending");
    assert(pending_payment_key(payment_hash).len() == hex(payment_hash).len() + 8);
}

/// Notes in one of the two infos of a channel that the counterparty knows the asset, if that info
/// can be read.
pub open spec fn note_known(store: StoreView, channel_id: Seq<char>, pending: bool) -> (
    StoreView,
    Result<(), ErrorView>,
) {
    let (after, read) = read_info(store, channel_id, pending);
    match read {
        Ok(info) => write_info(after, channel_id, noted(info), pending),
        Err(_) => (after, Ok(())),
    }
}

/// Notes it in the pending info, then in the current one.
pub open spec fn note_known_in_both(store: StoreView, channel_id: Seq<char>) -> (
    StoreView,
    Result<(), ErrorView>,
) {
    let (after, first) = note_known(store, channel_id, true);
    match first {
        Ok(_) => note_known(after, channel_id, false),
        Err(e) => (after, Err(e)),
    }
}

fn note_asset_known<K: KVStoreSync>(channel_id: &str, pending: bool, kv_store: &mut K) -> (r:
    Result<(), Error>)
    ensures
        final(kv_store)@ == note_known(old(kv_store)@, channel_id@, pending).0,
        unit_view(r) == note_known(old(kv_store)@, channel_id@, pending).1,
        final(kv_store)@.outcomes == old(kv_store)@.outcomes,
        old(kv_store)@.calm() ==> r is Ok && match stored_info(
            old(kv_store)@,
            channel_id@,
            pending,
        ) {
            Some(info) => stored_info(final(kv_store)@, channel_id@, pending) == Some(noted(info)),
            None => stored_info(final(kv_store)@, channel_id@, pending) is None,
        },
{
    proof {
        let (after, _) = read_info(kv_store@, channel_id@, pending);
        assert(kv_store@.calm() ==> kv_store@.next().fault is None);
        assert(kv_store@.calm() ==> after.next().fault is None);
    }
    match kv_store.read_rgb_channel_info(channel_id, pending) {
        Ok(info) => {
            let noted = RgbInfo { counterparty_knows_asset: true, ..info };
            kv_store.write_rgb_channel_info(channel_id, &noted, pending)
        },
        Err(_) => Ok(()),
    }
}

/// The info with a note that the counterparty knows the asset.
pub open spec fn noted(info: RgbInfoView) -> RgbInfoView {
    RgbInfoView { counterparty_knows_asset: true, ..info }
}

/// Notes that the counterparty of a channel knows the asset, in each info of the channel that there
/// is.
///
/// Where no call fails, each info that the store held is held with the note.
pub fn set_counterparty_knows_asset<K: KVStoreSync>(channel_id: &ChannelId, kv_store: &mut K) -> (r:
    Result<(), Error>)
    ensures
        final(kv_store)@ == note_known_in_both(old(kv_store)@, hex(channel_id@)).0,
        unit_view(r) == note_known_in_both(old(kv_store)@, hex(channel_id@)).1,
        old(kv_store)@.calm() ==> r is Ok && forall|pending: bool|
            match #[trigger] stored_info(old(kv_store)@, hex(channel_id@), pending) {
                Some(info) => stored_info(final(kv_store)@, hex(channel_id@), pending) == Some(
                    noted(info),
                ),
                None => stored_info(final(kv_store)@, hex(channel_id@), pending) is None,
            },
{
    proof {
        namespaces_differ();
    }
    let channel_id: String = channel_id.to_hex();
    match note_asset_known(channel_id.as_str(), true, kv_store) {
        Ok(_) => note_asset_known(channel_id.as_str(), false, kv_store),
        Err(e) => Err(e),
    }
}

/// Whether the balances stay in range when `offered` leaves and `received` enters.
pub open spec fn amounts_fit(info: RgbInfoView, offered: u64, received: u64) -> bool {
    &&& 0 <= info.local_rgb_amount - offered + received <= u64::MAX
    &&& 0 <= info.remote_rgb_amount + offered - received <= u64::MAX
}

/// The info after `offered` has left and `received` has entered.
pub open spec fn settled(info: RgbInfoView, offered: u64, received: u64) -> RgbInfoView {
    RgbInfoView {
        local_rgb_amount: (info.local_rgb_amount - offered + received) as u64,
        remote_rgb_amount: (info.remote_rgb_amount + offered - received) as u64,
        ..info
    }
}

/// Reads the info of a channel, moves the amounts, and writes it back.
pub open spec fn settle(
    store: StoreView,
    channel_id: Seq<char>,
    offered: u64,
    received: u64,
    pending: bool,
) -> (StoreView, Result<(), ErrorView>) {
    let (after, read) = read_info(store, channel_id, pending);
    match read {
        Ok(info) => write_info(after, channel_id, settled(info, offered, received), pending),
        Err(e) => (after, Err(e)),
    }
}

/// Whether the stored balances of a channel, if there are any, stay in range.
pub open spec fn stored_amounts_fit(
    store: StoreView,
    channel_id: Seq<char>,
    offered: u64,
    received: u64,
    pending: bool,
) -> bool {
    match stored_info(store, channel_id, pending) {
        Some(info) => amounts_fit(info, offered, received),
        None => true,
    }
}

/// Whether the balances stay in range when `offered` leaves and `received` enters.
pub fn check_amounts_fit(info: &RgbInfo, offered: u64, received: u64) -> (r: bool)
    ensures
        r == amounts_fit(info@, offered, received),
{
    if offered > received {
        let spent: u64 = offered - received;
        info.local_rgb_amount >= spent && info.remote_rgb_amount <= u64::MAX - spent
    } else {
        let gained: u64 = received - offered;
        info.remote_rgb_amount >= gained && info.local_rgb_amount <= u64::MAX - gained
    }
}

/// The info after `offered` has left and `received` has entered.
pub fn settle_amounts(info: RgbInfo, offered: u64, received: u64) -> (r: RgbInfo)
    requires
        amounts_fit(info@, offered, received),
    ensures
        r@ == settled(info@, offered, received),
{
    if offered > received {
        let spent: u64 = offered - received;
        RgbInfo {
            local_rgb_amount: info.local_rgb_amount - spent,
            remote_rgb_amount: info.remote_rgb_amount + spent,
            ..info
        }
    } else {
        let gained: u64 = received - offered;
        RgbInfo {
            local_rgb_amount: info.local_rgb_amount + gained,
            remote_rgb_amount: info.remote_rgb_amount - gained,
            ..info
        }
    }
}

/// Update RGB channel amount in the store
pub fn update_rgb_channel_amount<K: KVStoreSync>(
    channel_id: &str,
    rgb_offered_htlc: u64,
    rgb_received_htlc: u64,
    pending: bool,
    kv_store: &mut K,
) -> (r: Result<(), Error>)
    requires
        stored_amounts_fit(
            old(kv_store)@,
            channel_id@,
            rgb_offered_htlc,
            rgb_received_htlc,
            pending,
        ),
    ensures
        ({
            let run = settle(
                old(kv_store)@,
                channel_id@,
                rgb_offered_htlc,
                rgb_received_htlc,
                pending,
            );
            final(kv_store)@ == run.0 && unit_view(r) == run.1
        }),
        r is Ok ==> stored_info(final(kv_store)@, channel_id@, pending) == Some(
            settled(
                stored_info(old(kv_store)@, channel_id@, pending).unwrap(),
                rgb_offered_htlc,
                rgb_received_htlc,
            ),
        ),
        r is Ok ==> {
            let before = stored_info(old(kv_store)@, channel_id@, pending).unwrap();
            let after = stored_info(final(kv_store)@, channel_id@, pending).unwrap();
            &&& after.local_rgb_amount + rgb_offered_htlc == before.local_rgb_amount
                + rgb_received_htlc
            &&& after.remote_rgb_amount + rgb_received_htlc == before.remote_rgb_amount
                + rgb_offered_htlc
            &&& after.contract_id == before.contract_id
            &&& after.schema == before.schema
            &&& after.batch_transfer_idx == before.batch_transfer_idx
            &&& after.counterparty_knows_asset == before.counterparty_knows_asset
        },
{
    let info: RgbInfo = match get_rgb_channel_info(channel_id, pending, kv_store) {
        Ok(info) => info,
        Err(e) => return Err(e),
    };
    let updated: RgbInfo = settle_amounts(info, rgb_offered_htlc, rgb_received_htlc);
    kv_store.write_rgb_channel_info(channel_id, &updated, pending)
}

/// Update RGB channel amount in the store, unless a balance would leave its range
///
/// The balances are looked at first. Where they would leave their range, the result is `None` and
/// nothing is written.
pub fn try_update_rgb_channel_amount<K: KVStoreSync>(
    channel_id: &str,
    rgb_offered_htlc: u64,
    rgb_received_htlc: u64,
    pending: bool,
    kv_store: &mut K,
) -> (r: Option<Result<(), Error>>)
    ensures
        ({
            let (looked, read) = read_info(old(kv_store)@, channel_id@, pending);
            match read {
                Err(e) => {
                    &&& final(kv_store)@ == looked
                    &&& r matches Some(Err(error)) && error@ == e
                },
                Ok(info) => if amounts_fit(info, rgb_offered_htlc, rgb_received_htlc) {
                    let run = settle(
                        looked,
                        channel_id@,
                        rgb_offered_htlc,
                        rgb_received_htlc,
                        pending,
                    );
                    &&& final(kv_store)@ == run.0
                    &&& r matches Some(result) && unit_view(result) == run.1
                } else {
                    final(kv_store)@ == looked && r is None
                },
            }
        }),
        r matches Some(Ok(_)) ==> stored_info(final(kv_store)@, channel_id@, pending) == Some(
            settled(
                stored_info(old(kv_store)@, channel_id@, pending).unwrap(),
                rgb_offered_htlc,
                rgb_received_htlc,
            ),
        ),
        r matches Some(Ok(_)) ==> {
            let before = stored_info(old(kv_store)@, channel_id@, pending).unwrap();
            let after = stored_info(final(kv_store)@, channel_id@, pending).unwrap();
            &&& after.local_rgb_amount + rgb_offered_htlc == before.local_rgb_amount
                + rgb_received_htlc
            &&& after.remote_rgb_amount + rgb_received_htlc == before.remote_rgb_amount
                + rgb_offered_htlc
            &&& after.contract_id == before.contract_id
            &&& after.schema == before.schema
            &&& after.batch_transfer_idx == before.batch_transfer_idx
            &&& after.counterparty_knows_asset == before.counterparty_knows_asset
        },
{
    let info: RgbInfo = match get_rgb_channel_info(channel_id, pending, kv_store) {
        Ok(info) => info,
        Err(e) => return Some(Err(e)),
    };
    if !check_amounts_fit(&info, rgb_offered_htlc, rgb_received_htlc) {
        return None;
    }
    Some(
        update_rgb_channel_amount(
            channel_id,
            rgb_offered_htlc,
            rgb_received_htlc,
            pending,
            kv_store,
        ),
    )
}

/// Update pending RGB channel amount
pub fn update_rgb_channel_amount_pending<K: KVStoreSync>(
    channel_id: &ChannelId,
    rgb_offered_htlc: u64,
    rgb_received_htlc: u64,
    kv_store: &mut K,
) -> (r: Result<(), Error>)
    requires
        stored_amounts_fit(
            old(kv_store)@,
            hex(channel_id@),
            rgb_offered_htlc,
            rgb_received_htlc,
            true,
        ),
    ensures
        ({
            let run = settle(
                old(kv_store)@,
                hex(channel_id@),
                rgb_offered_htlc,
                rgb_received_htlc,
                true,
            );
            final(kv_store)@ == run.0 && unit_view(r) == run.1
        }),
        r is Ok ==> stored_info(final(kv_store)@, hex(channel_id@), true) == Some(
            settled(
                stored_info(old(kv_store)@, hex(channel_id@), true).unwrap(),
                rgb_offered_htlc,
                rgb_received_htlc,
            ),
        ),
        r is Ok ==> {
            let before = stored_info(old(kv_store)@, hex(channel_id@), true).unwrap();
            let after = stored_info(final(kv_store)@, hex(channel_id@), true).unwrap();
            &&& after.local_rgb_amount + rgb_offered_htlc == before.local_rgb_amount
                + rgb_received_htlc
            &&& after.remote_rgb_amount + rgb_received_htlc == before.remote_rgb_amount
                + rgb_offered_htlc
            &&& after.contract_id == before.contract_id
            &&& after.schema == before.schema
            &&& after.batch_transfer_idx == before.batch_transfer_idx
            &&& after.counterparty_knows_asset == before.counterparty_knows_asset
        },
{
    let channel_id: String = channel_id.to_hex();
    update_rgb_channel_amount(
        channel_id.as_str(),
        rgb_offered_htlc,
        rgb_received_htlc,
        true,
        kv_store,
    )
}

/// Update pending RGB channel amount, unless a balance would leave its range
///
/// The balances are looked at first. Where they would leave their range, the result is `None` and
/// nothing is written.
pub fn try_update_rgb_channel_amount_pending<K: KVStoreSync>(
    channel_id: &ChannelId,
    rgb_offered_htlc: u64,
    rgb_received_htlc: u64,
    kv_store: &mut K,
) -> (r: Option<Result<(), Error>>)
    ensures
        ({
            let (looked, read) = read_info(old(kv_store)@, hex(channel_id@), true);
            match read {
                Err(e) => {
                    &&& final(kv_store)@ == looked
                    &&& r matches Some(Err(error)) && error@ == e
                },
                Ok(info) => if amounts_fit(info, rgb_offered_htlc, rgb_received_htlc) {
                    let run = settle(
                        looked,
                        hex(channel_id@),
                        rgb_offered_htlc,
                        rgb_received_htlc,
                        true,
                    );
                    &&& final(kv_store)@ == run.0
                    &&& r matches Some(result) && unit_view(result) == run.1
                } else {
                    final(kv_store)@ == looked && r is None
                },
            }
        }),
        r matches Some(Ok(_)) ==> stored_info(final(kv_store)@, hex(channel_id@), true) == Some(
            settled(
                stored_info(old(kv_store)@, hex(channel_id@), true).unwrap(),
                rgb_offered_htlc,
                rgb_received_htlc,
            ),
        ),
        r matches Some(Ok(_)) ==> {
            let before = stored_info(old(kv_store)@, hex(channel_id@), true).unwrap();
            let after = stored_info(final(kv_store)@, hex(channel_id@), true).unwrap();
            &&& after.local_rgb_amount + rgb_offered_htlc == before.local_rgb_amount
                + rgb_received_htlc
            &&& after.remote_rgb_amount + rgb_received_htlc == before.remote_rgb_amount
                + rgb_offered_htlc
            &&& after.contract_id == before.contract_id
            &&& after.schema == before.schema
            &&& after.batch_transfer_idx == before.batch_transfer_idx
            &&& after.counterparty_knows_asset == before.counterparty_knows_asset
        },
{
    let info: RgbInfo = match get_rgb_channel_info_pending(channel_id, kv_store) {
        Ok(info) => info,
        Err(e) => return Some(Err(e)),
    };
    if !check_amounts_fit(&info, rgb_offered_htlc, rgb_received_htlc) {
        return None;
    }
    Some(
        update_rgb_channel_amount_pending(
            channel_id,
            rgb_offered_htlc,
            rgb_received_htlc,
            kv_store,
        ),
    )
}

/// Settling moves amounts between the two sides and creates or loses none.
pub proof fn settling_conserves_the_total(info: RgbInfoView, offered: u64, received: u64)
    requires
        amounts_fit(info, offered, received),
    ensures
        settled(info, offered, received).local_rgb_amount + settled(
            info,
            offered,
            received,
        ).remote_rgb_amount == info.local_rgb_amount + info.remote_rgb_amount,
        settled(info, offered, received).contract_id == info.contract_id,
        settled(info, offered, received).schema == info.schema,
{
}

/// Settling the same amounts the other way round restores the info.
pub proof fn settling_back_restores(info: RgbInfoView, offered: u64, received: u64)
    requires
        amounts_fit(info, offered, received),
    ensures
        amounts_fit(settled(info, offered, received), received, offered),
        settled(settled(info, offered, received), received, offered) == info,
{
}

/// Settling twice is settling the sums.
pub proof fn settling_adds_up(
    info: RgbInfoView,
    offered: u64,
    received: u64,
    offered_later: u64,
    received_later: u64,
)
    requires
        amounts_fit(info, offered, received),
        amounts_fit(settled(info, offered, received), offered_later, received_later),
        offered + offered_later <= u64::MAX,
        received + received_later <= u64::MAX,
    ensures
        amounts_fit(
            info,
            (offered + offered_later) as u64,
            (received + received_later) as u64,
        ),
        settled(
            info,
            (offered + offered_later) as u64,
            (received + received_later) as u64,
        ) == settled(settled(info, offered, received), offered_later, received_later),
{
}

/// Noting that the asset is known changes no entry but the two infos of the channel, and creates
/// none.
pub proof fn noting_touches_only_the_channel(
    store: StoreView,
    channel_id: Seq<char>,
    key: EntryKey,
)
    ensures
        ({
            let after = note_known_in_both(store, channel_id).0;
            &&& after.entries.contains_key(key) == store.entries.contains_key(key)
            &&& (key != info_key(channel_id, true) && key != info_key(channel_id, false)
                ==> after.entries[key] == store.entries[key])
        }),
{
    let (first, read) = note_known(store, channel_id, true);
    assert(first.entries.contains_key(key) == store.entries.contains_key(key));
}

/// Writing the info of a new payment changes no entry but the one of the payment and the one that
/// waits for its first channel.
pub proof fn new_payment_touches_only_itself(
    store: StoreView,
    payment_hash: Seq<u8>,
    info: RgbPaymentInfoView,
    key: EntryKey,
)
    requires
        key != payment_key(hex(payment_hash), info.inbound),
        key != payment_key(pending_payment_key(payment_hash), info.inbound),
    ensures
        ({
            let after = write_fresh_payment(store, payment_hash, info).0;
            &&& after.entries.contains_key(key) == store.entries.contains_key(key)
            &&& after.entries[key] == store.entries[key]
        }),
{
}

/// Whether amounts can be settled is a matter of the two balances alone: neither may fall below
/// zero, nor leave the range of its type.
pub proof fn balances_must_stay_in_range(info: RgbInfoView, offered: u64, received: u64)
    ensures
        amounts_fit(info, offered, received) <==> {
            &&& offered <= info.local_rgb_amount + received
            &&& info.local_rgb_amount + received <= offered + u64::MAX
            &&& received <= info.remote_rgb_amount + offered
            &&& info.remote_rgb_amount + offered <= received + u64::MAX
        },
{
}

/// What is offered leaves the local side for the remote one, and what is received comes the other
/// way, whatever the asset is. Nothing else of the info changes.
pub proof fn settling_takes_what_was_offered_from_the_local_side(
    info: RgbInfoView,
    offered: u64,
    received: u64,
)
    requires
        offered <= info.local_rgb_amount + received,
        info.local_rgb_amount + received <= offered + u64::MAX,
        received <= info.remote_rgb_amount + offered,
        info.remote_rgb_amount + offered <= received + u64::MAX,
    ensures
        ({
            let after = settled(info, offered, received);
            &&& after.local_rgb_amount + offered == info.local_rgb_amount + received
            &&& after.remote_rgb_amount + received == info.remote_rgb_amount + offered
            &&& offered > received ==> after.local_rgb_amount < info.local_rgb_amount
                && after.remote_rgb_amount > info.remote_rgb_amount
            &&& offered < received ==> after.local_rgb_amount > info.local_rgb_amount
                && after.remote_rgb_amount < info.remote_rgb_amount
            &&& after.contract_id == info.contract_id
            &&& after.schema == info.schema
            &&& after.batch_transfer_idx == info.batch_transfer_idx
            &&& after.counterparty_knows_asset == info.counterparty_knows_asset
        }),
{
}

/// An update succeeds if and only if the info is held and neither the read nor the write fails. It
/// then leaves the moved balances in the place of the info, and changes no other entry. Where the
/// info cannot be read, nothing changes.
pub proof fn update_writes_the_moved_balances(
    store: StoreView,
    channel_id: Seq<char>,
    offered: u64,
    received: u64,
    pending: bool,
)
    ensures
        ({
            let (after, result) = settle(store, channel_id, offered, received, pending);
            let held = stored_info(store, channel_id, pending);
            let readable = (store.outcomes)(store.calls).fault is None && held is Some;
            &&& result is Ok <==> readable && (store.outcomes)(store.calls + 1).fault is None
            &&& !readable ==> after.entries == store.entries
            &&& result is Ok && stored_amounts_fit(store, channel_id, offered, received, pending)
                ==> exists|moved: RgbInfoView|
                {
                    &&& after.entries == store.entries.insert(
                        info_key(channel_id, pending),
                        #[trigger] encode_info(moved),
                    )
                    &&& moved.local_rgb_amount + offered == held.unwrap().local_rgb_amount
                        + received
                    &&& moved.remote_rgb_amount + received == held.unwrap().remote_rgb_amount
                        + offered
                    &&& moved.contract_id == held.unwrap().contract_id
                    &&& moved.schema == held.unwrap().schema
                    &&& moved.batch_transfer_idx == held.unwrap().batch_transfer_idx
                    &&& moved.counterparty_knows_asset == held.unwrap().counterparty_knows_asset
                }
        }),
        stored_amounts_fit(store, channel_id, offered, received, pending) <==> (stored_info(
            store,
            channel_id,
            pending,
        ) matches Some(info) ==> {
            &&& offered <= info.local_rgb_amount + received
            &&& info.local_rgb_amount + received <= offered + u64::MAX
            &&& received <= info.remote_rgb_amount + offered
            &&& info.remote_rgb_amount + offered <= received + u64::MAX
        }),
{
    let (after, result) = settle(store, channel_id, offered, received, pending);
    if result is Ok {
        let info = stored_info(store, channel_id, pending).unwrap();
        let moved = settled(info, offered, received);
        assert(after.entries == store.entries.insert(
            info_key(channel_id, pending),
            encode_info(moved),
        ));
    }
}

/// Noting that the asset is known sets the note and nothing else, in each of the two infos that
/// can be read. An info that cannot be read is passed over; a write that fails is reported, and
/// ends it.
pub proof fn noting_sets_only_the_note(store: StoreView, channel_id: Seq<char>, pending: bool)
    ensures
        ({
            let (after, result) = note_known(store, channel_id, pending);
            match stored_info(store, channel_id, pending) {
                Some(info) => if (store.outcomes)(store.calls).fault is None {
                    &&& result is Ok <==> (store.outcomes)(store.calls + 1).fault is None
                    &&& result is Ok ==> after.entries == store.entries.insert(
                        info_key(channel_id, pending),
                        encode_info(RgbInfoView { counterparty_knows_asset: true, ..info }),
                    )
                } else {
                    result is Ok && after.entries == store.entries
                },
                None => result is Ok && after.entries == store.entries,
            }
        }),
        ({
            let (first, noted_pending) = note_known(store, channel_id, true);
            match noted_pending {
                Ok(_) => note_known_in_both(store, channel_id) == note_known(
                    first,
                    channel_id,
                    false,
                ),
                Err(e) => note_known_in_both(store, channel_id) == (first, Err::<(), ErrorView>(e)),
            }
        }),
        forall|info: RgbInfoView| #[trigger] noted(info) == (RgbInfoView {
            counterparty_knows_asset: true,
            ..info
        }),
{
}

/// A new payment has no balances yet, and is kept twice: under its hash, and under its hash and
/// `_pending`, for the first channel that carries it. Both stand in the direction of the payment.
/// Writing it succeeds if and only if neither write fails.
pub proof fn new_payment_is_kept_for_itself_and_for_its_first_channel(
    store: StoreView,
    payment_hash: Seq<u8>,
    contract_id: Seq<u8>,
    amount: u64,
    swap_payment: bool,
    inbound: bool,
)
    ensures
        ({
            let info = RgbPaymentInfoView {
                contract_id,
                amount,
                local_rgb_amount: 0,
                remote_rgb_amount: 0,
                swap_payment,
                inbound,
            };
            let (after, result) = write_fresh_payment(
                store,
                payment_hash,
                fresh_payment(contract_id, amount, swap_payment, inbound),
            );
            &&& fresh_payment(contract_id, amount, swap_payment, inbound) == info
            &&& pending_payment_key(payment_hash) == hex(payment_hash) + "_pending"@
            &&& result is Ok <==> (store.outcomes)(store.calls).fault is None && (store.outcomes)(
                store.calls + 1,
            ).fault is None
            &&& result is Ok ==> after.entries == store.entries.insert(
                payment_key(hex(payment_hash), inbound),
                encode_payment(info),
            ).insert(
                payment_key(hex(payment_hash) + "_pending"@, inbound),
                encode_payment(info),
            )
        }),
{
}

} // verus!
