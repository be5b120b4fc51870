//! The payment info of the HTLCs that a commitment carries.

use vstd::prelude::*;
use crate::channel::pending_payment_text;
#[allow(unused_imports)]
use crate::channel::pending_payment_key;
use crate::errors::Error;
#[allow(unused_imports)]
use crate::errors::{undecodable, unit_view, ErrorKind, ErrorView};
use crate::info::{ContractId, RgbInfo, RgbPaymentInfo};
#[allow(unused_imports)]
use crate::info::{decode_payment, encode_payment, payment_view, RgbInfoView, RgbPaymentInfoView};
use crate::records::{payment_info_namespace, PaymentHash, RgbKvStoreExt};
#[allow(unused_imports)]
use crate::records::{payment_key, read_payment, stored_payment, write_payment};
use crate::store::{KVStoreSync, RGB_PRIMARY_NS};
#[allow(unused_imports)]
use crate::store::{namespaces_differ, EntryKey, StoreView};
use crate::text::{copy_bytes, join};
#[allow(unused_imports)]
use crate::text::{hex, hex_tells_bytes_apart};

verus! {

/// What coloring reads of an HTLC output of a commitment.
#[derive(Clone, Copy, Debug, PartialEq, Eq)]
pub struct HTLCOutputInCommitment {
    /// Whether the HTLC was offered by the owner of the commitment.
    pub offered: bool,
    pub payment_hash: PaymentHash,
    /// The contract and the amount of the assets that the HTLC carries, if it carries any.
    pub rgb_payment: Option<(ContractId, u64)>,
    /// Which output of the commitment the HTLC is.
    pub transaction_output_index: Option<u32>,
}

impl HTLCOutputInCommitment {
    /// The amount of assets that the HTLC carries; none is not zero.
    pub open spec fn spec_rgb_amount(self) -> Option<u64> {
        match self.rgb_payment {
            Some(payment) => if payment.1 == 0 {
                None
            } else {
                Some(payment.1)
            },
            None => None,
        }
    }

    /// The amount of assets that the HTLC carries, unless it carries none.
    pub fn rgb_amount(&self) -> (r: Option<u64>)
        ensures
            r == self.spec_rgb_amount(),
    {
        match self.rgb_payment {
            Some(payment) => {
                if payment.1 == 0 {
                    None
                } else {
                    Some(payment.1)
                }
            },
            None => None,
        }
    }
}

/// The key of the payment info that a channel keeps for itself.
pub open spec fn proxy_key(channel_id: Seq<char>, payment_hash: Seq<u8>) -> Seq<char> {
    channel_id + hex(payment_hash)
}

/// The key of the payment info that a channel keeps while the payment is pending.
pub open spec fn proxy_pending_key(channel_id: Seq<char>, payment_hash: Seq<u8>) -> Seq<char> {
    proxy_key(channel_id, payment_hash) + "_pending"@
}

/// The payment info with the present balances of the channel.
pub open spec fn with_balances(payment: RgbPaymentInfoView, info: RgbInfoView) -> RgbPaymentInfoView {
    RgbPaymentInfoView {
        local_rgb_amount: info.local_rgb_amount,
        remote_rgb_amount: info.remote_rgb_amount,
        ..payment
    }
}

/// Whether payment info has the present balances of the channel.
pub open spec fn has_balances(payment: RgbPaymentInfoView, info: RgbInfoView) -> bool {
    &&& payment.local_rgb_amount == info.local_rgb_amount
    &&& payment.remote_rgb_amount == info.remote_rgb_amount
}

/// Whether what the channel keeps for a payment, if it keeps anything, has its present balances.
pub open spec fn keeps_present(
    store: StoreView,
    channel_id: Seq<char>,
    payment_hash: Seq<u8>,
    info: RgbInfoView,
    inbound: bool,
) -> bool {
    let key = proxy_key(channel_id, payment_hash);
    store.entries.contains_key(payment_key(key, inbound)) ==> (stored_payment(
        store,
        key,
        inbound,
    ) matches Some(payment) && has_balances(payment, info))
}

/// Whether payment info describes an HTLC of the channel: contract, amount and direction agree.
pub open spec fn compatible(
    payment: RgbPaymentInfoView,
    info: RgbInfoView,
    amount: u64,
    inbound: bool,
) -> bool {
    &&& payment.contract_id == info.contract_id
    &&& payment.amount == amount
    &&& payment.inbound == inbound
}

/// The payment info made up from the channel and the HTLC alone.
pub open spec fn made_up(info: RgbInfoView, amount: u64, inbound: bool) -> RgbPaymentInfoView {
    RgbPaymentInfoView {
        contract_id: info.contract_id,
        amount,
        local_rgb_amount: info.local_rgb_amount,
        remote_rgb_amount: info.remote_rgb_amount,
        swap_payment: true,
        inbound,
    }
}

/// Writes the payment info that a channel keeps for itself, then the pending copy of it.
pub open spec fn keep_payment(
    store: StoreView,
    channel_id: Seq<char>,
    payment_hash: Seq<u8>,
    payment: RgbPaymentInfoView,
    inbound: bool,
) -> (StoreView, Result<(), ErrorView>) {
    let (written, result) = write_payment(
        store,
        proxy_key(channel_id, payment_hash),
        payment,
        inbound,
    );
    match result {
        Ok(_) => write_payment(
            written,
            proxy_pending_key(channel_id, payment_hash),
            payment,
            inbound,
        ),
        Err(e) => (written, Err(e)),
    }
}

/// Takes over the payment info that waits for the first channel of the payment, if there is any.
pub open spec fn take_over(
    store: StoreView,
    channel_id: Seq<char>,
    payment_hash: Seq<u8>,
    info: RgbInfoView,
    inbound: bool,
) -> (StoreView, Result<(), ErrorView>) {
    let waiting = payment_key(pending_payment_key(payment_hash), inbound);
    let (after, read) = store.read(waiting);
    match read {
        Err(_) => (after, Ok(())),
        Ok(bytes) => match decode_payment(bytes) {
            None => (after, Err(undecodable())),
            Some(payment) => {
                let (kept, result) = keep_payment(
                    after,
                    channel_id,
                    payment_hash,
                    with_balances(payment, info),
                    inbound,
                );
                match result {
                    Ok(_) => kept.remove(waiting, false),
                    Err(e) => (kept, Err(e)),
                }
            },
        },
    }
}

/// Chooses payment info for a channel that keeps none that fits: that of the payment itself, with
/// the present balances, if it fits; else one made up.
pub open spec fn choose_anew(
    store: StoreView,
    channel_id: Seq<char>,
    payment_hash: Seq<u8>,
    info: RgbInfoView,
    amount: u64,
    inbound: bool,
) -> (StoreView, Result<RgbPaymentInfoView, ErrorView>) {
    let (after, read) = read_payment(store, hex(payment_hash), inbound);
    let chosen = match read {
        Ok(payment) => if compatible(payment, info, amount, inbound) {
            with_balances(payment, info)
        } else {
            made_up(info, amount, inbound)
        },
        Err(_) => made_up(info, amount, inbound),
    };
    let (kept, result) = keep_payment(after, channel_id, payment_hash, chosen, inbound);
    (
        kept,
        match result {
            Ok(_) => Ok(chosen),
            Err(e) => Err(e),
        },
    )
}

/// Chooses the payment info of an HTLC: what the channel keeps, if it fits, as it was kept.
pub open spec fn choose_payment(
    store: StoreView,
    channel_id: Seq<char>,
    payment_hash: Seq<u8>,
    info: RgbInfoView,
    amount: u64,
    inbound: bool,
) -> (StoreView, Result<RgbPaymentInfoView, ErrorView>) {
    let (after, read) = store.read(payment_key(proxy_key(channel_id, payment_hash), inbound));
    match read {
        Err(_) => choose_anew(after, channel_id, payment_hash, info, amount, inbound),
        Ok(bytes) => match decode_payment(bytes) {
            None => (after, Err(undecodable())),
            Some(payment) => if compatible(payment, info, amount, inbound) {
                (after, Ok(payment))
            } else {
                choose_anew(after, channel_id, payment_hash, info, amount, inbound)
            },
        },
    }
}

/// Writes the pending copy of the payment info, unless there is one.
pub open spec fn keep_pending(
    store: StoreView,
    channel_id: Seq<char>,
    payment_hash: Seq<u8>,
    payment: RgbPaymentInfoView,
    inbound: bool,
) -> (StoreView, Result<(), ErrorView>) {
    let key = proxy_pending_key(channel_id, payment_hash);
    let (after, read) = store.read(payment_key(key, inbound));
    match read {
        Ok(_) => (after, Ok(())),
        Err(_) => write_payment(after, key, payment, inbound),
    }
}

/// Finds the payment info of an HTLC, and keeps it for the channel.
pub open spec fn find_htlc_payment(
    store: StoreView,
    channel_id: Seq<char>,
    payment_hash: Seq<u8>,
    info: RgbInfoView,
    amount: u64,
    inbound: bool,
) -> (StoreView, Result<RgbPaymentInfoView, ErrorView>) {
    let (taken, took) = take_over(store, channel_id, payment_hash, info, inbound);
    match took {
        Err(e) => (taken, Err(e)),
        Ok(_) => {
            let (chosen, choice) = choose_payment(
                taken,
                channel_id,
                payment_hash,
                info,
                amount,
                inbound,
            );
            match choice {
                Err(e) => (chosen, Err(e)),
                Ok(payment) => {
                    let (kept, result) = keep_pending(
                        chosen,
                        channel_id,
                        payment_hash,
                        payment,
                        inbound,
                    );
                    (
                        kept,
                        match result {
                            Ok(_) => Ok(payment),
                            Err(e) => Err(e),
                        },
                    )
                },
            }
        },
    }
}

/// The two keys under which a channel keeps the info of a payment.
struct ProxyKeys {
    kept: String,
    pending: String,
}

fn proxy_texts(channel_id: &str, payment_hash: &PaymentHash) -> (r: ProxyKeys)
    ensures
        r.kept@ == proxy_key(channel_id@, payment_hash@),
        r.pending@ == proxy_pending_key(channel_id@, payment_hash@),
{
    let hash: String = payment_hash.to_hex();
    let kept: String = join(channel_id, hash.as_str());
    let pending: String = join(kept.as_str(), "_pending");
    ProxyKeys { kept, pending }
}

fn write_kept<K: KVStoreSync>(
    keys: &ProxyKeys,
    payment: &RgbPaymentInfo,
    inbound: bool,
    kv_store: &mut K,
    Ghost(channel_id): Ghost<Seq<char>>,
    Ghost(payment_hash): Ghost<Seq<u8>>,
) -> (r: Result<(), Error>)
    requires
        keys.kept@ == proxy_key(channel_id, payment_hash),
        keys.pending@ == proxy_pending_key(channel_id, payment_hash),
    ensures
        ({
            let run = keep_payment(
                old(kv_store)@,
                channel_id,
                payment_hash,
                payment@,
                inbound,
            );
            final(kv_store)@ == run.0 && unit_view(r) == run.1
        }),
        decode_payment(encode_payment(payment@)) == Some(payment@),
{
    let namespace: &'static str = payment_info_namespace(inbound);
    let data: Vec<u8> = payment.to_bytes();
    match kv_store.write(RGB_PRIMARY_NS, namespace, keys.kept.as_str(), copy_bytes(&data)) {
        Ok(_) => kv_store.write(RGB_PRIMARY_NS, namespace, keys.pending.as_str(), data),
        Err(e) => Err(e),
    }
}

fn take_over_waiting<K: KVStoreSync>(
    keys: &ProxyKeys,
    payment_hash: &PaymentHash,
    rgb_info: &RgbInfo,
    inbound: bool,
    kv_store: &mut K,
    Ghost(channel_id): Ghost<Seq<char>>,
) -> (r: Result<(), Error>)
    requires
        keys.kept@ == proxy_key(channel_id, payment_hash@),
        keys.pending@ == proxy_pending_key(channel_id, payment_hash@),
    ensures
        ({
            let run = take_over(old(kv_store)@, channel_id, payment_hash@, rgb_info@, inbound);
            final(kv_store)@ == run.0 && unit_view(r) == run.1
        }),
        old(kv_store)@.calm() && channel_id.len() > 8 ==> (stored_payment(
            old(kv_store)@,
            pending_payment_key(payment_hash@),
            inbound,
        ) matches Some(waiting) ==> r is Ok && stored_payment(
            final(kv_store)@,
            proxy_key(channel_id, payment_hash@),
            inbound,
        ) == Some(with_balances(waiting, rgb_info@))),
        r is Ok && keeps_present(
            old(kv_store)@,
            channel_id,
            payment_hash@,
            rgb_info@,
            inbound,
        ) ==> keeps_present(
            final(kv_store)@,
            channel_id,
            payment_hash@,
            rgb_info@,
            inbound,
        ),
{
    proof {
        proxy_keys_differ(channel_id, payment_hash@);
        if kv_store@.calm() {
            calm_calls(kv_store@);
        }
    }
    let namespace: &'static str = payment_info_namespace(inbound);
    let waiting: String = pending_payment_text(payment_hash);
    match kv_store.read(RGB_PRIMARY_NS, namespace, waiting.as_str()) {
        Ok(data) => {
            let payment: RgbPaymentInfo = match RgbPaymentInfo::from_bytes(data.as_slice()) {
                Ok(payment) => payment,
                Err(e) => return Err(e),
            };
            let refreshed = RgbPaymentInfo {
                local_rgb_amount: rgb_info.local_rgb_amount,
                remote_rgb_amount: rgb_info.remote_rgb_amount,
                ..payment
            };
            match write_kept(
                keys,
                &refreshed,
                inbound,
                kv_store,
                Ghost(channel_id),
                Ghost(payment_hash@),
            ) {
                Ok(_) => kv_store.remove(RGB_PRIMARY_NS, namespace, waiting.as_str(), false),
                Err(e) => Err(e),
            }
        },
        Err(_) => Ok(()),
    }
}

/// Whether payment info describes an HTLC of the channel: contract, amount and direction agree.
pub fn is_compatible(
    payment: &RgbPaymentInfo,
    rgb_info: &RgbInfo,
    amount: u64,
    inbound: bool,
) -> (r: bool)
    ensures
        r == compatible(payment@, rgb_info@, amount, inbound),
{
    payment.contract_id.same(&rgb_info.contract_id) && payment.amount == amount && payment.inbound
        == inbound
}

fn choose_info<K: KVStoreSync>(
    keys: &ProxyKeys,
    payment_hash: &PaymentHash,
    rgb_info: &RgbInfo,
    amount: u64,
    inbound: bool,
    kv_store: &mut K,
    Ghost(channel_id): Ghost<Seq<char>>,
) -> (r: Result<RgbPaymentInfo, Error>)
    requires
        keys.kept@ == proxy_key(channel_id, payment_hash@),
        keys.pending@ == proxy_pending_key(channel_id, payment_hash@),
    ensures
        ({
            let run = choose_payment(
                old(kv_store)@,
                channel_id,
                payment_hash@,
                rgb_info@,
                amount,
                inbound,
            );
            final(kv_store)@ == run.0 && payment_view(r) == run.1
        }),
        r matches Ok(payment) ==> stored_payment(
            final(kv_store)@,
            proxy_key(channel_id, payment_hash@),
            inbound,
        ) == Some(payment@),
        r matches Ok(payment) ==> keeps_present(
            old(kv_store)@,
            channel_id,
            payment_hash@,
            rgb_info@,
            inbound,
        ) ==> has_balances(payment@, rgb_info@),
{
    proof {
        proxy_keys_differ(channel_id, payment_hash@);
    }
    match kv_store.read(RGB_PRIMARY_NS, payment_info_namespace(inbound), keys.kept.as_str()) {
        Ok(data) => {
            let payment: RgbPaymentInfo = match RgbPaymentInfo::from_bytes(data.as_slice()) {
                Ok(payment) => payment,
                Err(e) => return Err(e),
            };
            // The balances stay those of the time when the HTLC was first colored: what the HTLCs
            // carry is taken from these.
            if is_compatible(&payment, rgb_info, amount, inbound) {
                return Ok(payment);
            }
        },
        Err(_) => {},
    }
    let made_up_payment = RgbPaymentInfo {
        contract_id: rgb_info.contract_id,
        amount,
        local_rgb_amount: rgb_info.local_rgb_amount,
        remote_rgb_amount: rgb_info.remote_rgb_amount,
        swap_payment: true,
        inbound,
    };
    let chosen: RgbPaymentInfo = match kv_store.read_rgb_payment_info(payment_hash, inbound) {
        Ok(payment) => {
            if is_compatible(&payment, rgb_info, amount, inbound) {
                RgbPaymentInfo {
                    local_rgb_amount: rgb_info.local_rgb_amount,
                    remote_rgb_amount: rgb_info.remote_rgb_amount,
                    ..payment
                }
            } else {
                made_up_payment
            }
        },
        Err(_) => made_up_payment,
    };
    match write_kept(
        keys,
        &chosen,
        inbound,
        kv_store,
        Ghost(channel_id),
        Ghost(payment_hash@),
    ) {
        Ok(_) => Ok(chosen),
        Err(e) => Err(e),
    }
}

/// Finds the payment info of an HTLC, and keeps it for the channel.
///
/// Info that waits for the first channel of the payment is taken over first. Then what the channel
/// keeps is used as it is, if it describes this HTLC; else what is kept for the payment, with the
/// present balances, if that does; else info made up from the channel and the HTLC. Once it has
/// succeeded, the channel keeps the info that was found. Where no call fails, info that waits and
/// describes this HTLC is what is found, with the present balances. What is found has the present
/// balances unless the channel kept info with others; where no call fails, it also has them if
/// anything waited.
pub fn find_htlc_payment_info<K: KVStoreSync>(
    channel_id: &str,
    payment_hash: &PaymentHash,
    rgb_info: &RgbInfo,
    amount: u64,
    inbound: bool,
    kv_store: &mut K,
) -> (r: Result<RgbPaymentInfo, Error>)
    ensures
        ({
            let run = find_htlc_payment(
                old(kv_store)@,
                channel_id@,
                payment_hash@,
                rgb_info@,
                amount,
                inbound,
            );
            final(kv_store)@ == run.0 && payment_view(r) == run.1
        }),
        r matches Ok(payment) ==> stored_payment(
            final(kv_store)@,
            proxy_key(channel_id@, payment_hash@),
            inbound,
        ) == Some(payment@),
        old(kv_store)@.calm() && channel_id@.len() > 8 ==> (stored_payment(
            old(kv_store)@,
            pending_payment_key(payment_hash@),
            inbound,
        ) matches Some(waiting) ==> compatible(waiting, rgb_info@, amount, inbound) ==> (
        r matches Ok(payment) && payment@ == with_balances(waiting, rgb_info@))),
        r matches Ok(payment) ==> keeps_present(
            old(kv_store)@,
            channel_id@,
            payment_hash@,
            rgb_info@,
            inbound,
        ) || old(kv_store)@.calm() && channel_id@.len() > 8
            && old(kv_store)@.entries.contains_key(
            payment_key(pending_payment_key(payment_hash@), inbound),
        ) ==> has_balances(payment@, rgb_info@),
{
    proof {
        proxy_keys_differ(channel_id@, payment_hash@);
    }
    let keys: ProxyKeys = proxy_texts(channel_id, payment_hash);
    match take_over_waiting(
        &keys,
        payment_hash,
        rgb_info,
        inbound,
        kv_store,
        Ghost(channel_id@),
    ) {
        Ok(_) => {},
        Err(e) => return Err(e),
    }
    let payment: RgbPaymentInfo = match choose_info(
        &keys,
        payment_hash,
        rgb_info,
        amount,
        inbound,
        kv_store,
        Ghost(channel_id@),
    ) {
        Ok(payment) => payment,
        Err(e) => return Err(e),
    };
    let namespace: &'static str = payment_info_namespace(inbound);
    match kv_store.read(RGB_PRIMARY_NS, namespace, keys.pending.as_str()) {
        Ok(_) => {},
        Err(_) => {
            let data: Vec<u8> = payment.to_bytes();
            match kv_store.write(RGB_PRIMARY_NS, namespace, keys.pending.as_str(), data) {
                Ok(_) => {},
                Err(e) => return Err(e),
            }
        },
    }
    Ok(payment)
}

proof fn proxy_keys_differ(channel_id: Seq<char>, payment_hash: Seq<u8>)
    ensures
        proxy_key(channel_id, payment_hash) != proxy_pending_key(channel_id, payment_hash),
        channel_id.len() > 0 ==> proxy_key(channel_id, payment_hash) != hex(payment_hash),
        channel_id.len() > 0 ==> proxy_pending_key(channel_id, payment_hash)
            != pending_payment_key(payment_hash),
        channel_id.len() > 8 ==> proxy_key(channel_id, payment_hash) != pending_payment_key(
            payment_hash,
        ),
{
    reveal_strlit("_pending");
    assert("_pending"@.len() == 8);
    assert(proxy_key(channel_id, payment_hash).len() == channel_id.len() + hex(payment_hash).len());
    assert(proxy_pending_key(channel_id, payment_hash).len() == proxy_key(
        channel_id,
        payment_hash,
    ).len() + 8);
    assert(pending_payment_key(payment_hash).len() == hex(payment_hash).len() + 8);
}

/// Whatever the store holds, and however it fails, the payment info that is found for an HTLC is
/// of the channel's contract, of the HTLC's amount and of its direction.
pub proof fn found_payment_fits(
    store: StoreView,
    channel_id: Seq<char>,
    payment_hash: Seq<u8>,
    info: RgbInfoView,
    amount: u64,
    inbound: bool,
)
    ensures
        find_htlc_payment(
            store,
            channel_id,
            payment_hash,
            info,
            amount,
            inbound,
        ).1 matches Ok(payment) ==> compatible(payment, info, amount, inbound),
{
}

/// Finding the payment info of an HTLC changes no entry but the two that the channel keeps for the
/// payment, and the one that waits for its first channel.
pub proof fn finding_touches_only_the_payment(
    store: StoreView,
    channel_id: Seq<char>,
    payment_hash: Seq<u8>,
    info: RgbInfoView,
    amount: u64,
    inbound: bool,
    key: EntryKey,
)
    requires
        key != payment_key(proxy_key(channel_id, payment_hash), inbound),
        key != payment_key(proxy_pending_key(channel_id, payment_hash), inbound),
        key != payment_key(pending_payment_key(payment_hash), inbound),
    ensures
        ({
            let after = find_htlc_payment(
                store,
                channel_id,
                payment_hash,
                info,
                amount,
                inbound,
            ).0;
            &&& after.entries.contains_key(key) == store.entries.contains_key(key)
            &&& after.entries[key] == store.entries[key]
        }),
{
}

/// What a channel keeps for an HTLC stays as it was first kept, balances included: where nothing
/// waits and no call fails, kept info that fits is found again, whatever the balances have become,
/// and all that changes is the pending copy.
pub proof fn kept_payment_is_found_again(
    store: StoreView,
    channel_id: Seq<char>,
    payment_hash: Seq<u8>,
    info: RgbInfoView,
    amount: u64,
    inbound: bool,
    payment: RgbPaymentInfoView,
)
    requires
        store.calm(),
        !store.entries.contains_key(payment_key(pending_payment_key(payment_hash), inbound)),
        stored_payment(store, proxy_key(channel_id, payment_hash), inbound) == Some(payment),
        compatible(payment, info, amount, inbound),
    ensures
        ({
            let (after, found) = find_htlc_payment(
                store,
                channel_id,
                payment_hash,
                info,
                amount,
                inbound,
            );
            &&& found == Ok::<RgbPaymentInfoView, ErrorView>(payment)
            &&& stored_payment(after, proxy_key(channel_id, payment_hash), inbound) == Some(payment)
            &&& after.outcomes == store.outcomes
            &&& forall|key: EntryKey|
                key != payment_key(proxy_pending_key(channel_id, payment_hash), inbound) ==> {
                    &&& #[trigger] after.entries.contains_key(key) == store.entries.contains_key(
                        key,
                    )
                    &&& after.entries[key] == store.entries[key]
                }
        }),
{
    proxy_keys_differ(channel_id, payment_hash);
    calm_calls(store);
    let (taken, _) = take_over(store, channel_id, payment_hash, info, inbound);
    calm_calls(taken);
    let (chosen, _) = choose_payment(taken, channel_id, payment_hash, info, amount, inbound);
    calm_calls(chosen);
}

/// The keys of a payment, and those that channels keep for payments, are told apart by their
/// lengths.
pub proof fn payment_keys_have_their_lengths(channel_id: Seq<char>, payment_hash: Seq<u8>)
    ensures
        pending_payment_key(payment_hash).len() == 2 * payment_hash.len() + 8,
        proxy_key(channel_id, payment_hash).len() == channel_id.len() + 2 * payment_hash.len(),
        proxy_pending_key(channel_id, payment_hash).len() == channel_id.len() + 2
            * payment_hash.len() + 8,
{
    reveal_strlit("_pending");
    assert("_pending"@.len() == 8);
}

/// Payment info kept for different payments, or in different directions, is kept at different
/// places.
pub proof fn kept_places_differ(
    channel_id: Seq<char>,
    payment_hash: Seq<u8>,
    inbound: bool,
    other_hash: Seq<u8>,
    other_inbound: bool,
)
    requires
        payment_key(proxy_key(channel_id, payment_hash), inbound) == payment_key(
            proxy_key(channel_id, other_hash),
            other_inbound,
        ),
    ensures
        payment_hash == other_hash,
        inbound == other_inbound,
{
    namespaces_differ();
    let key = proxy_key(channel_id, payment_hash);
    let other_key = proxy_key(channel_id, other_hash);
    assert(hex(payment_hash) =~= key.skip(channel_id.len() as int));
    assert(hex(other_hash) =~= other_key.skip(channel_id.len() as int));
    hex_tells_bytes_apart(payment_hash, other_hash);
}

/// Info that waits for different payments, or in different directions, waits at different places.
pub proof fn waiting_places_differ(
    payment_hash: Seq<u8>,
    inbound: bool,
    other_hash: Seq<u8>,
    other_inbound: bool,
)
    requires
        payment_key(pending_payment_key(payment_hash), inbound) == payment_key(
            pending_payment_key(other_hash),
            other_inbound,
        ),
    ensures
        payment_hash == other_hash,
        inbound == other_inbound,
{
    namespaces_differ();
    payment_keys_have_their_lengths(Seq::empty(), payment_hash);
    payment_keys_have_their_lengths(Seq::empty(), other_hash);
    let key = pending_payment_key(payment_hash);
    let other_key = pending_payment_key(other_hash);
    assert(hex(payment_hash) =~= key.take(2 * payment_hash.len() as int));
    assert(hex(other_hash) =~= other_key.take(2 * payment_hash.len() as int));
    hex_tells_bytes_apart(payment_hash, other_hash);
}

/// Finding the payment info of an HTLC leaves what a channel keeps for any other payment, and what
/// waits for it, as it was.
pub proof fn payment_of_another_stays(
    store: StoreView,
    channel_id: Seq<char>,
    info: RgbInfoView,
    payment_hash: Seq<u8>,
    amount: u64,
    inbound: bool,
    other_hash: Seq<u8>,
    other_inbound: bool,
)
    requires
        channel_id.len() == 64,
        payment_hash.len() == other_hash.len(),
        payment_hash != other_hash || inbound != other_inbound,
    ensures
        ({
            let after = find_htlc_payment(
                store,
                channel_id,
                payment_hash,
                info,
                amount,
                inbound,
            ).0;
            let kept = payment_key(proxy_key(channel_id, other_hash), other_inbound);
            let waiting = payment_key(pending_payment_key(other_hash), other_inbound);
            &&& after.entries.contains_key(kept) == store.entries.contains_key(kept)
            &&& after.entries[kept] == store.entries[kept]
            &&& after.entries.contains_key(waiting) == store.entries.contains_key(waiting)
            &&& after.entries[waiting] == store.entries[waiting]
        }),
{
    let kept = payment_key(proxy_key(channel_id, other_hash), other_inbound);
    let waiting = payment_key(pending_payment_key(other_hash), other_inbound);
    payment_keys_have_their_lengths(channel_id, payment_hash);
    payment_keys_have_their_lengths(channel_id, other_hash);
    if kept == payment_key(proxy_key(channel_id, payment_hash), inbound) {
        kept_places_differ(channel_id, other_hash, other_inbound, payment_hash, inbound);
    }
    if waiting == payment_key(pending_payment_key(payment_hash), inbound) {
        waiting_places_differ(other_hash, other_inbound, payment_hash, inbound);
    }
    assert(kept.key.len() != proxy_pending_key(channel_id, payment_hash).len());
    assert(kept.key.len() != pending_payment_key(payment_hash).len());
    assert(waiting.key.len() != proxy_key(channel_id, payment_hash).len());
    assert(waiting.key.len() != proxy_pending_key(channel_id, payment_hash).len());
    finding_touches_only_the_payment(
        store,
        channel_id,
        payment_hash,
        info,
        amount,
        inbound,
        kept,
    );
    finding_touches_only_the_payment(
        store,
        channel_id,
        payment_hash,
        info,
        amount,
        inbound,
        waiting,
    );
}

/// Finding the payment info of an HTLC has no influence on what the store adds to later calls.
pub proof fn finding_keeps_the_outcomes(
    store: StoreView,
    channel_id: Seq<char>,
    payment_hash: Seq<u8>,
    info: RgbInfoView,
    amount: u64,
    inbound: bool,
)
    ensures
        find_htlc_payment(
            store,
            channel_id,
            payment_hash,
            info,
            amount,
            inbound,
        ).0.outcomes == store.outcomes,
{
}

proof fn calm_calls(store: StoreView)
    requires
        store.calm(),
    ensures
        store.next().fault is None,
        (store.outcomes)(store.calls + 1).fault is None,
        (store.outcomes)(store.calls + 2).fault is None,
        (store.outcomes)(store.calls + 3).fault is None,
{
}

/// Info that waits for the first channel of a payment is taken over once: where no call fails
/// and info is found, it waits no more afterwards, and the channel keeps pending info.
pub proof fn waiting_payment_is_taken_once(
    store: StoreView,
    channel_id: Seq<char>,
    payment_hash: Seq<u8>,
    info: RgbInfoView,
    amount: u64,
    inbound: bool,
)
    requires
        channel_id.len() > 8,
        store.calm(),
        find_htlc_payment(store, channel_id, payment_hash, info, amount, inbound).1 is Ok,
    ensures
        ({
            let after = find_htlc_payment(
                store,
                channel_id,
                payment_hash,
                info,
                amount,
                inbound,
            ).0;
            &&& !after.entries.contains_key(
                payment_key(pending_payment_key(payment_hash), inbound),
            )
            &&& after.entries.contains_key(
                payment_key(proxy_pending_key(channel_id, payment_hash), inbound),
            )
        }),
{
    proxy_keys_differ(channel_id, payment_hash);
    calm_calls(store);
    let (taken, _) = take_over(store, channel_id, payment_hash, info, inbound);
    calm_calls(taken);
    let (chosen, _) = choose_payment(taken, channel_id, payment_hash, info, amount, inbound);
    calm_calls(chosen);
}

/// Where nothing waits, the channel keeps nothing that fits, and no call fails, the info of the
/// payment itself is used, with the present balances, if it fits. If it does not, info is made up
/// from the channel and the HTLC.
pub proof fn payment_itself_is_used_before_info_is_made_up(
    store: StoreView,
    channel_id: Seq<char>,
    payment_hash: Seq<u8>,
    info: RgbInfoView,
    amount: u64,
    inbound: bool,
)
    requires
        store.calm(),
        !store.entries.contains_key(payment_key(pending_payment_key(payment_hash), inbound)),
        !store.entries.contains_key(payment_key(proxy_key(channel_id, payment_hash), inbound)) || (
        stored_payment(store, proxy_key(channel_id, payment_hash), inbound) matches Some(kept)
            && !compatible(kept, info, amount, inbound)),
    ensures
        find_htlc_payment(
            store,
            channel_id,
            payment_hash,
            info,
            amount,
            inbound,
        ).1 == Ok::<RgbPaymentInfoView, ErrorView>(
            match stored_payment(store, hex(payment_hash), inbound) {
                Some(payment) => if compatible(payment, info, amount, inbound) {
                    with_balances(payment, info)
                } else {
                    made_up(info, amount, inbound)
                },
                None => made_up(info, amount, inbound),
            },
        ),
{
    proxy_keys_differ(channel_id, payment_hash);
    calm_calls(store);
    let (taken, _) = take_over(store, channel_id, payment_hash, info, inbound);
    calm_calls(taken);
    let (chosen, _) = choose_payment(taken, channel_id, payment_hash, info, amount, inbound);
    calm_calls(chosen);
    let (looked, _) = chosen.read(
        payment_key(proxy_pending_key(channel_id, payment_hash), inbound),
    );
    calm_calls(looked);
}

/// Whether the payment info of an HTLC is new to the channel: either info waits for it, which reads
/// back once it has the present balances, as all info does that [`RgbPaymentInfo::to_bytes`] gave
/// bytes for; or the channel keeps nothing for it.
pub open spec fn is_new(
    store: StoreView,
    channel_id: Seq<char>,
    payment_hash: Seq<u8>,
    info: RgbInfoView,
    inbound: bool,
) -> bool {
    let waiting_key = pending_payment_key(payment_hash);
    if store.entries.contains_key(payment_key(waiting_key, inbound)) {
        stored_payment(store, waiting_key, inbound) matches Some(waiting) && decode_payment(
            encode_payment(with_balances(waiting, info)),
        ) == Some(with_balances(waiting, info))
    } else {
        !store.entries.contains_key(payment_key(proxy_key(channel_id, payment_hash), inbound))
    }
}

/// Where no call fails, payment info that is new to the channel is found, and has the present
/// balances.
pub proof fn new_payment_has_the_present_balances(
    store: StoreView,
    channel_id: Seq<char>,
    payment_hash: Seq<u8>,
    info: RgbInfoView,
    amount: u64,
    inbound: bool,
)
    requires
        store.calm(),
        channel_id.len() > 8,
        is_new(store, channel_id, payment_hash, info, inbound),
    ensures
        find_htlc_payment(
            store,
            channel_id,
            payment_hash,
            info,
            amount,
            inbound,
        ).1 matches Ok(payment) && has_balances(payment, info),
{
    proxy_keys_differ(channel_id, payment_hash);
    if store.entries.contains_key(payment_key(pending_payment_key(payment_hash), inbound)) {
        calm_calls(store);
        let (taken, _) = take_over(store, channel_id, payment_hash, info, inbound);
        calm_calls(taken);
        let (chosen, _) = choose_payment(taken, channel_id, payment_hash, info, amount, inbound);
        calm_calls(chosen);
        let (looked, _) = chosen.read(
            payment_key(proxy_pending_key(channel_id, payment_hash), inbound),
        );
        calm_calls(looked);
    } else {
        payment_itself_is_used_before_info_is_made_up(
            store,
            channel_id,
            payment_hash,
            info,
            amount,
            inbound,
        );
    }
}

/// An HTLC carries assets exactly if it names a contract with an amount that is not zero, in either
/// direction, and carries that amount.
pub proof fn htlc_carries_what_it_names(htlc: HTLCOutputInCommitment, amount: u64)
    ensures
        htlc.spec_rgb_amount() == Some(amount) <==> (htlc.rgb_payment matches Some(payment)
            && payment.1 == amount && amount != 0),
        htlc.spec_rgb_amount() is None <==> (htlc.rgb_payment matches Some(payment) ==> payment.1
            == 0),
{
}

/// A channel keeps payment info under its own ID followed by the payment hash, with `_pending`
/// behind it while the payment is pending.
pub proof fn channel_keeps_payments_under_both_ids(channel_id: Seq<char>, payment_hash: Seq<u8>)
    ensures
        proxy_key(channel_id, payment_hash) == channel_id + hex(payment_hash),
        proxy_pending_key(channel_id, payment_hash) == channel_id + hex(payment_hash)
            + "_pending"@,
{
}

/// Payment info describes an HTLC exactly if it agrees with the channel in the contract, and with
/// the HTLC in the amount and the direction. Its balances and the swap play no part.
pub proof fn payment_describes_an_htlc_by_three_values(
    payment: RgbPaymentInfoView,
    info: RgbInfoView,
    amount: u64,
    inbound: bool,
)
    ensures
        compatible(payment, info, amount, inbound) <==> payment.contract_id == info.contract_id
            && payment.amount == amount && payment.inbound == inbound,
        has_balances(payment, info) <==> payment.local_rgb_amount == info.local_rgb_amount
            && payment.remote_rgb_amount == info.remote_rgb_amount,
{
}

/// However the store fails, what is found for an HTLC is of the channel's contract and of the
/// amount and the direction of the HTLC; and the channel then keeps it, and keeps a pending copy.
pub proof fn found_payment_describes_the_htlc_and_is_kept(
    store: StoreView,
    channel_id: Seq<char>,
    payment_hash: Seq<u8>,
    info: RgbInfoView,
    amount: u64,
    inbound: bool,
)
    ensures
        ({
            let (after, found) = find_htlc_payment(
                store,
                channel_id,
                payment_hash,
                info,
                amount,
                inbound,
            );
            let kept = payment_key(channel_id + hex(payment_hash), inbound);
            let pending = payment_key(channel_id + hex(payment_hash) + "_pending"@, inbound);
            found matches Ok(payment) ==> {
                &&& payment.contract_id == info.contract_id
                &&& payment.amount == amount
                &&& payment.inbound == inbound
                &&& after.entries.contains_key(kept)
                &&& after.entries[kept] == encode_payment(payment) || decode_payment(
                    after.entries[kept],
                ) == Some(payment)
                &&& after.entries.contains_key(pending)
            }
        }),
{
    proxy_keys_differ(channel_id, payment_hash);
}

/// Where nothing waits and no call fails, kept info of the channel's contract and of the amount and
/// the direction of the HTLC is found as it was kept, with the balances that it was kept with. It
/// stays kept, and a pending copy is written only if there is none.
pub proof fn kept_payment_keeps_the_balances_it_was_kept_with(
    store: StoreView,
    channel_id: Seq<char>,
    payment_hash: Seq<u8>,
    info: RgbInfoView,
    amount: u64,
    inbound: bool,
    kept: RgbPaymentInfoView,
)
    requires
        store.calm(),
        !store.entries.contains_key(payment_key(hex(payment_hash) + "_pending"@, inbound)),
        stored_payment(store, channel_id + hex(payment_hash), inbound) == Some(kept),
        kept.contract_id == info.contract_id,
        kept.amount == amount,
        kept.inbound == inbound,
    ensures
        ({
            let (after, found) = find_htlc_payment(
                store,
                channel_id,
                payment_hash,
                info,
                amount,
                inbound,
            );
            let pending = payment_key(channel_id + hex(payment_hash) + "_pending"@, inbound);
            &&& found == Ok::<RgbPaymentInfoView, ErrorView>(kept)
            &&& after.entries == if store.entries.contains_key(pending) {
                store.entries
            } else {
                store.entries.insert(pending, encode_payment(kept))
            }
        }),
{
    kept_payment_is_found_again(store, channel_id, payment_hash, info, amount, inbound, kept);
    calm_calls(store);
    let (taken, _) = take_over(store, channel_id, payment_hash, info, inbound);
    calm_calls(taken);
    let (chosen, _) = choose_payment(taken, channel_id, payment_hash, info, amount, inbound);
    calm_calls(chosen);
}

/// Where nothing waits, the channel keeps nothing that describes the HTLC and no call fails, the
/// info of the payment itself is found if it is of the channel's contract and of the amount and
/// the direction of the HTLC, and else info that says so and is marked as a swap. Either has the
/// present balances of the channel, and is kept for the channel with a pending copy. No other
/// entry changes.
pub proof fn first_payment_info_has_the_present_balances(
    store: StoreView,
    channel_id: Seq<char>,
    payment_hash: Seq<u8>,
    info: RgbInfoView,
    amount: u64,
    inbound: bool,
)
    requires
        store.calm(),
        !store.entries.contains_key(payment_key(hex(payment_hash) + "_pending"@, inbound)),
        !store.entries.contains_key(payment_key(channel_id + hex(payment_hash), inbound)) || (
        stored_payment(store, channel_id + hex(payment_hash), inbound) matches Some(kept) && !(
        kept.contract_id == info.contract_id && kept.amount == amount && kept.inbound == inbound)),
    ensures
        ({
            let (after, found) = find_htlc_payment(
                store,
                channel_id,
                payment_hash,
                info,
                amount,
                inbound,
            );
            let kept = payment_key(channel_id + hex(payment_hash), inbound);
            let pending = payment_key(channel_id + hex(payment_hash) + "_pending"@, inbound);
            &&& found matches Ok(payment) && {
                &&& payment.contract_id == info.contract_id
                &&& payment.amount == amount
                &&& payment.local_rgb_amount == info.local_rgb_amount
                &&& payment.remote_rgb_amount == info.remote_rgb_amount
                &&& payment.inbound == inbound
                &&& payment.swap_payment == match stored_payment(
                    store,
                    hex(payment_hash),
                    inbound,
                ) {
                    Some(own) => if own.contract_id == info.contract_id && own.amount == amount
                        && own.inbound == inbound {
                        own.swap_payment
                    } else {
                        true
                    },
                    None => true,
                }
                &&& after.entries == store.entries.insert(kept, encode_payment(payment)).insert(
                    pending,
                    encode_payment(payment),
                )
            }
        }),
{
    payment_itself_is_used_before_info_is_made_up(
        store,
        channel_id,
        payment_hash,
        info,
        amount,
        inbound,
    );
    proxy_keys_differ(channel_id, payment_hash);
    calm_calls(store);
    let (taken, _) = take_over(store, channel_id, payment_hash, info, inbound);
    calm_calls(taken);
    let (chosen, _) = choose_payment(taken, channel_id, payment_hash, info, amount, inbound);
    calm_calls(chosen);
}

/// Info that waits for the first channel of a payment, where no call fails, is kept for the channel
/// with the present balances, and waits no more; and it is what is found if it is of the channel's
/// contract and of the amount and the direction of the HTLC.
pub proof fn waiting_payment_is_found_with_the_present_balances(
    store: StoreView,
    channel_id: Seq<char>,
    payment_hash: Seq<u8>,
    info: RgbInfoView,
    amount: u64,
    inbound: bool,
    waiting: RgbPaymentInfoView,
)
    requires
        store.calm(),
        channel_id.len() > 8,
        stored_payment(store, hex(payment_hash) + "_pending"@, inbound) == Some(waiting),
        ({
            let taken = RgbPaymentInfoView {
                local_rgb_amount: info.local_rgb_amount,
                remote_rgb_amount: info.remote_rgb_amount,
                ..waiting
            };
            decode_payment(encode_payment(taken)) == Some(taken)
        }),
    ensures
        ({
            let (after, found) = find_htlc_payment(
                store,
                channel_id,
                payment_hash,
                info,
                amount,
                inbound,
            );
            let taken = RgbPaymentInfoView {
                local_rgb_amount: info.local_rgb_amount,
                remote_rgb_amount: info.remote_rgb_amount,
                ..waiting
            };
            let kept = payment_key(channel_id + hex(payment_hash), inbound);
            let pending = payment_key(channel_id + hex(payment_hash) + "_pending"@, inbound);
            let place = payment_key(hex(payment_hash) + "_pending"@, inbound);
            &&& waiting.contract_id == info.contract_id && waiting.amount == amount
                && waiting.inbound == inbound ==> {
                &&& found == Ok::<RgbPaymentInfoView, ErrorView>(taken)
                &&& after.entries == store.entries.insert(kept, encode_payment(taken)).insert(
                    pending,
                    encode_payment(taken),
                ).remove(place)
            }
            &&& !(waiting.contract_id == info.contract_id && waiting.amount == amount
                && waiting.inbound == inbound) ==> (found matches Ok(payment) && {
                &&& payment.contract_id == info.contract_id
                &&& payment.amount == amount
                &&& payment.local_rgb_amount == info.local_rgb_amount
                &&& payment.remote_rgb_amount == info.remote_rgb_amount
                &&& payment.inbound == inbound
                &&& payment.swap_payment == match stored_payment(
                    store,
                    hex(payment_hash),
                    inbound,
                ) {
                    Some(own) => if own.contract_id == info.contract_id && own.amount == amount
                        && own.inbound == inbound {
                        own.swap_payment
                    } else {
                        true
                    },
                    None => true,
                }
                &&& after.entries == store.entries.insert(kept, encode_payment(payment)).insert(
                    pending,
                    encode_payment(payment),
                ).remove(place)
            })
            &&& !after.lazily_removed.contains(place)
        }),
{
    reveal_strlit("_pending");
    proxy_keys_differ(channel_id, payment_hash);
    assert(hex(payment_hash).len() != (hex(payment_hash) + "_pending"@).len());
    calm_calls(store);
    let (taken, _) = take_over(store, channel_id, payment_hash, info, inbound);
    calm_calls(taken);
    let (chosen, choice) = choose_payment(
        taken,
        channel_id,
        payment_hash,
        info,
        amount,
        inbound,
    );
    calm_calls(chosen);
    let (looked, _) = chosen.read(
        payment_key(proxy_pending_key(channel_id, payment_hash), inbound),
    );
    calm_calls(looked);
    let after = find_htlc_payment(
        store,
        channel_id,
        payment_hash,
        info,
        amount,
        inbound,
    ).0;
    if let Ok(payment) = choice {
        let kept = payment_key(channel_id + hex(payment_hash), inbound);
        let pending = payment_key(channel_id + hex(payment_hash) + "_pending"@, inbound);
        let place = payment_key(hex(payment_hash) + "_pending"@, inbound);
        assert(after.entries =~= store.entries.insert(kept, encode_payment(payment)).insert(
            pending,
            encode_payment(payment),
        ).remove(place));
    }
}

/// Info that waits or is kept but does not decode is reported as invalid data.
pub proof fn payment_info_in_disorder_is_reported(
    store: StoreView,
    channel_id: Seq<char>,
    payment_hash: Seq<u8>,
    info: RgbInfoView,
    amount: u64,
    inbound: bool,
)
    requires
        store.calm(),
        ({
            let place = payment_key(hex(payment_hash) + "_pending"@, inbound);
            let kept = payment_key(channel_id + hex(payment_hash), inbound);
            ||| store.entries.contains_key(place) && decode_payment(store.entries[place]) is None
            ||| !store.entries.contains_key(place) && store.entries.contains_key(kept)
                && decode_payment(store.entries[kept]) is None
        }),
    ensures
        ({
            let (after, found) = find_htlc_payment(
                store,
                channel_id,
                payment_hash,
                info,
                amount,
                inbound,
            );
            &&& found matches Err(e) && e.kind == ErrorKind::InvalidData
            &&& after.entries == store.entries
        }),
{
    calm_calls(store);
}

/// Where nothing waits and nothing is kept, payment info is found if and only if both writes that
/// keep it succeed; a pending copy that cannot be looked at is written again. Reads that fail are
/// no obstacle.
pub proof fn first_payment_info_needs_its_writes(
    store: StoreView,
    channel_id: Seq<char>,
    payment_hash: Seq<u8>,
    info: RgbInfoView,
    amount: u64,
    inbound: bool,
)
    requires
        !store.entries.contains_key(payment_key(hex(payment_hash) + "_pending"@, inbound)),
        !store.entries.contains_key(payment_key(channel_id + hex(payment_hash), inbound)),
    ensures
        find_htlc_payment(
            store,
            channel_id,
            payment_hash,
            info,
            amount,
            inbound,
        ).1 is Ok <==> {
            &&& (store.outcomes)(store.calls + 3).fault is None
            &&& (store.outcomes)(store.calls + 4).fault is None
            &&& (store.outcomes)(store.calls + 5).fault is None || (store.outcomes)(
                store.calls + 6,
            ).fault is None
        },
{
    proxy_keys_differ(channel_id, payment_hash);
}

/// Info that waits and can be read is taken over only if both writes and the removal succeed; the
/// failure of any of them is reported.
pub proof fn taking_over_needs_its_writes_and_its_removal(
    store: StoreView,
    channel_id: Seq<char>,
    payment_hash: Seq<u8>,
    info: RgbInfoView,
    amount: u64,
    inbound: bool,
)
    requires
        (store.outcomes)(store.calls).fault is None,
        stored_payment(store, hex(payment_hash) + "_pending"@, inbound) is Some,
    ensures
        find_htlc_payment(store, channel_id, payment_hash, info, amount, inbound).1 is Ok ==> {
            &&& (store.outcomes)(store.calls + 1).fault is None
            &&& (store.outcomes)(store.calls + 2).fault is None
            &&& (store.outcomes)(store.calls + 3).fault is None
        },
{
}

/// Where nothing that waits can be read, payment info is looked for in this order, however the
/// store fails: what the channel keeps, if it can be read and describes the HTLC, as it is; what
/// is kept for the payment, if it can be read and describes the HTLC, with the present balances;
/// else info made up from the channel and the HTLC, with the present balances, as a swap. What the
/// channel keeps is an obstacle only if it can be read and does not decode.
pub proof fn payment_info_is_looked_for_in_order(
    store: StoreView,
    channel_id: Seq<char>,
    payment_hash: Seq<u8>,
    info: RgbInfoView,
    amount: u64,
    inbound: bool,
)
    requires
        (store.outcomes)(store.calls).fault is Some || !store.entries.contains_key(
            payment_key(hex(payment_hash) + "_pending"@, inbound),
        ),
    ensures
        ({
            let found = find_htlc_payment(
                store,
                channel_id,
                payment_hash,
                info,
                amount,
                inbound,
            ).1;
            let readable = (store.outcomes)(store.calls + 1).fault is None;
            let kept_place = payment_key(channel_id + hex(payment_hash), inbound);
            let kept = stored_payment(store, channel_id + hex(payment_hash), inbound);
            let own = stored_payment(store, hex(payment_hash), inbound);
            let kept_fits = readable && (kept matches Some(payment) && payment.contract_id
                == info.contract_id && payment.amount == amount && payment.inbound == inbound);
            let own_fits = (store.outcomes)(store.calls + 2).fault is None && (
            own matches Some(payment) && payment.contract_id == info.contract_id && payment.amount
                == amount && payment.inbound == inbound);
            &&& readable && store.entries.contains_key(kept_place) && kept is None ==> (
            found matches Err(e) && e.kind == ErrorKind::InvalidData)
            &&& kept_fits ==> {
                &&& found matches Ok(payment) ==> kept == Some(payment)
                &&& (store.outcomes)(store.calls + 2).fault is None && store.entries.contains_key(
                    payment_key(channel_id + hex(payment_hash) + "_pending"@, inbound),
                ) ==> found is Ok
                &&& (store.outcomes)(store.calls + 3).fault is None ==> found is Ok
            }
            &&& !kept_fits ==> (found matches Ok(payment) ==> payment == if own_fits {
                RgbPaymentInfoView {
                    local_rgb_amount: info.local_rgb_amount,
                    remote_rgb_amount: info.remote_rgb_amount,
                    ..own.unwrap()
                }
            } else {
                RgbPaymentInfoView {
                    contract_id: info.contract_id,
                    amount,
                    local_rgb_amount: info.local_rgb_amount,
                    remote_rgb_amount: info.remote_rgb_amount,
                    swap_payment: true,
                    inbound,
                }
            })
            &&& !kept_fits && !(readable && store.entries.contains_key(kept_place) && kept is None)
                ==> (found is Ok <==> {
                &&& (store.outcomes)(store.calls + 3).fault is None
                &&& (store.outcomes)(store.calls + 4).fault is None
                &&& (store.outcomes)(store.calls + 5).fault is None || (store.outcomes)(
                    store.calls + 6,
                ).fault is None
            })
        }),
{
    proxy_keys_differ(channel_id, payment_hash);
}

/// Once info that waited has been taken over, what is found has the present balances, however the
/// store fails afterwards; and it is the info that waited, if that describes the HTLC and can be
/// read where it is now kept.
pub proof fn payment_found_after_taking_over_has_the_present_balances(
    store: StoreView,
    channel_id: Seq<char>,
    payment_hash: Seq<u8>,
    info: RgbInfoView,
    amount: u64,
    inbound: bool,
    waiting: RgbPaymentInfoView,
)
    requires
        channel_id.len() > 8,
        (store.outcomes)(store.calls).fault is None,
        stored_payment(store, hex(payment_hash) + "_pending"@, inbound) == Some(waiting),
        ({
            let taken = RgbPaymentInfoView {
                local_rgb_amount: info.local_rgb_amount,
                remote_rgb_amount: info.remote_rgb_amount,
                ..waiting
            };
            decode_payment(encode_payment(taken)) == Some(taken)
        }),
    ensures
        find_htlc_payment(
            store,
            channel_id,
            payment_hash,
            info,
            amount,
            inbound,
        ).1 matches Ok(payment) ==> {
            &&& payment.local_rgb_amount == info.local_rgb_amount
            &&& payment.remote_rgb_amount == info.remote_rgb_amount
            &&& (store.outcomes)(store.calls + 4).fault is None && waiting.contract_id
                == info.contract_id && waiting.amount == amount && waiting.inbound == inbound
                ==> payment.swap_payment == waiting.swap_payment
        },
{
    proxy_keys_differ(channel_id, payment_hash);
}

} // verus!
