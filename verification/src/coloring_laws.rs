//! What holds of every coloring: that nothing is made or lost, and that a commitment that is
//! colored again is colored the same.

use vstd::prelude::*;
#[allow(unused_imports)]
use rgbstd::containers::Fascia;
#[allow(unused_imports)]
use crate::channel::pending_payment_key;
#[allow(unused_imports)]
use crate::coloring::{
    all_kept, begin_closing, begin_commitment, begin_htlc, color_htlc_of, commitment_amounts,
    commitment_outputs, commitment_step, fascia_key, fascia_name, first_output,
    first_output_is_first, gather, htlc_total, htlc_total_grows, htlcs_in_order, keeps_commitment,
    keeps_fitting, paying, returning, step_view, stored_fascia, transfer_of, waits, ClosingParts,
    Coloring, ColoringFailure, ColoringFailureView, ColoringView, CommitmentHtlcs, CommitmentParts,
    CommitmentStep, CommitmentStepView, HtlcSums, Transaction, TxOut,
};
#[allow(unused_imports)]
use crate::errors::ErrorView;
use crate::htlc::HTLCOutputInCommitment;
#[allow(unused_imports)]
use crate::htlc::{
    find_htlc_payment, finding_keeps_the_outcomes, finding_touches_only_the_payment,
    found_payment_fits, has_balances, is_new, kept_payment_is_found_again,
    new_payment_has_the_present_balances, payment_keys_have_their_lengths,
    payment_of_another_stays, proxy_key, proxy_pending_key,
};
#[allow(unused_imports)]
use crate::info::{decode_payment, encode_payment, RgbInfoView, RgbPaymentInfoView};
#[allow(unused_imports)]
use crate::outside::{fascia_decoding, spent_txid_texts};
#[allow(unused_imports)]
use crate::records::{
    payment_key, payment_namespace, read_info, stored_info, stored_payment, stored_transfer,
    transfer_key,
};
#[allow(unused_imports)]
use crate::store::{namespaces_differ, EntryKey, StoreView};
#[allow(unused_imports)]
use crate::text::{hex, hex_tells_bytes_apart};

verus! {

/// What is found for the HTLCs of a commitment comes to what they carry: the sums are the totals in
/// either direction, and the output of each HTLC carries its amount, unless a later HTLC stands at
/// the same output.
pub proof fn gathered_htlcs_add_up(
    store: StoreView,
    channel_id: Seq<char>,
    info: RgbInfoView,
    htlcs: Seq<HTLCOutputInCommitment>,
    counterparty: bool,
)
    ensures
        gather(store, channel_id, info, htlcs, counterparty, 0, HtlcSums::none()).1 matches Ok(sums)
            ==> {
            &&& sums.offered == htlc_total(htlcs, counterparty, false, htlcs.len())
            &&& sums.received == htlc_total(htlcs, counterparty, true, htlcs.len())
            &&& sums.last is Some <==> exists|i: int|
                0 <= i < htlcs.len() && (#[trigger] htlcs[i]).spec_rgb_amount() is Some
            &&& forall|i: int|
                0 <= i < htlcs.len() && htlcs[i].spec_rgb_amount() is Some
                    && !#[trigger] overridden(htlcs, i, htlcs.len()) ==> {
                    let vout = htlcs[i].transaction_output_index.unwrap();
                    sums.output_map.contains_key(vout) && sums.output_map[vout]
                        == htlcs[i].spec_rgb_amount().unwrap()
                }
        },
{
    gathering(store, channel_id, info, htlcs, counterparty, 0, HtlcSums::none());
}

/// Whether one of the HTLCs before `n` stands at the output of the HTLC `i`, after it.
pub open spec fn overridden(htlcs: Seq<HTLCOutputInCommitment>, i: int, n: nat) -> bool {
    exists|j: int|
        i < j < n && (#[trigger] htlcs[j]).spec_rgb_amount() is Some
            && htlcs[j].transaction_output_index.unwrap()
            == htlcs[i].transaction_output_index.unwrap()
}

spec fn sums_up_to(
    htlcs: Seq<HTLCOutputInCommitment>,
    counterparty: bool,
    n: nat,
    sums: HtlcSums,
) -> bool {
    &&& sums.offered == htlc_total(htlcs, counterparty, false, n)
    &&& sums.received == htlc_total(htlcs, counterparty, true, n)
    &&& sums.last is Some <==> exists|i: int|
        0 <= i < n && (#[trigger] htlcs[i]).spec_rgb_amount() is Some
    &&& forall|i: int|
        0 <= i < n && htlcs[i].spec_rgb_amount() is Some && !#[trigger] overridden(htlcs, i, n)
            ==> {
            let vout = htlcs[i].transaction_output_index.unwrap();
            sums.output_map.contains_key(vout) && sums.output_map[vout]
                == htlcs[i].spec_rgb_amount().unwrap()
        }
}

proof fn still_not_overridden(htlcs: Seq<HTLCOutputInCommitment>, i: int, n: nat)
    requires
        !overridden(htlcs, i, n + 1),
    ensures
        !overridden(htlcs, i, n),
{
    if overridden(htlcs, i, n) {
        let j = choose|j: int|
            i < j < n && (#[trigger] htlcs[j]).spec_rgb_amount() is Some
                && htlcs[j].transaction_output_index.unwrap()
                == htlcs[i].transaction_output_index.unwrap();
        assert(htlcs[j].spec_rgb_amount() is Some);
        assert(overridden(htlcs, i, n + 1));
    }
}

proof fn one_more_without_assets(
    htlcs: Seq<HTLCOutputInCommitment>,
    counterparty: bool,
    n: nat,
    sums: HtlcSums,
)
    requires
        n < htlcs.len(),
        sums_up_to(htlcs, counterparty, n, sums),
        htlcs[n as int].spec_rgb_amount() is None,
    ensures
        sums_up_to(htlcs, counterparty, n + 1, sums),
{
    assert forall|i: int| 0 <= i < n && !#[trigger] overridden(htlcs, i, n + 1) implies !overridden(
        htlcs,
        i,
        n,
    ) by {
        still_not_overridden(htlcs, i, n);
    }
}

proof fn one_more_with_assets(
    htlcs: Seq<HTLCOutputInCommitment>,
    counterparty: bool,
    n: nat,
    sums: HtlcSums,
    payment: RgbPaymentInfoView,
)
    requires
        n < htlcs.len(),
        sums_up_to(htlcs, counterparty, n, sums),
        htlcs[n as int].spec_rgb_amount() == Some(payment.amount),
    ensures
        ({
            let htlc = htlcs[n as int];
            let vout = htlc.transaction_output_index.unwrap();
            sums_up_to(
                htlcs,
                counterparty,
                n + 1,
                sums.with(vout, payment, htlc.offered == counterparty),
            )
        }),
{
    let vout = htlcs[n as int].transaction_output_index.unwrap();
    assert forall|i: int| 0 <= i < n && !#[trigger] overridden(htlcs, i, n + 1) implies !overridden(
        htlcs,
        i,
        n,
    ) && htlcs[i].transaction_output_index.unwrap() != vout by {
        still_not_overridden(htlcs, i, n);
        assert(htlcs[n as int].spec_rgb_amount() is Some);
    }
}

proof fn gathering(
    store: StoreView,
    channel_id: Seq<char>,
    info: RgbInfoView,
    htlcs: Seq<HTLCOutputInCommitment>,
    counterparty: bool,
    from: nat,
    sums: HtlcSums,
)
    requires
        from <= htlcs.len(),
        sums_up_to(htlcs, counterparty, from, sums),
    ensures
        gather(store, channel_id, info, htlcs, counterparty, from, sums).1 matches Ok(result)
            ==> sums_up_to(htlcs, counterparty, htlcs.len(), result),
    decreases htlcs.len() - from,
{
    if from < htlcs.len() {
        let htlc = htlcs[from as int];
        let inbound = htlc.offered == counterparty;
        match htlc.spec_rgb_amount() {
            None => {
                one_more_without_assets(htlcs, counterparty, from, sums);
                gathering(store, channel_id, info, htlcs, counterparty, from + 1, sums);
            },
            Some(amount) => {
                found_payment_fits(
                    store,
                    channel_id,
                    htlc.payment_hash@,
                    info,
                    amount,
                    inbound,
                );
                let (after, found) = find_htlc_payment(
                    store,
                    channel_id,
                    htlc.payment_hash@,
                    info,
                    amount,
                    inbound,
                );
                if let Ok(payment) = found {
                    let more = sums.with(
                        htlc.transaction_output_index.unwrap(),
                        payment,
                        inbound,
                    );
                    one_more_with_assets(htlcs, counterparty, from, sums, payment);
                    gathering(after, channel_id, info, htlcs, counterparty, from + 1, more);
                }
            },
        }
    }
}

/// A commitment neither makes nor loses assets: the balances that it leaves and what its HTLCs
/// carry come to the balances that it was colored with.
pub proof fn commitment_conserves_the_total(
    store: StoreView,
    channel_id: Seq<char>,
    info: RgbInfoView,
    htlcs: Seq<HTLCOutputInCommitment>,
    counterparty: bool,
)
    ensures
        gather(store, channel_id, info, htlcs, counterparty, 0, HtlcSums::none()).1 matches Ok(sums)
            ==> commitment_amounts(info, sums) matches Some(amounts) ==> {
            let carried = htlc_total(htlcs, counterparty, false, htlcs.len()) + htlc_total(
                htlcs,
                counterparty,
                true,
                htlcs.len(),
            );
            amounts.0 + amounts.1 + carried == match sums.last {
                Some(payment) => payment.local_rgb_amount + payment.remote_rgb_amount,
                None => info.local_rgb_amount + info.remote_rgb_amount,
            }
        },
{
    gathered_htlcs_add_up(store, channel_id, info, htlcs, counterparty);
    htlc_total_grows(htlcs, counterparty, false, 0, htlcs.len());
    htlc_total_grows(htlcs, counterparty, true, 0, htlcs.len());
    if let Ok(sums) = gather(
        store,
        channel_id,
        info,
        htlcs,
        counterparty,
        0,
        HtlcSums::none(),
    ).1 {
        if sums.last is None {
            no_htlc_no_total(htlcs, counterparty, false, htlcs.len());
            no_htlc_no_total(htlcs, counterparty, true, htlcs.len());
        }
    }
}

proof fn no_htlc_no_total(
    htlcs: Seq<HTLCOutputInCommitment>,
    counterparty: bool,
    inbound: bool,
    n: nat,
)
    requires
        n <= htlcs.len(),
        forall|i: int| 0 <= i < n ==> (#[trigger] htlcs[i]).spec_rgb_amount() is None,
    ensures
        htlc_total(htlcs, counterparty, inbound, n) == 0,
    decreases n,
{
    if n > 0 {
        assert(htlcs[n - 1].spec_rgb_amount() is None);
        no_htlc_no_total(htlcs, counterparty, inbound, (n - 1) as nat);
    }
}

/// Whether no two HTLCs with assets belong to one payment in one direction.
pub open spec fn distinct_payments(htlcs: Seq<HTLCOutputInCommitment>) -> bool {
    forall|i: int, j: int|
        0 <= i < j < htlcs.len() && (#[trigger] htlcs[i]).spec_rgb_amount() is Some && (
        #[trigger] htlcs[j]).spec_rgb_amount() is Some ==> htlcs[i].payment_hash@
            != htlcs[j].payment_hash@ || htlcs[i].offered != htlcs[j].offered
}

/// Whether the payment info of each HTLC with assets from `from` on is new to the channel.
pub open spec fn all_new(
    store: StoreView,
    channel_id: Seq<char>,
    info: RgbInfoView,
    htlcs: Seq<HTLCOutputInCommitment>,
    counterparty: bool,
    from: nat,
) -> bool {
    forall|i: int|
        from <= i < htlcs.len() && (#[trigger] htlcs[i]).spec_rgb_amount() is Some ==> is_new(
            store,
            channel_id,
            htlcs[i].payment_hash@,
            info,
            htlcs[i].offered == counterparty,
        )
}

/// A commitment whose payments are new to the channel is colored with the present balances: where
/// no call fails, payment info is found for all its HTLCs, the last of it has the balances of the
/// channel, and the balances that the commitment leaves and what its HTLCs carry come to the
/// present total. They are left if and only if the HTLCs exceed neither balance.
pub proof fn new_commitment_conserves_the_present_total(
    store: StoreView,
    channel_id: Seq<char>,
    info: RgbInfoView,
    htlcs: Seq<HTLCOutputInCommitment>,
    counterparty: bool,
)
    requires
        store.calm(),
        channel_id.len() == 64,
        distinct_payments(htlcs),
        all_new(store, channel_id, info, htlcs, counterparty, 0),
    ensures
        gather(store, channel_id, info, htlcs, counterparty, 0, HtlcSums::none()).1 matches Ok(sums)
            && {
            let offered = htlc_total(htlcs, counterparty, false, htlcs.len());
            let received = htlc_total(htlcs, counterparty, true, htlcs.len());
            &&& sums.last matches Some(payment) ==> has_balances(payment, info)
            &&& commitment_amounts(info, sums) is Some <==> offered <= info.local_rgb_amount
                && received <= info.remote_rgb_amount
            &&& commitment_amounts(info, sums) matches Some(amounts) ==> amounts.0 + amounts.1
                + offered + received == info.local_rgb_amount + info.remote_rgb_amount
        },
{
    gathering_new_payments(
        store,
        channel_id,
        info,
        htlcs,
        counterparty,
        0,
        HtlcSums::none(),
    );
    gathered_htlcs_add_up(store, channel_id, info, htlcs, counterparty);
    commitment_conserves_the_total(store, channel_id, info, htlcs, counterparty);
    let sums = gather(
        store,
        channel_id,
        info,
        htlcs,
        counterparty,
        0,
        HtlcSums::none(),
    ).1->Ok_0;
    if sums.last is None {
        no_htlc_no_total(htlcs, counterparty, false, htlcs.len());
        no_htlc_no_total(htlcs, counterparty, true, htlcs.len());
    }
}

proof fn the_rest_stays_new(
    store: StoreView,
    channel_id: Seq<char>,
    info: RgbInfoView,
    htlcs: Seq<HTLCOutputInCommitment>,
    counterparty: bool,
    n: int,
)
    requires
        channel_id.len() == 64,
        distinct_payments(htlcs),
        0 <= n < htlcs.len(),
        htlcs[n].spec_rgb_amount() is Some,
        all_new(store, channel_id, info, htlcs, counterparty, n as nat),
    ensures
        ({
            let after = find_htlc_payment(
                store,
                channel_id,
                htlcs[n].payment_hash@,
                info,
                htlcs[n].spec_rgb_amount().unwrap(),
                htlcs[n].offered == counterparty,
            ).0;
            all_new(after, channel_id, info, htlcs, counterparty, (n + 1) as nat)
        }),
{
    let hash = htlcs[n].payment_hash@;
    let inbound = htlcs[n].offered == counterparty;
    let amount = htlcs[n].spec_rgb_amount().unwrap();
    let after = find_htlc_payment(store, channel_id, hash, info, amount, inbound).0;
    assert forall|i: int|
        n + 1 <= i < htlcs.len() && (#[trigger] htlcs[i]).spec_rgb_amount() is Some implies is_new(
        after,
        channel_id,
        htlcs[i].payment_hash@,
        info,
        htlcs[i].offered == counterparty,
    ) by {
        let other = htlcs[i].payment_hash@;
        let direction = htlcs[i].offered == counterparty;
        assert(is_new(store, channel_id, other, info, direction));
        payment_of_another_stays(
            store,
            channel_id,
            info,
            hash,
            amount,
            inbound,
            other,
            direction,
        );
    }
}

proof fn gathering_new_payments(
    store: StoreView,
    channel_id: Seq<char>,
    info: RgbInfoView,
    htlcs: Seq<HTLCOutputInCommitment>,
    counterparty: bool,
    from: nat,
    sums: HtlcSums,
)
    requires
        store.calm(),
        channel_id.len() == 64,
        distinct_payments(htlcs),
        all_new(store, channel_id, info, htlcs, counterparty, from),
        sums.last matches Some(payment) ==> has_balances(payment, info),
    ensures
        gather(store, channel_id, info, htlcs, counterparty, from, sums).1 matches Ok(result) && (
        result.last matches Some(payment) ==> has_balances(payment, info)),
    decreases htlcs.len() - from,
{
    if from < htlcs.len() {
        let htlc = htlcs[from as int];
        let hash = htlc.payment_hash@;
        let inbound = htlc.offered == counterparty;
        match htlc.spec_rgb_amount() {
            None => gathering_new_payments(
                store,
                channel_id,
                info,
                htlcs,
                counterparty,
                from + 1,
                sums,
            ),
            Some(amount) => {
                assert(is_new(store, channel_id, hash, info, inbound));
                new_payment_has_the_present_balances(
                    store,
                    channel_id,
                    hash,
                    info,
                    amount,
                    inbound,
                );
                finding_keeps_the_outcomes(store, channel_id, hash, info, amount, inbound);
                the_rest_stays_new(store, channel_id, info, htlcs, counterparty, from as int);
                let (after, found) = find_htlc_payment(
                    store,
                    channel_id,
                    hash,
                    info,
                    amount,
                    inbound,
                );
                let vout = htlc.transaction_output_index.unwrap();
                gathering_new_payments(
                    after,
                    channel_id,
                    info,
                    htlcs,
                    counterparty,
                    from + 1,
                    sums.with(vout, found->Ok_0, inbound),
                );
            },
        }
    }
}

/// The outputs of the first `n` HTLCs, of those with assets, in order.
pub open spec fn htlc_vouts(htlcs: Seq<HTLCOutputInCommitment>, n: nat) -> Seq<u32>
    decreases n,
{
    if n == 0 {
        Seq::empty()
    } else {
        let before = htlc_vouts(htlcs, (n - 1) as nat);
        match htlcs[n - 1].spec_rgb_amount() {
            Some(_) => before.push(htlcs[n - 1].transaction_output_index.unwrap()),
            None => before,
        }
    }
}

/// What outputs carry together.
pub open spec fn total_at(outputs: Map<u32, u64>, vouts: Seq<u32>) -> int
    decreases vouts.len(),
{
    if vouts.len() == 0 {
        0
    } else {
        total_at(outputs, vouts.drop_last()) + outputs[vouts.last()]
    }
}

/// Whether amounts are assigned to the given outputs, and to no others.
pub open spec fn assigned_to(outputs: Map<u32, u64>, vouts: Seq<u32>) -> bool {
    forall|vout: u32| #[trigger] outputs.contains_key(vout) <==> vouts.contains(vout)
}

/// The outputs of a commitment that carry assets: its HTLCs; the one who countersigns; the owner.
pub open spec fn commitment_vouts(parts: CommitmentParts, counterparty: bool) -> Seq<u32> {
    let script = parts.countersigner_script(counterparty);
    htlc_vouts(parts.nondust_htlcs@, parts.nondust_htlcs@.len()).push(
        first_output(parts.outputs@, paying(script), 0).unwrap() as u32,
    ).push(parts.revokeable_output_index.unwrap() as u32)
}

/// Whether a commitment has an output for each of the two sides, and all its outputs that carry
/// assets are different ones.
pub open spec fn pays_each_once(parts: CommitmentParts, counterparty: bool) -> bool {
    let script = parts.countersigner_script(counterparty);
    &&& first_output(parts.outputs@, paying(script), 0) is Some
    &&& parts.revokeable_output_index is Some
    &&& commitment_vouts(parts, counterparty).no_duplicates()
}

/// Where a commitment has an output for each of the two sides, these are different ones. Without
/// HTLCs that carry assets, nothing is carried in either direction.
pub proof fn sides_have_different_outputs(parts: CommitmentParts, counterparty: bool)
    requires
        pays_each_once(parts, counterparty),
    ensures
        first_output(
            parts.outputs@,
            paying(parts.countersigner_script(counterparty)),
            0,
        ).unwrap() as u32 != parts.revokeable_output_index.unwrap() as u32,
        (forall|i: int|
            0 <= i < parts.nondust_htlcs@.len() ==> (
            #[trigger] parts.nondust_htlcs@[i]).spec_rgb_amount() is None) ==> {
            let htlcs = parts.nondust_htlcs@;
            &&& htlc_total(htlcs, counterparty, false, htlcs.len()) == 0
            &&& htlc_total(htlcs, counterparty, true, htlcs.len()) == 0
        },
{
    let vouts = commitment_vouts(parts, counterparty);
    assert(vouts[vouts.len() - 2] != vouts[vouts.len() - 1]);
    let htlcs = parts.nondust_htlcs@;
    if forall|i: int| 0 <= i < htlcs.len() ==> (#[trigger] htlcs[i]).spec_rgb_amount() is None {
        no_htlc_no_total(htlcs, counterparty, false, htlcs.len());
        no_htlc_no_total(htlcs, counterparty, true, htlcs.len());
    }
}

proof fn total_elsewhere(outputs: Map<u32, u64>, vouts: Seq<u32>, vout: u32, amount: u64)
    requires
        !vouts.contains(vout),
    ensures
        total_at(outputs.insert(vout, amount), vouts) == total_at(outputs, vouts),
    decreases vouts.len(),
{
    if vouts.len() > 0 {
        assert(vouts.contains(vouts.last()));
        assert forall|i: int| 0 <= i < vouts.len() - 1 implies vouts.drop_last()[i] != vout by {
            assert(vouts.contains(vouts[i]));
        }
        total_elsewhere(outputs, vouts.drop_last(), vout, amount);
    }
}

proof fn one_more_output(outputs: Map<u32, u64>, vouts: Seq<u32>, vout: u32, amount: u64)
    requires
        vouts.push(vout).no_duplicates(),
        assigned_to(outputs, vouts),
    ensures
        vouts.no_duplicates(),
        assigned_to(outputs.insert(vout, amount), vouts.push(vout)),
        total_at(outputs.insert(vout, amount), vouts.push(vout)) == total_at(outputs, vouts)
            + amount,
{
    let more = vouts.push(vout);
    assert forall|i: int| 0 <= i < vouts.len() implies #[trigger] vouts[i] != vout by {
        assert(more[i] != more[vouts.len() as int]);
    }
    assert forall|i: int, j: int| 0 <= i < vouts.len() && 0 <= j < vouts.len() && i != j implies
        vouts[i] != vouts[j] by {
        assert(more[i] != more[j]);
    }
    total_elsewhere(outputs, vouts, vout, amount);
    assert(more.drop_last() =~= vouts);
    assert forall|other: u32| #[trigger]
        outputs.insert(vout, amount).contains_key(other) <==> more.contains(other) by {
        if other == vout {
            assert(more[vouts.len() as int] == vout);
        } else if vouts.contains(other) {
            assert(more[vouts.index_of(other)] == other);
        }
    }
}

proof fn fewer_vouts_are_different(htlcs: Seq<HTLCOutputInCommitment>, n: nat, m: nat)
    requires
        n <= m,
        htlc_vouts(htlcs, m).no_duplicates(),
    ensures
        htlc_vouts(htlcs, n).no_duplicates(),
    decreases m,
{
    if n < m {
        let before = htlc_vouts(htlcs, (m - 1) as nat);
        assert forall|i: int, j: int|
            0 <= i < before.len() && 0 <= j < before.len() && i != j implies before[i]
            != before[j] by {
            assert(htlc_vouts(htlcs, m)[i] != htlc_vouts(htlcs, m)[j]);
        }
        fewer_vouts_are_different(htlcs, n, (m - 1) as nat);
    }
}

proof fn gathering_outputs(
    store: StoreView,
    channel_id: Seq<char>,
    info: RgbInfoView,
    htlcs: Seq<HTLCOutputInCommitment>,
    counterparty: bool,
    from: nat,
    sums: HtlcSums,
)
    requires
        from <= htlcs.len(),
        htlc_vouts(htlcs, htlcs.len()).no_duplicates(),
        assigned_to(sums.output_map, htlc_vouts(htlcs, from)),
        total_at(sums.output_map, htlc_vouts(htlcs, from)) == htlc_total(
            htlcs,
            counterparty,
            false,
            from,
        ) + htlc_total(htlcs, counterparty, true, from),
    ensures
        gather(store, channel_id, info, htlcs, counterparty, from, sums).1 matches Ok(result) ==> {
            &&& assigned_to(result.output_map, htlc_vouts(htlcs, htlcs.len()))
            &&& total_at(result.output_map, htlc_vouts(htlcs, htlcs.len())) == htlc_total(
                htlcs,
                counterparty,
                false,
                htlcs.len(),
            ) + htlc_total(htlcs, counterparty, true, htlcs.len())
        },
    decreases htlcs.len() - from,
{
    if from < htlcs.len() {
        let htlc = htlcs[from as int];
        let hash = htlc.payment_hash@;
        let inbound = htlc.offered == counterparty;
        match htlc.spec_rgb_amount() {
            None => gathering_outputs(
                store,
                channel_id,
                info,
                htlcs,
                counterparty,
                from + 1,
                sums,
            ),
            Some(amount) => {
                found_payment_fits(store, channel_id, hash, info, amount, inbound);
                let (after, found) = find_htlc_payment(
                    store,
                    channel_id,
                    hash,
                    info,
                    amount,
                    inbound,
                );
                if let Ok(payment) = found {
                    let vout = htlc.transaction_output_index.unwrap();
                    fewer_vouts_are_different(htlcs, from + 1, htlcs.len());
                    one_more_output(sums.output_map, htlc_vouts(htlcs, from), vout, amount);
                    gathering_outputs(
                        after,
                        channel_id,
                        info,
                        htlcs,
                        counterparty,
                        from + 1,
                        sums.with(vout, payment, inbound),
                    );
                }
            },
        }
    }
}

/// The outputs of a commitment that has one for each of the two sides share out what it was colored
/// with: amounts are assigned to its HTLCs and to the two sides and to nothing else, and they come
/// to the balances that it leaves and what its HTLCs carry.
pub proof fn commitment_outputs_add_up(
    store: StoreView,
    channel_id: Seq<char>,
    info: RgbInfoView,
    parts: CommitmentParts,
    counterparty: bool,
    sums: HtlcSums,
    amounts: (u64, u64),
)
    requires
        pays_each_once(parts, counterparty),
        gather(
            store,
            channel_id,
            info,
            parts.nondust_htlcs@,
            counterparty,
            0,
            HtlcSums::none(),
        ).1 == Ok::<HtlcSums, ErrorView>(sums),
        commitment_amounts(info, sums) == Some(amounts),
    ensures
        ({
            let htlcs = parts.nondust_htlcs@;
            let outputs = commitment_outputs(sums, amounts, parts, counterparty);
            let vouts = commitment_vouts(parts, counterparty);
            &&& assigned_to(outputs, vouts)
            &&& total_at(outputs, vouts) == amounts.0 + amounts.1 + htlc_total(
                htlcs,
                counterparty,
                false,
                htlcs.len(),
            ) + htlc_total(htlcs, counterparty, true, htlcs.len())
        }),
{
    let htlcs = parts.nondust_htlcs@;
    let script = parts.countersigner_script(counterparty);
    let countersigner = first_output(parts.outputs@, paying(script), 0).unwrap() as u32;
    let owner = parts.revokeable_output_index.unwrap() as u32;
    let carrying = htlc_vouts(htlcs, htlcs.len());
    let vouts = carrying.push(countersigner).push(owner);
    assert forall|i: int, j: int|
        0 <= i < carrying.len() + 1 && 0 <= j < carrying.len() + 1 && i
            != j implies carrying.push(countersigner)[i] != carrying.push(countersigner)[j] by {
        assert(vouts[i] != vouts[j]);
    }
    assert forall|i: int, j: int|
        0 <= i < carrying.len() && 0 <= j < carrying.len() && i != j implies carrying[i]
        != carrying[j] by {
        assert(vouts[i] != vouts[j]);
    }
    gathering_outputs(store, channel_id, info, htlcs, counterparty, 0, HtlcSums::none());
    let (first, second) = if counterparty {
        (amounts.0, amounts.1)
    } else {
        (amounts.1, amounts.0)
    };
    one_more_output(sums.output_map, carrying, countersigner, first);
    one_more_output(
        sums.output_map.insert(countersigner, first),
        carrying.push(countersigner),
        owner,
        second,
    );
}

/// The planned outputs of a commitment whose payments are new to the channel add up to the local
/// and the remote balance of the channel: where no call fails, the commitment has an output for
/// each of the two sides, and its HTLCs exceed neither balance, it is to be colored, and the
/// amounts of its outputs come to the present total.
pub proof fn new_commitment_shares_out_the_present_total(
    store: StoreView,
    channel_id: Seq<u8>,
    parts: CommitmentParts,
    counterparty: bool,
    info: RgbInfoView,
)
    requires
        store.calm(),
        channel_id.len() == 32,
        stored_info(store, hex(channel_id), true) == Some(info),
        distinct_payments(parts.nondust_htlcs@),
        all_new(store, hex(channel_id), info, parts.nondust_htlcs@, counterparty, 0),
        pays_each_once(parts, counterparty),
        !parts.trusted_no_broadcast,
        parts.funding_txid is Some,
        htlc_total(parts.nondust_htlcs@, counterparty, false, parts.nondust_htlcs@.len())
            <= info.local_rgb_amount,
        htlc_total(parts.nondust_htlcs@, counterparty, true, parts.nondust_htlcs@.len())
            <= info.remote_rgb_amount,
    ensures
        begin_commitment(store, channel_id, parts, counterparty).1 matches Ok(
            CommitmentStepView::Color { coloring, .. },
        ) && {
            let vouts = commitment_vouts(parts, counterparty);
            &&& coloring.contract_id == info.contract_id
            &&& assigned_to(coloring.output_map, vouts)
            &&& total_at(coloring.output_map, vouts) == info.local_rgb_amount
                + info.remote_rgb_amount
        },
{
    let htlcs = parts.nondust_htlcs@;
    let (after, read) = read_info(store, hex(channel_id), true);
    assert(store.next().fault is None);
    assert forall|i: int| 0 <= i < htlcs.len() && (#[trigger] htlcs[i]).spec_rgb_amount() is Some
        implies is_new(
        after,
        hex(channel_id),
        htlcs[i].payment_hash@,
        info,
        htlcs[i].offered == counterparty,
    ) by {
        assert(is_new(
            store,
            hex(channel_id),
            htlcs[i].payment_hash@,
            info,
            htlcs[i].offered == counterparty,
        ));
    }
    new_commitment_conserves_the_present_total(after, hex(channel_id), info, htlcs, counterparty);
    let sums = gather(
        after,
        hex(channel_id),
        info,
        htlcs,
        counterparty,
        0,
        HtlcSums::none(),
    ).1->Ok_0;
    let amounts = commitment_amounts(info, sums).unwrap();
    commitment_outputs_add_up(
        after,
        hex(channel_id),
        info,
        parts,
        counterparty,
        sums,
        amounts,
    );
}

/// What the HTLCs come to with the payment info that the channel keeps, from `from` on.
pub open spec fn kept_sums(
    store: StoreView,
    channel_id: Seq<char>,
    htlcs: Seq<HTLCOutputInCommitment>,
    counterparty: bool,
    from: nat,
    sums: HtlcSums,
) -> HtlcSums
    decreases htlcs.len() - from,
{
    if from >= htlcs.len() {
        sums
    } else {
        let htlc = htlcs[from as int];
        let inbound = htlc.offered == counterparty;
        let more = match htlc.spec_rgb_amount() {
            None => sums,
            Some(_) => sums.with(
                htlc.transaction_output_index.unwrap(),
                stored_payment(store, proxy_key(channel_id, htlc.payment_hash@), inbound).unwrap(),
                inbound,
            ),
        };
        kept_sums(store, channel_id, htlcs, counterparty, from + 1, more)
    }
}

/// A commitment that is colored again comes to the same sums, whatever the balances of the channel
/// have become: where no call fails, HTLCs whose payment info is kept come to what was kept, and it
/// stays kept.
pub proof fn coloring_again_uses_what_was_kept(
    store: StoreView,
    channel_id: Seq<char>,
    info: RgbInfoView,
    htlcs: Seq<HTLCOutputInCommitment>,
    counterparty: bool,
)
    requires
        store.calm(),
        channel_id.len() == 64,
        all_kept(store, channel_id, info, htlcs, counterparty),
    ensures
        ({
            let (after, result) = gather(
                store,
                channel_id,
                info,
                htlcs,
                counterparty,
                0,
                HtlcSums::none(),
            );
            &&& result == Ok::<HtlcSums, ErrorView>(
                kept_sums(store, channel_id, htlcs, counterparty, 0, HtlcSums::none()),
            )
            &&& all_kept(after, channel_id, info, htlcs, counterparty)
        }),
{
    gathering_what_was_kept(
        store,
        store,
        channel_id,
        info,
        htlcs,
        counterparty,
        0,
        HtlcSums::none(),
    );
}

spec fn same_kept(
    origin: StoreView,
    store: StoreView,
    channel_id: Seq<char>,
    htlcs: Seq<HTLCOutputInCommitment>,
    counterparty: bool,
) -> bool {
    forall|i: int|
        0 <= i < htlcs.len() ==> {
            let hash = (#[trigger] htlcs[i]).payment_hash@;
            let inbound = htlcs[i].offered == counterparty;
            &&& stored_payment(store, proxy_key(channel_id, hash), inbound) == stored_payment(
                origin,
                proxy_key(channel_id, hash),
                inbound,
            )
            &&& store.entries.contains_key(payment_key(pending_payment_key(hash), inbound))
                == origin.entries.contains_key(payment_key(pending_payment_key(hash), inbound))
        }
}

proof fn keeping_on(
    origin: StoreView,
    store: StoreView,
    channel_id: Seq<char>,
    info: RgbInfoView,
    htlcs: Seq<HTLCOutputInCommitment>,
    counterparty: bool,
    n: int,
)
    requires
        store.calm(),
        channel_id.len() == 64,
        all_kept(origin, channel_id, info, htlcs, counterparty),
        same_kept(origin, store, channel_id, htlcs, counterparty),
        0 <= n < htlcs.len(),
        htlcs[n].spec_rgb_amount() is Some,
    ensures
        ({
            let htlc = htlcs[n];
            let inbound = htlc.offered == counterparty;
            let (after, found) = find_htlc_payment(
                store,
                channel_id,
                htlc.payment_hash@,
                info,
                htlc.spec_rgb_amount().unwrap(),
                inbound,
            );
            &&& found == Ok::<RgbPaymentInfoView, ErrorView>(
                stored_payment(
                    origin,
                    proxy_key(channel_id, htlc.payment_hash@),
                    inbound,
                ).unwrap(),
            )
            &&& after.calm()
            &&& same_kept(origin, after, channel_id, htlcs, counterparty)
        }),
{
    let htlc = htlcs[n];
    let hash = htlc.payment_hash@;
    let inbound = htlc.offered == counterparty;
    let amount = htlc.spec_rgb_amount().unwrap();
    let kept = stored_payment(origin, proxy_key(channel_id, hash), inbound).unwrap();
    kept_payment_is_found_again(store, channel_id, hash, info, amount, inbound, kept);
    let after = find_htlc_payment(store, channel_id, hash, info, amount, inbound).0;
    let written = payment_key(proxy_pending_key(channel_id, hash), inbound);
    payment_keys_have_their_lengths(channel_id, hash);
    assert forall|i: int| 0 <= i < htlcs.len() implies {
        let other = (#[trigger] htlcs[i]).payment_hash@;
        let direction = htlcs[i].offered == counterparty;
        &&& stored_payment(after, proxy_key(channel_id, other), direction) == stored_payment(
            store,
            proxy_key(channel_id, other),
            direction,
        )
        &&& after.entries.contains_key(payment_key(pending_payment_key(other), direction))
            == store.entries.contains_key(payment_key(pending_payment_key(other), direction))
    } by {
        let other = htlcs[i].payment_hash@;
        let direction = htlcs[i].offered == counterparty;
        payment_keys_have_their_lengths(channel_id, other);
        let kept_place = payment_key(proxy_key(channel_id, other), direction);
        let waiting_place = payment_key(pending_payment_key(other), direction);
        assert(kept_place.key.len() != written.key.len());
        assert(waiting_place.key.len() != written.key.len());
        assert(after.entries.contains_key(kept_place) == store.entries.contains_key(kept_place));
    }
}

proof fn gathering_what_was_kept(
    origin: StoreView,
    store: StoreView,
    channel_id: Seq<char>,
    info: RgbInfoView,
    htlcs: Seq<HTLCOutputInCommitment>,
    counterparty: bool,
    from: nat,
    sums: HtlcSums,
)
    requires
        store.calm(),
        channel_id.len() == 64,
        all_kept(origin, channel_id, info, htlcs, counterparty),
        same_kept(origin, store, channel_id, htlcs, counterparty),
    ensures
        ({
            let (after, result) = gather(
                store,
                channel_id,
                info,
                htlcs,
                counterparty,
                from,
                sums,
            );
            &&& result == Ok::<HtlcSums, ErrorView>(
                kept_sums(origin, channel_id, htlcs, counterparty, from, sums),
            )
            &&& all_kept(after, channel_id, info, htlcs, counterparty)
        }),
    decreases htlcs.len() - from,
{
    if from < htlcs.len() {
        let htlc = htlcs[from as int];
        let inbound = htlc.offered == counterparty;
        match htlc.spec_rgb_amount() {
            None => gathering_what_was_kept(
                origin,
                store,
                channel_id,
                info,
                htlcs,
                counterparty,
                from + 1,
                sums,
            ),
            Some(amount) => {
                keeping_on(
                    origin,
                    store,
                    channel_id,
                    info,
                    htlcs,
                    counterparty,
                    from as int,
                );
                let (after, found) = find_htlc_payment(
                    store,
                    channel_id,
                    htlc.payment_hash@,
                    info,
                    amount,
                    inbound,
                );
                gathering_what_was_kept(
                    origin,
                    after,
                    channel_id,
                    info,
                    htlcs,
                    counterparty,
                    from + 1,
                    sums.with(
                        htlc.transaction_output_index.unwrap(),
                        found->Ok_0,
                        inbound,
                    ),
                );
            },
        }
    }
}

/// Coloring a commitment, up to the wallet's part, changes nothing but payment info: the info of
/// every channel, the journal, the consignments and the transfers stay as they were.
pub proof fn commitment_touches_only_payments(
    store: StoreView,
    channel_id: Seq<u8>,
    parts: CommitmentParts,
    counterparty: bool,
    key: EntryKey,
)
    requires
        key.secondary != payment_namespace(true),
        key.secondary != payment_namespace(false),
    ensures
        ({
            let after = begin_commitment(store, channel_id, parts, counterparty).0;
            &&& after.entries.contains_key(key) == store.entries.contains_key(key)
            &&& after.entries[key] == store.entries[key]
        }),
{
    let (after, read) = read_info(store, hex(channel_id), true);
    if let Ok(info) = read {
        gathering_touches_only_payments(
            after,
            hex(channel_id),
            info,
            parts.nondust_htlcs@,
            counterparty,
            0,
            HtlcSums::none(),
            key,
        );
    }
}

proof fn gathering_touches_only_payments(
    store: StoreView,
    channel_id: Seq<char>,
    info: RgbInfoView,
    htlcs: Seq<HTLCOutputInCommitment>,
    counterparty: bool,
    from: nat,
    sums: HtlcSums,
    key: EntryKey,
)
    requires
        key.secondary != payment_namespace(true),
        key.secondary != payment_namespace(false),
    ensures
        ({
            let after = gather(store, channel_id, info, htlcs, counterparty, from, sums).0;
            &&& after.entries.contains_key(key) == store.entries.contains_key(key)
            &&& after.entries[key] == store.entries[key]
        }),
    decreases htlcs.len() - from,
{
    if from < htlcs.len() {
        let htlc = htlcs[from as int];
        let inbound = htlc.offered == counterparty;
        match htlc.spec_rgb_amount() {
            None => gathering_touches_only_payments(
                store,
                channel_id,
                info,
                htlcs,
                counterparty,
                from + 1,
                sums,
                key,
            ),
            Some(amount) => {
                finding_touches_only_the_payment(
                    store,
                    channel_id,
                    htlc.payment_hash@,
                    info,
                    amount,
                    inbound,
                    key,
                );
                let (after, found) = find_htlc_payment(
                    store,
                    channel_id,
                    htlc.payment_hash@,
                    info,
                    amount,
                    inbound,
                );
                if let Ok(payment) = found {
                    gathering_touches_only_payments(
                        after,
                        channel_id,
                        info,
                        htlcs,
                        counterparty,
                        from + 1,
                        sums.with(htlc.transaction_output_index.unwrap(), payment, inbound),
                        key,
                    );
                }
            },
        }
    }
}

/// A closing transaction with one output for each side gives each side its balance, and nothing to
/// any other output.
pub proof fn closing_gives_each_side_its_balance(
    store: StoreView,
    channel_id: Seq<u8>,
    parts: ClosingParts,
    info: RgbInfoView,
    holder: usize,
    counterparty: usize,
)
    requires
        read_info(store, hex(channel_id), true).1 == Ok::<RgbInfoView, ErrorView>(info),
        parts.holder_vout() == Some(holder),
        parts.counterparty_vout() == Some(counterparty),
        holder != counterparty,
        holder <= u32::MAX,
        counterparty <= u32::MAX,
    ensures
        begin_closing(store, channel_id, parts).1 matches Ok(coloring) && {
            &&& coloring.contract_id == info.contract_id
            &&& coloring.output_map =~= map![
                holder as u32 => info.local_rgb_amount,
                counterparty as u32 => info.remote_rgb_amount,
            ]
        },
{
}

/// Each side's commitment of each channel has a fascia of its own: keeping one leaves all others as
/// they were.
pub proof fn each_commitment_side_has_its_own_fascia(
    channel_id: Seq<u8>,
    counterparty: bool,
    other_channel_id: Seq<u8>,
    other_counterparty: bool,
)
    requires
        channel_id.len() == other_channel_id.len(),
        fascia_key(channel_id, counterparty) == fascia_key(other_channel_id, other_counterparty),
    ensures
        channel_id == other_channel_id,
        counterparty == other_counterparty,
{
    reveal_strlit("_");
    reveal_strlit("cp");
    reveal_strlit("local");
    assert("_"@.len() == 1);
    assert("cp"@.len() == 2);
    assert("local"@.len() == 5);
    let name = fascia_name(channel_id, counterparty);
    let other_name = fascia_name(other_channel_id, other_counterparty);
    assert(hex(channel_id).len() == hex(other_channel_id).len());
    assert(name.len() == other_name.len());
    assert(hex(channel_id) =~= name.take(hex(channel_id).len() as int));
    assert(hex(other_channel_id) =~= other_name.take(hex(channel_id).len() as int));
    hex_tells_bytes_apart(channel_id, other_channel_id);
}

/// Keeping a colored commitment leaves the fascia of every other side and channel as it was.
pub proof fn keeping_leaves_other_fascias(
    store: StoreView,
    channel_id: Seq<u8>,
    counterparty: bool,
    fascia: Seq<u8>,
    txid: Seq<char>,
    coloring: ColoringView,
    after: StoreView,
    result: Result<(), ErrorView>,
    other_channel_id: Seq<u8>,
    other_counterparty: bool,
)
    requires
        channel_id.len() == other_channel_id.len(),
        channel_id != other_channel_id || counterparty != other_counterparty,
        keeps_commitment(
            store,
            channel_id,
            counterparty,
            fascia,
            txid,
            coloring,
            after,
            result,
        ),
    ensures
        stored_fascia(after, other_channel_id, other_counterparty) == stored_fascia(
            store,
            other_channel_id,
            other_counterparty,
        ),
{
    namespaces_differ();
    if fascia_key(channel_id, counterparty) == fascia_key(other_channel_id, other_counterparty) {
        each_commitment_side_has_its_own_fascia(
            channel_id,
            counterparty,
            other_channel_id,
            other_counterparty,
        );
    }
}

/// A fascia that the store holds for a commitment is read back as the same fascia: the bytes that
/// are read decode to it, whenever the read itself does not fail.
pub proof fn stored_fascia_reads_back(
    store: StoreView,
    channel_id: Seq<u8>,
    counterparty: bool,
    fascia: Fascia,
)
    requires
        store.next().fault is None,
        stored_fascia(store, channel_id, counterparty) == Some(fascia),
    ensures
        store.read(fascia_key(channel_id, counterparty)).1 matches Ok(bytes) && fascia_decoding(
            bytes,
        ) == Some(fascia),
{
}

/// What HTLCs carry in one direction grows, HTLC by HTLC, by the amount that the HTLC names, if it
/// names one and goes in that direction. An HTLC comes in if the side that offers it is not the
/// local one: on the counterparty's commitment if its owner offers it, on the holder's if not.
pub proof fn total_grows_by_what_each_htlc_carries(
    htlcs: Seq<HTLCOutputInCommitment>,
    counterparty: bool,
    inbound: bool,
    n: nat,
)
    requires
        n < htlcs.len(),
    ensures
        htlc_total(htlcs, counterparty, inbound, 0) == 0,
        htlc_total(htlcs, counterparty, inbound, n + 1) == htlc_total(
            htlcs,
            counterparty,
            inbound,
            n,
        ) + match htlcs[n as int].rgb_payment {
            Some(payment) => if inbound == (htlcs[n as int].offered == counterparty) {
                payment.1 as int
            } else {
                0
            },
            None => 0,
        },
{
}

/// HTLCs are in order exactly if each that carries assets is an output, and what they carry in
/// either direction stays in range.
pub proof fn htlcs_in_order_are_outputs_in_range(
    htlcs: Seq<HTLCOutputInCommitment>,
    counterparty: bool,
)
    ensures
        htlcs_in_order(htlcs, counterparty) <==> {
            &&& forall|i: int|
                0 <= i < htlcs.len() && ((#[trigger] htlcs[i]).rgb_payment matches Some(payment)
                    && payment.1 != 0) ==> htlcs[i].transaction_output_index is Some
            &&& htlc_total(htlcs, counterparty, false, htlcs.len()) <= u64::MAX
            &&& htlc_total(htlcs, counterparty, true, htlcs.len()) <= u64::MAX
        },
{
    if htlcs_in_order(htlcs, counterparty) {
        assert forall|i: int|
            0 <= i < htlcs.len() && ((#[trigger] htlcs[i]).rgb_payment matches Some(payment)
                && payment.1 != 0) implies htlcs[i].transaction_output_index is Some by {
            assert(htlcs[i].spec_rgb_amount() is Some);
        }
    }
}

/// HTLCs are looked up one by one, in order, each under its own hash, with the amount that it
/// names and in its own direction, in the store that the one before has left. One without assets
/// is passed over. What is found is added in its direction and stands at the output of its HTLC; a
/// failure ends the search.
pub proof fn htlcs_are_looked_up_one_by_one(
    store: StoreView,
    channel_id: Seq<char>,
    info: RgbInfoView,
    htlcs: Seq<HTLCOutputInCommitment>,
    counterparty: bool,
    from: nat,
    sums: HtlcSums,
)
    ensures
        ({
            let run = gather(store, channel_id, info, htlcs, counterparty, from, sums);
            let htlc = htlcs[from as int];
            let inbound = htlc.offered == counterparty;
            &&& from >= htlcs.len() ==> run == (store, Ok::<HtlcSums, ErrorView>(sums))
            &&& from < htlcs.len() ==> match htlc.rgb_payment {
                Some(carried) => if carried.1 == 0 {
                    run == gather(store, channel_id, info, htlcs, counterparty, from + 1, sums)
                } else {
                    let (after, found) = find_htlc_payment(
                        store,
                        channel_id,
                        htlc.payment_hash.0@,
                        info,
                        carried.1,
                        inbound,
                    );
                    match found {
                        Err(e) => run == (after, Err::<HtlcSums, ErrorView>(e)),
                        Ok(payment) => run == gather(
                            after,
                            channel_id,
                            info,
                            htlcs,
                            counterparty,
                            from + 1,
                            HtlcSums {
                                offered: sums.offered + if inbound {
                                    0
                                } else {
                                    carried.1 as int
                                },
                                received: sums.received + if inbound {
                                    carried.1 as int
                                } else {
                                    0
                                },
                                output_map: sums.output_map.insert(
                                    htlc.transaction_output_index.unwrap(),
                                    carried.1,
                                ),
                                last: Some(payment),
                            },
                        ),
                    }
                },
                None => run == gather(
                    store,
                    channel_id,
                    info,
                    htlcs,
                    counterparty,
                    from + 1,
                    sums,
                ),
            }
        }),
        HtlcSums::none() == (HtlcSums {
            offered: 0,
            received: 0,
            output_map: Map::empty(),
            last: None,
        }),
{
    if from < htlcs.len() {
        let htlc = htlcs[from as int];
        if let Some(amount) = htlc.spec_rgb_amount() {
            found_payment_fits(
                store,
                channel_id,
                htlc.payment_hash@,
                info,
                amount,
                htlc.offered == counterparty,
            );
        }
    }
}

proof fn gathered_outputs_are_htlcs(
    store: StoreView,
    channel_id: Seq<char>,
    info: RgbInfoView,
    htlcs: Seq<HTLCOutputInCommitment>,
    counterparty: bool,
    from: nat,
    sums: HtlcSums,
    vout: u32,
)
    requires
        from <= htlcs.len(),
        sums.output_map.contains_key(vout) ==> exists|i: int|
            0 <= i < from && (#[trigger] htlcs[i]).spec_rgb_amount() is Some
                && htlcs[i].transaction_output_index.unwrap() == vout,
    ensures
        gather(store, channel_id, info, htlcs, counterparty, from, sums).1 matches Ok(result)
            ==> result.output_map.contains_key(vout) ==> exists|i: int|
            0 <= i < htlcs.len() && (#[trigger] htlcs[i]).spec_rgb_amount() is Some
                && htlcs[i].transaction_output_index.unwrap() == vout,
    decreases htlcs.len() - from,
{
    if from < htlcs.len() {
        let htlc = htlcs[from as int];
        let inbound = htlc.offered == counterparty;
        match htlc.spec_rgb_amount() {
            None => gathered_outputs_are_htlcs(
                store,
                channel_id,
                info,
                htlcs,
                counterparty,
                from + 1,
                sums,
                vout,
            ),
            Some(amount) => {
                let (after, found) = find_htlc_payment(
                    store,
                    channel_id,
                    htlc.payment_hash@,
                    info,
                    amount,
                    inbound,
                );
                if let Ok(payment) = found {
                    let more = sums.with(
                        htlc.transaction_output_index.unwrap(),
                        payment,
                        inbound,
                    );
                    if more.output_map.contains_key(vout) {
                        assert(htlcs[from as int].spec_rgb_amount() is Some);
                    }
                    gathered_outputs_are_htlcs(
                        after,
                        channel_id,
                        info,
                        htlcs,
                        counterparty,
                        from + 1,
                        more,
                        vout,
                    );
                }
            },
        }
    }
}

proof fn gathered_htlc_stands_at_its_output(
    store: StoreView,
    channel_id: Seq<char>,
    info: RgbInfoView,
    htlcs: Seq<HTLCOutputInCommitment>,
    counterparty: bool,
    sums: HtlcSums,
    vout: u32,
)
    requires
        gather(store, channel_id, info, htlcs, counterparty, 0, HtlcSums::none()).1 == Ok::<
            HtlcSums,
            ErrorView,
        >(sums),
        exists|i: int|
            0 <= i < htlcs.len() && (#[trigger] htlcs[i]).spec_rgb_amount() is Some
                && htlcs[i].transaction_output_index.unwrap() == vout,
    ensures
        sums.output_map.contains_key(vout),
{
    gathered_htlcs_add_up(store, channel_id, info, htlcs, counterparty);
    let i = choose|i: int|
        0 <= i < htlcs.len() && (#[trigger] htlcs[i]).spec_rgb_amount() is Some
            && htlcs[i].transaction_output_index.unwrap() == vout;
    last_at_output(htlcs, vout, i);
}

/// Of the HTLCs at one output, one is the last.
proof fn last_at_output(htlcs: Seq<HTLCOutputInCommitment>, vout: u32, i: int)
    requires
        0 <= i < htlcs.len(),
        htlcs[i].spec_rgb_amount() is Some,
        htlcs[i].transaction_output_index.unwrap() == vout,
    ensures
        exists|j: int|
            0 <= j < htlcs.len() && htlcs[j].spec_rgb_amount() is Some
                && htlcs[j].transaction_output_index.unwrap() == vout && !#[trigger] overridden(
                htlcs,
                j,
                htlcs.len(),
            ),
    decreases htlcs.len() - i,
{
    if overridden(htlcs, i, htlcs.len()) {
        let j = choose|j: int|
            i < j < htlcs.len() && (#[trigger] htlcs[j]).spec_rgb_amount() is Some
                && htlcs[j].transaction_output_index.unwrap()
                == htlcs[i].transaction_output_index.unwrap();
        last_at_output(htlcs, vout, j);
    }
}

/// Whether the output `position` is the first one with the script, or there is none with it.
pub open spec fn is_first_with_script(
    outputs: Seq<TxOut>,
    script: Seq<u8>,
    position: Option<usize>,
) -> bool {
    match position {
        Some(i) => i < outputs.len() && outputs[i as int].script_pubkey@ == script && forall|j: int|
            0 <= j < i ==> (#[trigger] outputs[j]).script_pubkey@ != script,
        None => forall|j: int|
            0 <= j < outputs.len() ==> (#[trigger] outputs[j]).script_pubkey@ != script,
    }
}

proof fn first_with_script_is_found(
    outputs: Seq<TxOut>,
    script: Seq<u8>,
    position: Option<usize>,
)
    requires
        outputs.len() <= usize::MAX,
        is_first_with_script(outputs, script, position),
    ensures
        first_output(outputs, paying(script), 0) == position,
{
    first_output_is_first(outputs, paying(script), 0);
    match (first_output(outputs, paying(script), 0), position) {
        (Some(i), Some(j)) => {
            assert(paying(script)(outputs[i as int]));
            assert(outputs[i as int].script_pubkey@ == script);
            assert(paying(script)(outputs[j as int]));
        },
        (Some(i), None) => {
            assert(paying(script)(outputs[i as int]));
            assert(outputs[i as int].script_pubkey@ == script);
        },
        (None, Some(j)) => {
            assert(paying(script)(outputs[j as int]));
        },
        (None, None) => {},
    }
}

/// Each output of a commitment that is to be colored carries its share, for either side's
/// commitment. The output that pays the holder is the countersigner's on the counterparty's
/// commitment and the revokeable one on the holder's own; it carries the local balance less what
/// the HTLCs carry away. The output that pays the counterparty is the other one; it carries the
/// remote balance less what the HTLCs bring in. An HTLC's output carries what the HTLC names. No
/// other output carries anything. The balances are those that the last HTLC was first colored
/// with, or the present ones of the channel if no HTLC carries assets.
pub proof fn commitment_gives_each_side_its_share(
    store: StoreView,
    channel_id: Seq<u8>,
    parts: CommitmentParts,
    counterparty: bool,
    info: RgbInfoView,
    sums: HtlcSums,
    operation_id: Seq<char>,
    coloring: ColoringView,
    countersigner: Option<usize>,
    vout: u32,
    i: int,
)
    requires
        read_info(store, hex(channel_id), true).1 == Ok::<RgbInfoView, ErrorView>(info),
        gather(
            store.called(),
            hex(channel_id),
            info,
            parts.nondust_htlcs@,
            counterparty,
            0,
            HtlcSums::none(),
        ).1 == Ok::<HtlcSums, ErrorView>(sums),
        begin_commitment(store, channel_id, parts, counterparty).1 == Ok::<
            CommitmentStepView,
            ColoringFailureView,
        >(CommitmentStepView::Color { operation_id, coloring }),
        parts.outputs@.len() <= usize::MAX,
        is_first_with_script(
            parts.outputs@,
            if counterparty {
                parts.holder_payment_script@
            } else {
                parts.counterparty_payment_script@
            },
            countersigner,
        ),
    ensures
        ({
            let htlcs = parts.nondust_htlcs@;
            let offered = htlc_total(htlcs, counterparty, false, htlcs.len());
            let received = htlc_total(htlcs, counterparty, true, htlcs.len());
            let (local, remote) = match sums.last {
                Some(payment) => (payment.local_rgb_amount, payment.remote_rgb_amount),
                None => (info.local_rgb_amount, info.remote_rgb_amount),
            };
            let owner = parts.revokeable_output_index;
            let (holder, peer) = if counterparty {
                (countersigner, owner)
            } else {
                (owner, countersigner)
            };
            let at_owner = owner matches Some(o) && vout == o as u32;
            let at_countersigner = countersigner matches Some(c) && vout == c as u32;
            &&& offered <= local
            &&& received <= remote
            &&& (holder matches Some(h) && vout == h as u32) && !(at_owner && at_countersigner) ==> {
                &&& coloring.output_map.contains_key(vout)
                &&& coloring.output_map[vout] == local - offered
            }
            &&& (peer matches Some(p) && vout == p as u32) && !(at_owner && at_countersigner) ==> {
                &&& coloring.output_map.contains_key(vout)
                &&& coloring.output_map[vout] == remote - received
            }
            &&& at_owner && at_countersigner ==> coloring.output_map.contains_key(vout)
                && coloring.output_map[vout] == if counterparty {
                remote - received
            } else {
                local - offered
            }
            &&& {
                &&& 0 <= i < htlcs.len()
                &&& htlcs[i].rgb_payment matches Some(payment) && payment.1 != 0
                &&& htlcs[i].transaction_output_index.unwrap() == vout
                &&& !at_owner
                &&& !at_countersigner
                &&& forall|j: int|
                    i < j < htlcs.len() && (#[trigger] htlcs[j]).spec_rgb_amount() is Some
                        ==> htlcs[j].transaction_output_index.unwrap() != vout
            } ==> coloring.output_map.contains_key(vout) && coloring.output_map[vout]
                == htlcs[i].rgb_payment.unwrap().1
            &&& coloring.output_map.contains_key(vout) <==> at_owner || at_countersigner
                || exists|k: int|
                0 <= k < htlcs.len() && (#[trigger] htlcs[k]).spec_rgb_amount() is Some
                    && htlcs[k].transaction_output_index.unwrap() == vout
            &&& coloring.contract_id == info.contract_id
            &&& coloring.static_blinding == Some(777u64)
            &&& coloring.nonce is None
            &&& parts.funding_txid matches Some(txid) && operation_id == txid@
            &&& !parts.trusted_no_broadcast
        }),
{
    let htlcs = parts.nondust_htlcs@;
    let here = store.called();
    first_with_script_is_found(
        parts.outputs@,
        parts.countersigner_script(counterparty),
        countersigner,
    );
    gathered_htlcs_add_up(here, hex(channel_id), info, htlcs, counterparty);
    htlc_total_grows(htlcs, counterparty, false, 0, htlcs.len());
    htlc_total_grows(htlcs, counterparty, true, 0, htlcs.len());
    if sums.last is None {
        no_htlc_no_total(htlcs, counterparty, false, htlcs.len());
        no_htlc_no_total(htlcs, counterparty, true, htlcs.len());
    }
    gathered_outputs_are_htlcs(
        here,
        hex(channel_id),
        info,
        htlcs,
        counterparty,
        0,
        HtlcSums::none(),
        vout,
    );
    if exists|k: int|
        0 <= k < htlcs.len() && (#[trigger] htlcs[k]).spec_rgb_amount() is Some
            && htlcs[k].transaction_output_index.unwrap() == vout {
        gathered_htlc_stands_at_its_output(
            here,
            hex(channel_id),
            info,
            htlcs,
            counterparty,
            sums,
            vout,
        );
    }
    if 0 <= i < htlcs.len() && htlcs[i].transaction_output_index.unwrap() == vout && forall|j: int|
        i < j < htlcs.len() && (#[trigger] htlcs[j]).spec_rgb_amount() is Some
            ==> htlcs[j].transaction_output_index.unwrap() != vout {
        assert(!overridden(htlcs, i, htlcs.len()));
    }
}

/// What becomes of a commitment, once the payment info of its HTLCs has been found: one that is
/// never broadcast is left alone; one whose HTLCs exceed the balances that they are taken from
/// fails; one without a funding transaction closes the channel; any other is to be colored. Where
/// the info of the channel or of a payment cannot be had, the failure of the store is handed on.
pub proof fn commitment_is_colored_unless_it_cannot_be(
    store: StoreView,
    channel_id: Seq<u8>,
    parts: CommitmentParts,
    counterparty: bool,
)
    ensures
        ({
            let (after, step) = begin_commitment(store, channel_id, parts, counterparty);
            let htlcs = parts.nondust_htlcs@;
            match read_info(store, hex(channel_id), true).1 {
                Err(e) => after == store.called() && step == Err::<
                    CommitmentStepView,
                    ColoringFailureView,
                >(ColoringFailureView::Store(e)),
                Ok(info) => {
                    let (gathered, result) = gather(
                        store.called(),
                        hex(channel_id),
                        info,
                        htlcs,
                        counterparty,
                        0,
                        HtlcSums::none(),
                    );
                    &&& after == gathered
                    &&& match result {
                        Err(e) => step == Err::<CommitmentStepView, ColoringFailureView>(
                            ColoringFailureView::Store(e),
                        ),
                        Ok(sums) => {
                            let offered = htlc_total(htlcs, counterparty, false, htlcs.len());
                            let received = htlc_total(htlcs, counterparty, true, htlcs.len());
                            let exceeded = sums.last matches Some(payment) && (offered
                                > payment.local_rgb_amount || received
                                > payment.remote_rgb_amount);
                            &&& parts.trusted_no_broadcast ==> step == Ok::<
                                CommitmentStepView,
                                ColoringFailureView,
                            >(CommitmentStepView::Finished)
                            &&& !parts.trusted_no_broadcast && exceeded ==> step == Err::<
                                CommitmentStepView,
                                ColoringFailureView,
                            >(ColoringFailureView::Exceeded)
                            &&& !parts.trusted_no_broadcast && !exceeded
                                && parts.funding_txid is None ==> step == Err::<
                                CommitmentStepView,
                                ColoringFailureView,
                            >(
                                ColoringFailureView::Channel(
                                    "RGB commitment is missing its funding outpoint"@,
                                ),
                            )
                            &&& !parts.trusted_no_broadcast && !exceeded
                                && parts.funding_txid is Some ==> (step matches Ok(
                                CommitmentStepView::Color { .. },
                            ))
                        },
                    }
                },
            }
        }),
{
    if let Ok(info) = read_info(store, hex(channel_id), true).1 {
        gathered_htlcs_add_up(
            store.called(),
            hex(channel_id),
            info,
            parts.nondust_htlcs@,
            counterparty,
        );
    }
}

/// Where no call fails and no payment of a commitment is known to the channel yet, its outputs
/// share out the present balances: the holder's output carries the local balance less what the
/// HTLCs carry away, and the counterparty's the remote balance less what they bring in, on either
/// side's commitment. It is to be colored unless the HTLCs exceed a balance.
pub proof fn new_commitment_gives_each_side_its_present_share(
    store: StoreView,
    channel_id: Seq<u8>,
    parts: CommitmentParts,
    counterparty: bool,
    info: RgbInfoView,
    countersigner: usize,
    owner: usize,
)
    requires
        store.calm(),
        channel_id.len() == 32,
        stored_info(store, hex(channel_id), true) == Some(info),
        distinct_payments(parts.nondust_htlcs@),
        all_new(store, hex(channel_id), info, parts.nondust_htlcs@, counterparty, 0),
        !parts.trusted_no_broadcast,
        parts.funding_txid is Some,
        parts.outputs@.len() <= usize::MAX,
        is_first_with_script(
            parts.outputs@,
            if counterparty {
                parts.holder_payment_script@
            } else {
                parts.counterparty_payment_script@
            },
            Some(countersigner),
        ),
        parts.revokeable_output_index == Some(owner),
        countersigner as u32 != owner as u32,
    ensures
        ({
            let htlcs = parts.nondust_htlcs@;
            let offered = htlc_total(htlcs, counterparty, false, htlcs.len());
            let received = htlc_total(htlcs, counterparty, true, htlcs.len());
            let (holder, peer) = if counterparty {
                (countersigner as u32, owner as u32)
            } else {
                (owner as u32, countersigner as u32)
            };
            let step = begin_commitment(store, channel_id, parts, counterparty).1;
            &&& step is Ok <==> offered <= info.local_rgb_amount && received
                <= info.remote_rgb_amount
            &&& step is Ok ==> (step matches Ok(CommitmentStepView::Color { coloring, .. }) && {
                &&& coloring.output_map.contains_key(holder)
                &&& coloring.output_map[holder] == info.local_rgb_amount - offered
                &&& coloring.output_map.contains_key(peer)
                &&& coloring.output_map[peer] == info.remote_rgb_amount - received
            })
        }),
{
    let htlcs = parts.nondust_htlcs@;
    let (after, read) = read_info(store, hex(channel_id), true);
    assert(store.next().fault is None);
    assert forall|i: int| 0 <= i < htlcs.len() && (#[trigger] htlcs[i]).spec_rgb_amount() is Some
        implies is_new(
        after,
        hex(channel_id),
        htlcs[i].payment_hash@,
        info,
        htlcs[i].offered == counterparty,
    ) by {
        assert(is_new(
            store,
            hex(channel_id),
            htlcs[i].payment_hash@,
            info,
            htlcs[i].offered == counterparty,
        ));
    }
    new_commitment_conserves_the_present_total(after, hex(channel_id), info, htlcs, counterparty);
    commitment_is_colored_unless_it_cannot_be(store, channel_id, parts, counterparty);
    let sums = gather(
        after,
        hex(channel_id),
        info,
        htlcs,
        counterparty,
        0,
        HtlcSums::none(),
    ).1->Ok_0;
    if let Ok(CommitmentStepView::Color { operation_id, coloring }) = begin_commitment(
        store,
        channel_id,
        parts,
        counterparty,
    ).1 {
        commitment_gives_each_side_its_share(
            store,
            channel_id,
            parts,
            counterparty,
            info,
            sums,
            operation_id,
            coloring,
            Some(countersigner),
            countersigner as u32,
            0,
        );
        commitment_gives_each_side_its_share(
            store,
            channel_id,
            parts,
            counterparty,
            info,
            sums,
            operation_id,
            coloring,
            Some(countersigner),
            owner as u32,
            0,
        );
    }
}

/// Payment info is new to a channel that keeps nothing for the payment and for which nothing waits;
/// and where something waits, if it reads back with the present balances.
pub proof fn unknown_payment_is_new(
    store: StoreView,
    channel_id: Seq<char>,
    payment_hash: Seq<u8>,
    info: RgbInfoView,
    inbound: bool,
)
    ensures
        !store.entries.contains_key(payment_key(hex(payment_hash) + "_pending"@, inbound))
            && !store.entries.contains_key(
            payment_key(channel_id + hex(payment_hash), inbound),
        ) ==> is_new(store, channel_id, payment_hash, info, inbound),
        stored_payment(store, hex(payment_hash) + "_pending"@, inbound) matches Some(waiting) ==> {
            let taken = RgbPaymentInfoView {
                local_rgb_amount: info.local_rgb_amount,
                remote_rgb_amount: info.remote_rgb_amount,
                ..waiting
            };
            decode_payment(encode_payment(taken)) == Some(taken) ==> is_new(
                store,
                channel_id,
                payment_hash,
                info,
                inbound,
            )
        },
{
}

proof fn kept_sums_end_with_the_last(
    store: StoreView,
    channel_id: Seq<char>,
    htlcs: Seq<HTLCOutputInCommitment>,
    counterparty: bool,
    from: nat,
    sums: HtlcSums,
    last: int,
)
    requires
        from <= last < htlcs.len(),
        htlcs[last].spec_rgb_amount() is Some,
        forall|i: int|
            last < i < htlcs.len() ==> (#[trigger] htlcs[i]).spec_rgb_amount() is None,
    ensures
        kept_sums(store, channel_id, htlcs, counterparty, from, sums).last == Some(
            stored_payment(
                store,
                proxy_key(channel_id, htlcs[last].payment_hash@),
                htlcs[last].offered == counterparty,
            ).unwrap(),
        ),
    decreases htlcs.len() - from,
{
    let htlc = htlcs[from as int];
    let inbound = htlc.offered == counterparty;
    let more = match htlc.spec_rgb_amount() {
        None => sums,
        Some(_) => sums.with(
            htlc.transaction_output_index.unwrap(),
            stored_payment(store, proxy_key(channel_id, htlc.payment_hash@), inbound).unwrap(),
            inbound,
        ),
    };
    if from < last {
        kept_sums_end_with_the_last(
            store,
            channel_id,
            htlcs,
            counterparty,
            from + 1,
            more,
            last,
        );
    } else {
        kept_sums_without_more(store, channel_id, htlcs, counterparty, from + 1, more);
    }
}

proof fn kept_sums_without_more(
    store: StoreView,
    channel_id: Seq<char>,
    htlcs: Seq<HTLCOutputInCommitment>,
    counterparty: bool,
    from: nat,
    sums: HtlcSums,
)
    requires
        from <= htlcs.len(),
        forall|i: int|
            from <= i < htlcs.len() ==> (#[trigger] htlcs[i]).spec_rgb_amount() is None,
    ensures
        kept_sums(store, channel_id, htlcs, counterparty, from, sums) == sums,
    decreases htlcs.len() - from,
{
    if from < htlcs.len() {
        assert(htlcs[from as int].spec_rgb_amount() is None);
        kept_sums_without_more(store, channel_id, htlcs, counterparty, from + 1, sums);
    }
}

/// Where no call fails and the channel keeps info that describes each HTLC of a commitment, its
/// outputs share out the balances that the last HTLC is kept with, whatever the balances of the
/// channel have become.
pub proof fn known_commitment_gives_each_side_its_kept_share(
    store: StoreView,
    channel_id: Seq<u8>,
    parts: CommitmentParts,
    counterparty: bool,
    info: RgbInfoView,
    countersigner: usize,
    owner: usize,
    last: int,
    kept: RgbPaymentInfoView,
)
    requires
        store.calm(),
        channel_id.len() == 32,
        stored_info(store, hex(channel_id), true) == Some(info),
        forall|i: int|
            0 <= i < parts.nondust_htlcs@.len() && (
            #[trigger] parts.nondust_htlcs@[i]).spec_rgb_amount() is Some ==> {
                let htlc = parts.nondust_htlcs@[i];
                let inbound = htlc.offered == counterparty;
                let hash = htlc.payment_hash.0@;
                &&& !store.entries.contains_key(payment_key(hex(hash) + "_pending"@, inbound))
                &&& stored_payment(store, hex(channel_id) + hex(hash), inbound) matches Some(known)
                    && known.contract_id == info.contract_id && Some(known.amount)
                    == htlc.spec_rgb_amount() && known.inbound == inbound
            },
        0 <= last < parts.nondust_htlcs@.len(),
        parts.nondust_htlcs@[last].spec_rgb_amount() is Some,
        forall|i: int|
            last < i < parts.nondust_htlcs@.len() ==> (
            #[trigger] parts.nondust_htlcs@[i]).spec_rgb_amount() is None,
        stored_payment(
            store,
            hex(channel_id) + hex(parts.nondust_htlcs@[last].payment_hash.0@),
            parts.nondust_htlcs@[last].offered == counterparty,
        ) == Some(kept),
        !parts.trusted_no_broadcast,
        parts.funding_txid is Some,
        parts.outputs@.len() <= usize::MAX,
        is_first_with_script(
            parts.outputs@,
            if counterparty {
                parts.holder_payment_script@
            } else {
                parts.counterparty_payment_script@
            },
            Some(countersigner),
        ),
        parts.revokeable_output_index == Some(owner),
        countersigner as u32 != owner as u32,
    ensures
        ({
            let htlcs = parts.nondust_htlcs@;
            let offered = htlc_total(htlcs, counterparty, false, htlcs.len());
            let received = htlc_total(htlcs, counterparty, true, htlcs.len());
            let (holder, peer) = if counterparty {
                (countersigner as u32, owner as u32)
            } else {
                (owner as u32, countersigner as u32)
            };
            let step = begin_commitment(store, channel_id, parts, counterparty).1;
            &&& step is Ok <==> offered <= kept.local_rgb_amount && received
                <= kept.remote_rgb_amount
            &&& step is Ok ==> (step matches Ok(CommitmentStepView::Color { coloring, .. }) && {
                &&& coloring.output_map.contains_key(holder)
                &&& coloring.output_map[holder] == kept.local_rgb_amount - offered
                &&& coloring.output_map.contains_key(peer)
                &&& coloring.output_map[peer] == kept.remote_rgb_amount - received
            })
        }),
{
    let htlcs = parts.nondust_htlcs@;
    let id = hex(channel_id);
    let here = store.called();
    assert(store.next().fault is None);
    assert(read_info(store, id, true) == (here, Ok::<RgbInfoView, ErrorView>(info)));
    assert forall|i: int| 0 <= i < htlcs.len() && (#[trigger] htlcs[i]).spec_rgb_amount() is Some
        implies keeps_fitting(here, id, info, htlcs[i], counterparty) && !waits(
        here,
        htlcs[i],
        counterparty,
    ) by {
        let inbound = htlcs[i].offered == counterparty;
        let hash = htlcs[i].payment_hash@;
        assert(stored_payment(here, proxy_key(id, hash), inbound) == stored_payment(
            store,
            id + hex(hash),
            inbound,
        ));
    }
    assert(all_kept(here, id, info, htlcs, counterparty));
    coloring_again_uses_what_was_kept(here, id, info, htlcs, counterparty);
    kept_sums_end_with_the_last(here, id, htlcs, counterparty, 0, HtlcSums::none(), last);
    commitment_is_colored_unless_it_cannot_be(store, channel_id, parts, counterparty);
    let sums = gather(here, id, info, htlcs, counterparty, 0, HtlcSums::none()).1->Ok_0;
    assert(stored_payment(
        here,
        proxy_key(id, htlcs[last].payment_hash@),
        htlcs[last].offered == counterparty,
    ) == Some(kept));
    assert(sums.last == Some(kept));
    if let Ok(CommitmentStepView::Color { operation_id, coloring }) = begin_commitment(
        store,
        channel_id,
        parts,
        counterparty,
    ).1 {
        commitment_gives_each_side_its_share(
            store,
            channel_id,
            parts,
            counterparty,
            info,
            sums,
            operation_id,
            coloring,
            Some(countersigner),
            countersigner as u32,
            0,
        );
        commitment_gives_each_side_its_share(
            store,
            channel_id,
            parts,
            counterparty,
            info,
            sums,
            operation_id,
            coloring,
            Some(countersigner),
            owner as u32,
            0,
        );
    }
}

/// A commitment without assets in its HTLCs gives each side its present balance, on either side's
/// commitment, and changes nothing in the store, however it fails elsewhere.
pub proof fn commitment_without_htlcs_gives_each_side_its_balance(
    store: StoreView,
    channel_id: Seq<u8>,
    parts: CommitmentParts,
    counterparty: bool,
    info: RgbInfoView,
    countersigner: usize,
    owner: usize,
)
    requires
        (store.outcomes)(store.calls).fault is None,
        stored_info(store, hex(channel_id), true) == Some(info),
        forall|i: int|
            0 <= i < parts.nondust_htlcs@.len() ==> ((
            #[trigger] parts.nondust_htlcs@[i]).rgb_payment matches Some(payment) ==> payment.1
                == 0),
        !parts.trusted_no_broadcast,
        parts.funding_txid is Some,
        parts.outputs@.len() <= usize::MAX,
        is_first_with_script(
            parts.outputs@,
            if counterparty {
                parts.holder_payment_script@
            } else {
                parts.counterparty_payment_script@
            },
            Some(countersigner),
        ),
        parts.revokeable_output_index == Some(owner),
        countersigner as u32 != owner as u32,
    ensures
        ({
            let (holder, peer) = if counterparty {
                (countersigner as u32, owner as u32)
            } else {
                (owner as u32, countersigner as u32)
            };
            let (after, step) = begin_commitment(store, channel_id, parts, counterparty);
            &&& after.entries == store.entries
            &&& step matches Ok(CommitmentStepView::Color { coloring, .. }) && coloring.output_map
                == map![holder => info.local_rgb_amount, peer => info.remote_rgb_amount]
        }),
{
    let htlcs = parts.nondust_htlcs@;
    gathering_nothing(
        store.called(),
        hex(channel_id),
        info,
        htlcs,
        counterparty,
        0,
        HtlcSums::none(),
    );
    first_with_script_is_found(
        parts.outputs@,
        parts.countersigner_script(counterparty),
        Some(countersigner),
    );
    let (holder, peer) = if counterparty {
        (countersigner as u32, owner as u32)
    } else {
        (owner as u32, countersigner as u32)
    };
    if let Ok(CommitmentStepView::Color { coloring, .. }) = begin_commitment(
        store,
        channel_id,
        parts,
        counterparty,
    ).1 {
        assert(coloring.output_map =~= map![
            holder => info.local_rgb_amount,
            peer => info.remote_rgb_amount,
        ]);
    }
}

proof fn gathering_nothing(
    store: StoreView,
    channel_id: Seq<char>,
    info: RgbInfoView,
    htlcs: Seq<HTLCOutputInCommitment>,
    counterparty: bool,
    from: nat,
    sums: HtlcSums,
)
    requires
        forall|i: int|
            0 <= i < htlcs.len() ==> ((#[trigger] htlcs[i]).rgb_payment matches Some(payment)
                ==> payment.1 == 0),
    ensures
        gather(store, channel_id, info, htlcs, counterparty, from, sums) == (
            store,
            Ok::<HtlcSums, ErrorView>(sums),
        ),
    decreases htlcs.len() - from,
{
    if from < htlcs.len() {
        assert(htlcs[from as int].spec_rgb_amount() is None);
        gathering_nothing(store, channel_id, info, htlcs, counterparty, from + 1, sums);
    }
}

/// What a commitment leaves the two sides: without HTLCs the present balances, else those of the
/// last HTLC less what goes out and what comes in; nothing if either is exceeded.
pub proof fn commitment_leaves_what_the_htlcs_do_not_carry(
    info: RgbInfoView,
    sums: HtlcSums,
    payment: RgbPaymentInfoView,
)
    requires
        sums.offered >= 0,
        sums.received >= 0,
    ensures
        sums.last is None ==> commitment_amounts(info, sums) == Some(
            (info.local_rgb_amount, info.remote_rgb_amount),
        ),
        sums.last == Some(payment) ==> {
            &&& commitment_amounts(info, sums) is Some <==> sums.offered
                <= payment.local_rgb_amount && sums.received <= payment.remote_rgb_amount
            &&& commitment_amounts(info, sums) matches Some(left) ==> {
                &&& left.0 + sums.offered == payment.local_rgb_amount
                &&& left.1 + sums.received == payment.remote_rgb_amount
            }
        },
{
}

/// An HTLC transaction is colored exactly if its HTLC carries assets, in either direction. It is
/// then colored under the contract of the transfer that is kept for the commitment whose output
/// its first input spends, and its first output, and no other, carries the amount of the HTLC.
pub proof fn htlc_transaction_carries_what_its_htlc_carries(
    store: StoreView,
    htlc: HTLCOutputInCommitment,
    transaction: Seq<u8>,
)
    ensures
        ({
            let (after, result) = begin_htlc(store, htlc, transaction);
            let carries = htlc.rgb_payment matches Some(payment) && payment.1 != 0;
            &&& result == Ok::<Option<ColoringView>, ColoringFailureView>(None) <==> !carries
            &&& !carries ==> after == store
            &&& carries ==> match spent_txid_texts(transaction) {
                None => after == store && result == Err::<
                    Option<ColoringView>,
                    ColoringFailureView,
                >(ColoringFailureView::NoTransaction),
                Some(spent) => if spent.len() == 0 {
                    after == store && result == Err::<Option<ColoringView>, ColoringFailureView>(
                        ColoringFailureView::NoInput,
                    )
                } else {
                    &&& after == store.called()
                    &&& result is Ok <==> (store.outcomes)(store.calls).fault is None
                        && stored_transfer(store, spent[0]) is Some
                    &&& result is Err ==> (result matches Err(ColoringFailureView::Store(_)))
                    &&& result is Ok ==> (result matches Ok(Some(coloring)) && {
                        &&& coloring.contract_id == stored_transfer(
                            store,
                            spent[0],
                        ).unwrap().contract_id
                        &&& coloring.output_map == map![0u32 => htlc.rgb_payment.unwrap().1]
                        &&& coloring.static_blinding == Some(777u64)
                        &&& coloring.nonce == Some(1u64)
                    })
                },
            }
        }),
{
    if let Some(amount) = htlc.spec_rgb_amount() {
        assert(Map::<u32, u64>::empty().insert(0, amount) =~= map![0u32 => amount]);
    }
}

/// The same, given the ID of the commitment.
pub proof fn htlc_is_colored_after_its_commitment(
    store: StoreView,
    htlc: HTLCOutputInCommitment,
    commitment_txid: Seq<char>,
)
    ensures
        ({
            let (after, result) = color_htlc_of(store, htlc, commitment_txid);
            let carries = htlc.rgb_payment matches Some(payment) && payment.1 != 0;
            &&& result == Ok::<Option<ColoringView>, ErrorView>(None) <==> !carries
            &&& !carries ==> after == store
            &&& carries ==> {
                &&& after == store.called()
                &&& result is Ok <==> (store.outcomes)(store.calls).fault is None
                    && stored_transfer(store, commitment_txid) is Some
                &&& result is Ok ==> (result matches Ok(Some(coloring)) && {
                    &&& coloring.contract_id == stored_transfer(
                        store,
                        commitment_txid,
                    ).unwrap().contract_id
                    &&& coloring.output_map == map![0u32 => htlc.rgb_payment.unwrap().1]
                    &&& coloring.static_blinding == Some(777u64)
                    &&& coloring.nonce == Some(1u64)
                })
            }
        }),
{
    if let Some(amount) = htlc.spec_rgb_amount() {
        assert(Map::<u32, u64>::empty().insert(0, amount) =~= map![0u32 => amount]);
    }
}

/// A closing transaction gives each side that is paid its pending balance, at the first output with
/// its script; a side that is paid nothing gets no assets, and no other output carries any. It is
/// colored if and only if the pending info of the channel can be read.
pub proof fn closing_pays_each_side_at_its_script(
    store: StoreView,
    channel_id: Seq<u8>,
    parts: ClosingParts,
    holder: Option<usize>,
    peer: Option<usize>,
    vout: u32,
)
    requires
        parts.outputs@.len() <= usize::MAX,
        is_first_with_script(parts.outputs@, parts.to_holder_script@, holder),
        is_first_with_script(parts.outputs@, parts.to_counterparty_script@, peer),
    ensures
        ({
            let (after, result) = begin_closing(store, channel_id, parts);
            let held = stored_info(store, hex(channel_id), true);
            let at_holder = parts.to_holder_value_sat > 0 && (holder matches Some(h) && vout
                == h as u32);
            let at_peer = parts.to_counterparty_value_sat > 0 && (peer matches Some(p) && vout
                == p as u32);
            &&& after == store.called()
            &&& result is Ok <==> (store.outcomes)(store.calls).fault is None && held is Some
            &&& result matches Ok(coloring) ==> {
                &&& coloring.contract_id == held.unwrap().contract_id
                &&& coloring.static_blinding == Some(777u64)
                &&& coloring.nonce is None
                &&& coloring.output_map.contains_key(vout) <==> at_holder || at_peer
                &&& at_holder && !at_peer ==> coloring.output_map[vout]
                    == held.unwrap().local_rgb_amount
                &&& at_peer ==> coloring.output_map[vout] == held.unwrap().remote_rgb_amount
            }
            &&& parts.pays_both() <==> (parts.to_holder_value_sat > 0 ==> holder is Some) && (
            parts.to_counterparty_value_sat > 0 ==> peer is Some)
        }),
{
    first_with_script_is_found(parts.outputs@, parts.to_holder_script@, holder);
    first_with_script_is_found(parts.outputs@, parts.to_counterparty_script@, peer);
}

/// The OP_RETURN output of a transaction is the first one whose script begins with that opcode.
pub proof fn op_return_output_is_the_first_one(tx: Transaction)
    requires
        tx.output@.len() <= usize::MAX,
    ensures
        match first_output(tx.output@, returning(), 0) {
            Some(i) => {
                &&& i < tx.output@.len()
                &&& tx.output@[i as int].script_pubkey@.len() > 0
                &&& tx.output@[i as int].script_pubkey@[0] == 0x6a
                &&& forall|j: int|
                    0 <= j < i ==> (#[trigger] tx.output@[j]).script_pubkey@.len() == 0
                        || tx.output@[j].script_pubkey@[0] != 0x6a
            },
            None => forall|j: int|
                0 <= j < tx.output@.len() ==> (#[trigger] tx.output@[j]).script_pubkey@.len() == 0
                    || tx.output@[j].script_pubkey@[0] != 0x6a,
        },
{
    first_output_is_first(tx.output@, returning(), 0);
    assert forall|j: int| 0 <= j < tx.output@.len() implies returning()(#[trigger] tx.output@[j])
        == (tx.output@[j].script_pubkey@.len() > 0 && tx.output@[j].script_pubkey@[0] == 0x6a) by {
    }
}

/// The output that pays a script is the first one with exactly that script.
pub proof fn paying_output_is_the_first_with_the_script(outputs: Seq<TxOut>, script: Seq<u8>)
    requires
        outputs.len() <= usize::MAX,
    ensures
        is_first_with_script(outputs, script, first_output(outputs, paying(script), 0)),
{
    first_output_is_first(outputs, paying(script), 0);
    assert forall|j: int| 0 <= j < outputs.len() implies paying(script)(#[trigger] outputs[j]) == (
    outputs[j].script_pubkey@ == script) by {
    }
}

/// The latest fascia of a commitment is kept under the channel ID and the side that it belongs to.
pub proof fn fascia_is_kept_by_channel_and_side(channel_id: Seq<u8>)
    ensures
        fascia_key(channel_id, true) == (EntryKey {
            primary: "rgb"@,
            secondary: "commitment_fascia"@,
            key: hex(channel_id) + "_"@ + "cp"@,
        }),
        fascia_key(channel_id, false) == (EntryKey {
            primary: "rgb"@,
            secondary: "commitment_fascia"@,
            key: hex(channel_id) + "_"@ + "local"@,
        }),
{
}

/// Keeping a colored commitment writes its fascia, then its transfer: the contract and the amount
/// of each output, under the transaction ID. It succeeds if and only if neither write fails, and
/// the store then holds both. No other entry changes.
pub proof fn kept_commitment_is_its_fascia_and_its_transfer(
    store: StoreView,
    channel_id: Seq<u8>,
    counterparty: bool,
    fascia: Seq<u8>,
    txid: Seq<char>,
    coloring: ColoringView,
    after: StoreView,
    result: Result<(), ErrorView>,
    key: EntryKey,
)
    requires
        keeps_commitment(
            store,
            channel_id,
            counterparty,
            fascia,
            txid,
            coloring,
            after,
            result,
        ),
    ensures
        ({
            let place = fascia_key(channel_id, counterparty);
            &&& result is Ok <==> (store.outcomes)(store.calls).fault is None && (store.outcomes)(
                store.calls + 1,
            ).fault is None
            &&& result is Ok ==> {
                &&& after.entries.contains_key(place)
                &&& after.entries[place] == fascia
                &&& stored_transfer(after, txid) matches Some(transfer) && transfer.contract_id
                    == coloring.contract_id && transfer.output_map == coloring.output_map
            }
            &&& key != place && key != transfer_key(txid) ==> after.entries.contains_key(key)
                == store.entries.contains_key(key) && after.entries[key] == store.entries[key]
        }),
        transfer_of(coloring).contract_id == coloring.contract_id,
        transfer_of(coloring).output_map == coloring.output_map,
{
    namespaces_differ();
}

/// The views of a coloring, of the sums of HTLCs and of a step show each of their values as it is.
pub proof fn colorings_show_each_value(
    coloring: Coloring,
    sums: CommitmentHtlcs,
    step: CommitmentStep,
    failure: ColoringFailure,
)
    ensures
        coloring@.contract_id == coloring.contract_id.0@,
        coloring@.output_map == coloring.output_map@,
        coloring@.static_blinding == coloring.static_blinding,
        coloring@.nonce == coloring.nonce,
        sums@.offered == sums.offered,
        sums@.received == sums.received,
        sums@.output_map == sums.output_map@,
        sums.last matches Some(payment) ==> sums@.last == Some(payment@),
        sums.last is None ==> sums@.last is None,
        step is Finished <==> step@ is Finished,
        step matches CommitmentStep::Color { operation_id, coloring } ==> step@ == (
        CommitmentStepView::Color { operation_id: operation_id@, coloring: coloring@ }),
        step_view(Ok(step)) == Ok::<CommitmentStepView, ColoringFailureView>(step@),
        step_view(Err(failure)) == Err::<CommitmentStepView, ColoringFailureView>(failure@),
        failure matches ColoringFailure::Store(e) ==> failure@ == ColoringFailureView::Store(e@),
        failure is Exceeded <==> failure@ is Exceeded,
        failure is Unserializable <==> failure@ is Unserializable,
        failure is NoTransaction <==> failure@ is NoTransaction,
        failure is NoInput <==> failure@ is NoInput,
        failure matches ColoringFailure::Channel(e) ==> failure@ == ColoringFailureView::Channel(
            e.reason(),
        ),
{
}

/// What is planned for a commitment, whatever its HTLCs come to: the output that pays the holder
/// (the countersigner's on the counterparty's commitment, the revokeable one on the holder's)
/// carries the local balance less what is offered; the output that pays the counterparty carries
/// the remote balance less what is received; every other output carries what the HTLCs gave it.
/// The balances are those of the last HTLC, or the present ones without any.
pub proof fn plan_gives_each_side_its_share(
    info: RgbInfoView,
    sums: HtlcSums,
    parts: CommitmentParts,
    counterparty: bool,
    countersigner: Option<usize>,
    vout: u32,
)
    requires
        sums.offered >= 0,
        sums.received >= 0,
        parts.outputs@.len() <= usize::MAX,
        is_first_with_script(
            parts.outputs@,
            if counterparty {
                parts.holder_payment_script@
            } else {
                parts.counterparty_payment_script@
            },
            countersigner,
        ),
    ensures
        ({
            let step = commitment_step(info, sums, parts, counterparty);
            let (local, remote) = match sums.last {
                Some(payment) => (
                    payment.local_rgb_amount - sums.offered,
                    payment.remote_rgb_amount - sums.received,
                ),
                None => (info.local_rgb_amount as int, info.remote_rgb_amount as int),
            };
            let at_owner = parts.revokeable_output_index matches Some(o) && vout == o as u32;
            let at_countersigner = countersigner matches Some(c) && vout == c as u32;
            let at_holder = if counterparty {
                at_countersigner && !at_owner
            } else {
                at_owner
            };
            let at_peer = if counterparty {
                at_owner
            } else {
                at_countersigner && !at_owner
            };
            &&& parts.trusted_no_broadcast ==> step == Ok::<
                CommitmentStepView,
                ColoringFailureView,
            >(CommitmentStepView::Finished)
            &&& !parts.trusted_no_broadcast && (local < 0 || remote < 0) ==> step == Err::<
                CommitmentStepView,
                ColoringFailureView,
            >(ColoringFailureView::Exceeded)
            &&& !parts.trusted_no_broadcast && local >= 0 && remote >= 0 ==> match
                parts.funding_txid {
                None => step == Err::<CommitmentStepView, ColoringFailureView>(
                    ColoringFailureView::Channel(
                        "RGB commitment is missing its funding outpoint"@,
                    ),
                ),
                Some(txid) => step matches Ok(
                    CommitmentStepView::Color { operation_id, coloring },
                ) && {
                    &&& operation_id == txid@
                    &&& coloring.contract_id == info.contract_id
                    &&& coloring.static_blinding == Some(777u64)
                    &&& coloring.nonce is None
                    &&& at_holder ==> coloring.output_map.contains_key(vout)
                        && coloring.output_map[vout] == local
                    &&& at_peer ==> coloring.output_map.contains_key(vout)
                        && coloring.output_map[vout] == remote
                    &&& !at_owner && !at_countersigner ==> coloring.output_map.contains_key(vout)
                        == sums.output_map.contains_key(vout) && coloring.output_map[vout]
                        == sums.output_map[vout]
                },
            }
        }),
{
    first_with_script_is_found(
        parts.outputs@,
        parts.countersigner_script(counterparty),
        countersigner,
    );
}

/// The fascia that the store holds for a commitment is what the bytes in its place decode to.
pub proof fn stored_fascia_is_told_by_the_entries(
    store: StoreView,
    channel_id: Seq<u8>,
    counterparty: bool,
)
    ensures
        ({
            let key = fascia_key(channel_id, counterparty);
            &&& store.entries.contains_key(key) ==> stored_fascia(store, channel_id, counterparty)
                == fascia_decoding(store.entries[key])
            &&& !store.entries.contains_key(key) ==> stored_fascia(
                store,
                channel_id,
                counterparty,
            ) is None
        }),
{
}

} // verus!
