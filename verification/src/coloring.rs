//! Coloring of the transactions of a channel: which output carries how much of the asset.

use vstd::prelude::*;
use std::collections::HashMap;
use rgbstd::containers::Fascia;
use crate::channel::get_rgb_channel_info_pending;
#[allow(unused_imports)]
use crate::channel::pending_payment_key;
#[allow(unused_imports)]
use crate::coloring_laws::{
    assigned_to, commitment_conserves_the_total, commitment_outputs_add_up, commitment_vouts,
    gathered_htlcs_add_up, pays_each_once, sides_have_different_outputs, total_at,
};
use crate::errors::{ChannelError, Error};
#[allow(unused_imports)]
use crate::errors::{undecodable, unit_view, ErrorView};
use crate::htlc::{find_htlc_payment_info, HTLCOutputInCommitment};
#[allow(unused_imports)]
use crate::htlc::{
    compatible, find_htlc_payment, finding_keeps_the_outcomes, finding_touches_only_the_payment,
    found_payment_fits, has_balances, keeps_present, kept_places_differ,
    payment_keys_have_their_lengths, payment_of_another_stays, proxy_key, proxy_pending_key,
    waiting_payment_is_taken_once,
};
use crate::info::{ContractId, RgbInfo, RgbPaymentInfo, TransferInfo};
#[allow(unused_imports)]
use crate::info::{RgbInfoView, RgbPaymentInfoView, TransferInfoView};
use crate::outside::{
    compute_txid, decode_fascia, encode_fascia, script_is_op_return, spent_txids,
};
#[allow(unused_imports)]
use crate::outside::{fascia_decoding, fascia_encoding, spent_txid_texts, transaction_id_text};
use crate::records::{ChannelId, RgbKvStoreExt};
#[allow(unused_imports)]
use crate::records::{
    payment_key, read_info, read_transfer, stored_info, stored_payment, stored_transfer,
    writes_transfer,
};
use crate::store::{KVStoreSync, RGB_COMMITMENT_FASCIA_NS, RGB_PRIMARY_NS};
#[allow(unused_imports)]
use crate::store::{namespaces_differ, rgb_key, EntryKey, StoreView};
use crate::text::{join, same_bytes};
#[allow(unused_imports)]
use crate::text::hex;

verus! {

broadcast use vstd::std_specs::hash::group_hash_axioms;

/// Static blinding constant (will be removed in the future)
pub const STATIC_BLINDING: u64 = 777;

/// What coloring reads of an output of a transaction.
#[derive(Debug)]
pub struct TxOut {
    pub script_pubkey: Vec<u8>,
}

/// What coloring reads of a transaction.
#[derive(Debug)]
pub struct Transaction {
    pub output: Vec<TxOut>,
}

/// The position, from `from` on, of the first output that is wanted.
pub open spec fn first_output(
    outputs: Seq<TxOut>,
    wanted: spec_fn(TxOut) -> bool,
    from: nat,
) -> Option<usize>
    decreases outputs.len() - from,
{
    if from >= outputs.len() {
        None
    } else if wanted(outputs[from as int]) {
        Some(from as usize)
    } else {
        first_output(outputs, wanted, from + 1)
    }
}

/// Outputs with the given script.
pub open spec fn paying(script: Seq<u8>) -> spec_fn(TxOut) -> bool {
    |output: TxOut| output.script_pubkey@ == script
}

/// Outputs whose script starts with the OP_RETURN opcode.
pub open spec fn returning() -> spec_fn(TxOut) -> bool {
    |output: TxOut| output.script_pubkey@.len() > 0 && output.script_pubkey@[0] == 0x6a
}

/// The first wanted output is wanted, and no output before it is. Where there is none, no output is
/// wanted.
pub proof fn first_output_is_first(
    outputs: Seq<TxOut>,
    wanted: spec_fn(TxOut) -> bool,
    from: nat,
)
    requires
        outputs.len() <= usize::MAX,
    ensures
        match first_output(outputs, wanted, from) {
            Some(i) => from <= i < outputs.len() && wanted(outputs[i as int]) && forall|j: int|
                from <= j < i ==> !wanted(#[trigger] outputs[j]),
            None => forall|j: int| from <= j < outputs.len() ==> !wanted(#[trigger] outputs[j]),
        },
    decreases outputs.len() - from,
{
    if from < outputs.len() && !wanted(outputs[from as int]) {
        first_output_is_first(outputs, wanted, from + 1);
    }
}

/// Return the position of the OP_RETURN output, if present
pub fn op_return_position(tx: &Transaction) -> (r: Option<usize>)
    ensures
        r == first_output(tx.output@, returning(), 0),
{
    let mut i: usize = 0;
    while i < tx.output.len()
        invariant
            i <= tx.output.len(),
            first_output(tx.output@, returning(), 0) == first_output(
                tx.output@,
                returning(),
                i as nat,
            ),
        decreases tx.output.len() - i,
    {
        if script_is_op_return(tx.output[i].script_pubkey.as_slice()) {
            return Some(i);
        }
        i = i + 1;
    }
    None
}

/// Whether the transaction is colored (i.e. it has an OP_RETURN output)
pub fn is_tx_colored(tx: &Transaction) -> (r: bool)
    ensures
        r == (first_output(tx.output@, returning(), 0) is Some),
{
    op_return_position(tx).is_some()
}

/// The position of the first output with the given script, if there is one.
pub fn script_position(outputs: &Vec<TxOut>, script: &[u8]) -> (r: Option<usize>)
    ensures
        r == first_output(outputs@, paying(script@), 0),
{
    let mut i: usize = 0;
    while i < outputs.len()
        invariant
            i <= outputs.len(),
            first_output(outputs@, paying(script@), 0) == first_output(
                outputs@,
                paying(script@),
                i as nat,
            ),
        decreases outputs.len() - i,
    {
        if same_bytes(outputs[i].script_pubkey.as_slice(), script) {
            return Some(i);
        }
        i = i + 1;
    }
    None
}

/// A transaction is colored exactly if one of its outputs is an OP_RETURN output.
pub proof fn colored_has_op_return(tx: Transaction)
    requires
        tx.output@.len() <= usize::MAX,
    ensures
        first_output(tx.output@, returning(), 0) is Some <==> exists|i: int|
            0 <= i < tx.output@.len() && returning()(#[trigger] tx.output@[i]),
{
    first_output_is_first(tx.output@, returning(), 0);
}

/// What the wallet colors a transaction with: the amount of each output, and the blinding.
#[derive(Debug)]
pub struct Coloring {
    pub contract_id: ContractId,
    /// RGB amount assigned to each output of the transaction, by vout
    pub output_map: HashMap<u32, u64>,
    pub static_blinding: Option<u64>,
    pub nonce: Option<u64>,
}

/// What contracts say of a [`Coloring`].
pub struct ColoringView {
    pub contract_id: Seq<u8>,
    pub output_map: Map<u32, u64>,
    pub static_blinding: Option<u64>,
    pub nonce: Option<u64>,
}

impl View for Coloring {
    type V = ColoringView;

    open spec fn view(&self) -> ColoringView {
        ColoringView {
            contract_id: self.contract_id@,
            output_map: self.output_map@,
            static_blinding: self.static_blinding,
            nonce: self.nonce,
        }
    }
}

/// The coloring of a transaction of a channel.
pub open spec fn channel_coloring(
    contract_id: Seq<u8>,
    output_map: Map<u32, u64>,
    nonce: Option<u64>,
) -> ColoringView {
    ColoringView { contract_id, output_map, static_blinding: Some(STATIC_BLINDING), nonce }
}

/// Why a transaction could not be colored.
#[derive(Debug)]
pub enum ColoringFailure {
    /// The store failed, or holds data that does not decode.
    Store(Error),
    /// What the HTLCs carry exceeds the balances that it is taken from.
    Exceeded,
    /// The fascia has no encoding, with the words of the encoder.
    Unserializable(String),
    /// The bytes are no transaction, with the words of the decoder.
    NoTransaction(String),
    /// The transaction spends nothing.
    NoInput,
    /// The channel must be closed.
    Channel(ChannelError),
}

/// What contracts say of a [`ColoringFailure`].
pub enum ColoringFailureView {
    Store(ErrorView),
    Exceeded,
    Unserializable,
    NoTransaction,
    NoInput,
    Channel(Seq<char>),
}

impl View for ColoringFailure {
    type V = ColoringFailureView;

    open spec fn view(&self) -> ColoringFailureView {
        match self {
            ColoringFailure::Store(e) => ColoringFailureView::Store(e@),
            ColoringFailure::Exceeded => ColoringFailureView::Exceeded,
            ColoringFailure::Unserializable(_) => ColoringFailureView::Unserializable,
            ColoringFailure::NoTransaction(_) => ColoringFailureView::NoTransaction,
            ColoringFailure::NoInput => ColoringFailureView::NoInput,
            ColoringFailure::Channel(e) => ColoringFailureView::Channel(e.reason()),
        }
    }
}

/// What the HTLCs of a commitment come to.
#[derive(Debug)]
pub struct CommitmentHtlcs {
    /// What leaves the channel.
    pub offered: u64,
    /// What enters the channel.
    pub received: u64,
    /// The amount of each HTLC output, by vout.
    pub output_map: HashMap<u32, u64>,
    /// The payment info of the last HTLC with assets.
    pub last: Option<RgbPaymentInfo>,
}

/// What contracts say of a [`CommitmentHtlcs`].
pub struct HtlcSums {
    pub offered: int,
    pub received: int,
    pub output_map: Map<u32, u64>,
    pub last: Option<RgbPaymentInfoView>,
}

impl View for CommitmentHtlcs {
    type V = HtlcSums;

    open spec fn view(&self) -> HtlcSums {
        HtlcSums {
            offered: self.offered as int,
            received: self.received as int,
            output_map: self.output_map@,
            last: match self.last {
                Some(payment) => Some(payment@),
                None => None,
            },
        }
    }
}

impl HtlcSums {
    /// The sums of no HTLC.
    pub open spec fn none() -> HtlcSums {
        HtlcSums { offered: 0, received: 0, output_map: Map::empty(), last: None }
    }

    /// The sums with one more HTLC.
    pub open spec fn with(self, vout: u32, payment: RgbPaymentInfoView, inbound: bool) -> HtlcSums {
        HtlcSums {
            offered: if inbound {
                self.offered
            } else {
                self.offered + payment.amount
            },
            received: if inbound {
                self.received + payment.amount
            } else {
                self.received
            },
            output_map: self.output_map.insert(vout, payment.amount),
            last: Some(payment),
        }
    }
}

/// Finds the payment info of the HTLCs from `from` on, in order, and adds them up.
pub open spec fn gather(
    store: StoreView,
    channel_id: Seq<char>,
    info: RgbInfoView,
    htlcs: Seq<HTLCOutputInCommitment>,
    counterparty: bool,
    from: nat,
    sums: HtlcSums,
) -> (StoreView, Result<HtlcSums, ErrorView>)
    decreases htlcs.len() - from,
{
    if from >= htlcs.len() {
        (store, Ok(sums))
    } else {
        let htlc = htlcs[from as int];
        let inbound = htlc.offered == counterparty;
        match htlc.spec_rgb_amount() {
            None => gather(store, channel_id, info, htlcs, counterparty, from + 1, sums),
            Some(amount) => {
                let (after, found) = find_htlc_payment(
                    store,
                    channel_id,
                    htlc.payment_hash@,
                    info,
                    amount,
                    inbound,
                );
                match found {
                    Err(e) => (after, Err(e)),
                    Ok(payment) => gather(
                        after,
                        channel_id,
                        info,
                        htlcs,
                        counterparty,
                        from + 1,
                        sums.with(htlc.transaction_output_index.unwrap(), payment, inbound),
                    ),
                }
            },
        }
    }
}

/// What the first `n` HTLCs carry in one direction.
pub open spec fn htlc_total(
    htlcs: Seq<HTLCOutputInCommitment>,
    counterparty: bool,
    inbound: bool,
    n: nat,
) -> int
    decreases n,
{
    if n == 0 {
        0
    } else {
        let htlc = htlcs[n - 1];
        htlc_total(htlcs, counterparty, inbound, (n - 1) as nat) + match htlc.spec_rgb_amount() {
            Some(amount) => if (htlc.offered == counterparty) == inbound {
                amount as int
            } else {
                0
            },
            None => 0,
        }
    }
}

/// Whether every HTLC with assets is an output of the commitment, and what they carry in either
/// direction stays in range.
pub open spec fn htlcs_in_order(htlcs: Seq<HTLCOutputInCommitment>, counterparty: bool) -> bool {
    &&& forall|i: int|
        0 <= i < htlcs.len() && (#[trigger] htlcs[i]).spec_rgb_amount() is Some
            ==> htlcs[i].transaction_output_index is Some
    &&& htlc_total(htlcs, counterparty, false, htlcs.len()) <= u64::MAX
    &&& htlc_total(htlcs, counterparty, true, htlcs.len()) <= u64::MAX
}

/// What HTLCs carry grows with their number.
pub proof fn htlc_total_grows(
    htlcs: Seq<HTLCOutputInCommitment>,
    counterparty: bool,
    inbound: bool,
    n: nat,
    m: nat,
)
    requires
        n <= m,
    ensures
        0 <= htlc_total(htlcs, counterparty, inbound, n) <= htlc_total(
            htlcs,
            counterparty,
            inbound,
            m,
        ),
    decreases m,
{
    if n < m {
        htlc_total_grows(htlcs, counterparty, inbound, n, (m - 1) as nat);
    } else if n > 0 {
        htlc_total_grows(htlcs, counterparty, inbound, (n - 1) as nat, (n - 1) as nat);
    }
}

/// Whether every HTLC with assets is an output of the commitment, and what they carry in either
/// direction stays in range.
pub fn check_htlcs(htlcs: &Vec<HTLCOutputInCommitment>, counterparty: bool) -> (r: bool)
    ensures
        r == htlcs_in_order(htlcs@, counterparty),
{
    let mut offered: u64 = 0;
    let mut received: u64 = 0;
    let mut i: usize = 0;
    while i < htlcs.len()
        invariant
            i <= htlcs.len(),
            offered == htlc_total(htlcs@, counterparty, false, i as nat),
            received == htlc_total(htlcs@, counterparty, true, i as nat),
            forall|j: int|
                0 <= j < i && (#[trigger] htlcs@[j]).spec_rgb_amount() is Some
                    ==> htlcs@[j].transaction_output_index is Some,
        decreases htlcs.len() - i,
    {
        let htlc: HTLCOutputInCommitment = htlcs[i];
        proof {
            htlc_total_grows(htlcs@, counterparty, false, (i + 1) as nat, htlcs@.len());
            htlc_total_grows(htlcs@, counterparty, true, (i + 1) as nat, htlcs@.len());
        }
        if let Some(amount) = htlc.rgb_amount() {
            if htlc.transaction_output_index.is_none() {
                assert(htlcs@[i as int].spec_rgb_amount() is Some);
                return false;
            }
            if htlc.offered == counterparty {
                if received > u64::MAX - amount {
                    return false;
                }
                received = received + amount;
            } else {
                if offered > u64::MAX - amount {
                    return false;
                }
                offered = offered + amount;
            }
        }
        i = i + 1;
    }
    true
}

/// Whether the channel keeps payment info that describes the HTLC.
pub open spec fn keeps_fitting(
    store: StoreView,
    channel_id: Seq<char>,
    info: RgbInfoView,
    htlc: HTLCOutputInCommitment,
    counterparty: bool,
) -> bool {
    let inbound = htlc.offered == counterparty;
    stored_payment(store, proxy_key(channel_id, htlc.payment_hash@), inbound) matches Some(kept)
        && compatible(kept, info, htlc.spec_rgb_amount().unwrap(), inbound)
}

/// Whether payment info waits for the first channel of the payment of an HTLC.
pub open spec fn waits(
    store: StoreView,
    htlc: HTLCOutputInCommitment,
    counterparty: bool,
) -> bool {
    store.entries.contains_key(
        payment_key(
            pending_payment_key(htlc.payment_hash@),
            htlc.offered == counterparty,
        ),
    )
}

/// Whether the channel keeps fitting payment info for each of the first `n` HTLCs with assets.
pub open spec fn all_fitting(
    store: StoreView,
    channel_id: Seq<char>,
    info: RgbInfoView,
    htlcs: Seq<HTLCOutputInCommitment>,
    counterparty: bool,
    n: nat,
) -> bool {
    forall|i: int|
        0 <= i < n && (#[trigger] htlcs[i]).spec_rgb_amount() is Some ==> keeps_fitting(
            store,
            channel_id,
            info,
            htlcs[i],
            counterparty,
        )
}

/// Whether nothing waits for any of the first `n` HTLCs with assets.
pub open spec fn none_waits(
    store: StoreView,
    htlcs: Seq<HTLCOutputInCommitment>,
    counterparty: bool,
    n: nat,
) -> bool {
    forall|i: int|
        0 <= i < n && (#[trigger] htlcs[i]).spec_rgb_amount() is Some ==> !waits(
            store,
            htlcs[i],
            counterparty,
        )
}

/// Whether the channel keeps fitting payment info for every HTLC with assets, and nothing waits.
pub open spec fn all_kept(
    store: StoreView,
    channel_id: Seq<char>,
    info: RgbInfoView,
    htlcs: Seq<HTLCOutputInCommitment>,
    counterparty: bool,
) -> bool {
    &&& all_fitting(store, channel_id, info, htlcs, counterparty, htlcs.len())
    &&& none_waits(store, htlcs, counterparty, htlcs.len())
}

/// Whether HTLCs of one payment in one direction carry the same amount of assets. What a channel
/// keeps for a payment can describe only one amount.
pub open spec fn one_amount_each(htlcs: Seq<HTLCOutputInCommitment>) -> bool {
    forall|i: int, j: int|
        0 <= i < htlcs.len() && 0 <= j < htlcs.len() && (#[trigger] htlcs[i]).payment_hash@ == (
        #[trigger] htlcs[j]).payment_hash@ && htlcs[i].offered == htlcs[j].offered
            && htlcs[i].spec_rgb_amount() is Some && htlcs[j].spec_rgb_amount() is Some
            ==> htlcs[i].spec_rgb_amount() == htlcs[j].spec_rgb_amount()
}

/// Whether what the channel keeps for an HTLC has its present balances, or something waits.
pub open spec fn is_fresh(
    store: StoreView,
    channel_id: Seq<char>,
    info: RgbInfoView,
    htlc: HTLCOutputInCommitment,
    counterparty: bool,
) -> bool {
    ||| keeps_present(
        store,
        channel_id,
        htlc.payment_hash@,
        info,
        htlc.offered == counterparty,
    )
    ||| waits(store, htlc, counterparty)
}

/// Whether, for each HTLC with assets from `from` on, what the channel keeps has its present
/// balances, or something waits.
pub open spec fn all_fresh(
    store: StoreView,
    channel_id: Seq<char>,
    info: RgbInfoView,
    htlcs: Seq<HTLCOutputInCommitment>,
    counterparty: bool,
    from: nat,
) -> bool {
    forall|i: int|
        from <= i < htlcs.len() && (#[trigger] htlcs[i]).spec_rgb_amount() is Some ==> is_fresh(
            store,
            channel_id,
            info,
            htlcs[i],
            counterparty,
        )
}

proof fn the_rest_stays_fresh(
    store: StoreView,
    channel_id: Seq<char>,
    info: RgbInfoView,
    htlcs: Seq<HTLCOutputInCommitment>,
    counterparty: bool,
    n: int,
)
    requires
        channel_id.len() == 64,
        0 <= n < htlcs.len(),
        htlcs[n].spec_rgb_amount() is Some,
        all_fresh(store, channel_id, info, htlcs, counterparty, n as nat),
        ({
            let hash = htlcs[n].payment_hash@;
            let inbound = htlcs[n].offered == counterparty;
            let after = find_htlc_payment(
                store,
                channel_id,
                hash,
                info,
                htlcs[n].spec_rgb_amount().unwrap(),
                inbound,
            ).0;
            keeps_present(after, channel_id, hash, info, inbound)
        }),
    ensures
        ({
            let after = find_htlc_payment(
                store,
                channel_id,
                htlcs[n].payment_hash@,
                info,
                htlcs[n].spec_rgb_amount().unwrap(),
                htlcs[n].offered == counterparty,
            ).0;
            all_fresh(after, channel_id, info, htlcs, counterparty, (n + 1) as nat)
        }),
{
    let hash = htlcs[n].payment_hash@;
    let inbound = htlcs[n].offered == counterparty;
    let amount = htlcs[n].spec_rgb_amount().unwrap();
    let after = find_htlc_payment(store, channel_id, hash, info, amount, inbound).0;
    assert forall|i: int|
        n + 1 <= i < htlcs.len() && (#[trigger] htlcs[i]).spec_rgb_amount() is Some implies
        is_fresh(after, channel_id, info, htlcs[i], counterparty) by {
        let other = htlcs[i].payment_hash@;
        let direction = htlcs[i].offered == counterparty;
        if other != hash || direction != inbound {
            payment_of_another_stays(
                store,
                channel_id,
                info,
                hash,
                amount,
                inbound,
                other,
                direction,
            );
            assert(is_fresh(store, channel_id, info, htlcs[i], counterparty));
        }
    }
}

proof fn one_more_fitting(
    store: StoreView,
    channel_id: Seq<char>,
    info: RgbInfoView,
    htlcs: Seq<HTLCOutputInCommitment>,
    counterparty: bool,
    n: int,
)
    requires
        channel_id.len() == 64,
        0 <= n < htlcs.len(),
        htlcs[n].spec_rgb_amount() is Some,
        one_amount_each(htlcs),
        all_fitting(store, channel_id, info, htlcs, counterparty, n as nat),
        ({
            let after = find_htlc_payment(
                store,
                channel_id,
                htlcs[n].payment_hash@,
                info,
                htlcs[n].spec_rgb_amount().unwrap(),
                htlcs[n].offered == counterparty,
            ).0;
            keeps_fitting(after, channel_id, info, htlcs[n], counterparty)
        }),
    ensures
        ({
            let after = find_htlc_payment(
                store,
                channel_id,
                htlcs[n].payment_hash@,
                info,
                htlcs[n].spec_rgb_amount().unwrap(),
                htlcs[n].offered == counterparty,
            ).0;
            all_fitting(after, channel_id, info, htlcs, counterparty, (n + 1) as nat)
        }),
{
    let hash = htlcs[n].payment_hash@;
    let inbound = htlcs[n].offered == counterparty;
    let amount = htlcs[n].spec_rgb_amount().unwrap();
    let after = find_htlc_payment(store, channel_id, hash, info, amount, inbound).0;
    payment_keys_have_their_lengths(channel_id, hash);
    assert forall|i: int|
        0 <= i < n + 1 && (#[trigger] htlcs[i]).spec_rgb_amount() is Some implies keeps_fitting(
        after,
        channel_id,
        info,
        htlcs[i],
        counterparty,
    ) by {
        let other = htlcs[i].payment_hash@;
        let direction = htlcs[i].offered == counterparty;
        let place = payment_key(proxy_key(channel_id, other), direction);
        payment_keys_have_their_lengths(channel_id, other);
        if i < n {
            if place == payment_key(proxy_key(channel_id, hash), inbound) {
                kept_places_differ(channel_id, other, direction, hash, inbound);
                assert(htlcs[i].spec_rgb_amount() == htlcs[n].spec_rgb_amount());
            } else {
                assert(place.key.len() != proxy_pending_key(channel_id, hash).len());
                assert(place.key.len() != pending_payment_key(hash).len());
                finding_touches_only_the_payment(
                    store,
                    channel_id,
                    hash,
                    info,
                    amount,
                    inbound,
                    place,
                );
                assert(keeps_fitting(store, channel_id, info, htlcs[i], counterparty));
            }
        }
    }
}

proof fn one_more_taken(
    store: StoreView,
    channel_id: Seq<char>,
    info: RgbInfoView,
    htlcs: Seq<HTLCOutputInCommitment>,
    counterparty: bool,
    n: int,
)
    requires
        store.calm(),
        channel_id.len() == 64,
        0 <= n < htlcs.len(),
        htlcs[n].spec_rgb_amount() is Some,
        none_waits(store, htlcs, counterparty, n as nat),
        find_htlc_payment(
            store,
            channel_id,
            htlcs[n].payment_hash@,
            info,
            htlcs[n].spec_rgb_amount().unwrap(),
            htlcs[n].offered == counterparty,
        ).1 is Ok,
    ensures
        ({
            let after = find_htlc_payment(
                store,
                channel_id,
                htlcs[n].payment_hash@,
                info,
                htlcs[n].spec_rgb_amount().unwrap(),
                htlcs[n].offered == counterparty,
            ).0;
            after.calm() && none_waits(after, htlcs, counterparty, (n + 1) as nat)
        }),
{
    let hash = htlcs[n].payment_hash@;
    let inbound = htlcs[n].offered == counterparty;
    let amount = htlcs[n].spec_rgb_amount().unwrap();
    let after = find_htlc_payment(store, channel_id, hash, info, amount, inbound).0;
    let taken = payment_key(pending_payment_key(hash), inbound);
    finding_keeps_the_outcomes(store, channel_id, hash, info, amount, inbound);
    waiting_payment_is_taken_once(store, channel_id, hash, info, amount, inbound);
    payment_keys_have_their_lengths(channel_id, hash);
    assert forall|i: int| 0 <= i < n + 1 && (#[trigger] htlcs[i]).spec_rgb_amount() is Some implies
        !waits(after, htlcs[i], counterparty) by {
        let other = htlcs[i].payment_hash@;
        let place = payment_key(pending_payment_key(other), htlcs[i].offered == counterparty);
        payment_keys_have_their_lengths(channel_id, other);
        if i < n && place != taken {
            assert(place.key.len() != proxy_key(channel_id, hash).len());
            assert(place.key.len() != proxy_pending_key(channel_id, hash).len());
            finding_touches_only_the_payment(
                store,
                channel_id,
                hash,
                info,
                amount,
                inbound,
                place,
            );
            assert(!waits(store, htlcs[i], counterparty));
        }
    }
}

/// Finds the payment info of the HTLCs of a commitment, in order, and adds them up.
///
/// Once it has succeeded, the channel keeps fitting payment info for each of them; and where no
/// call fails, nothing waits for any of them, and the last of them has the present balances if, for
/// each of them, the channel kept nothing with others or something waited.
pub fn gather_htlcs<K: KVStoreSync>(
    channel_id: &str,
    rgb_info: &RgbInfo,
    htlcs: &Vec<HTLCOutputInCommitment>,
    counterparty: bool,
    kv_store: &mut K,
) -> (r: Result<CommitmentHtlcs, Error>)
    requires
        htlcs_in_order(htlcs@, counterparty),
    ensures
        ({
            let run = gather(
                old(kv_store)@,
                channel_id@,
                rgb_info@,
                htlcs@,
                counterparty,
                0,
                HtlcSums::none(),
            );
            &&& final(kv_store)@ == run.0
            &&& match r {
                Ok(sums) => run.1 == Ok::<HtlcSums, ErrorView>(sums@),
                Err(e) => run.1 == Err::<HtlcSums, ErrorView>(e@),
            }
        }),
        r is Ok && channel_id@.len() == 64 && one_amount_each(htlcs@) ==> all_fitting(
            final(kv_store)@,
            channel_id@,
            rgb_info@,
            htlcs@,
            counterparty,
            htlcs@.len(),
        ),
        r is Ok && channel_id@.len() == 64 && old(kv_store)@.calm() ==> none_waits(
            final(kv_store)@,
            htlcs@,
            counterparty,
            htlcs@.len(),
        ),
        r matches Ok(sums) ==> channel_id@.len() == 64 && old(kv_store)@.calm() && all_fresh(
            old(kv_store)@,
            channel_id@,
            rgb_info@,
            htlcs@,
            counterparty,
            0,
        ) ==> (sums@.last matches Some(payment) ==> has_balances(payment, rgb_info@)),
{
    let mut sums = CommitmentHtlcs {
        offered: 0,
        received: 0,
        output_map: HashMap::new(),
        last: None,
    };
    let mut i: usize = 0;
    assert(sums@ == HtlcSums::none());
    while i < htlcs.len()
        invariant
            i <= htlcs.len(),
            htlcs_in_order(htlcs@, counterparty),
            sums.offered == htlc_total(htlcs@, counterparty, false, i as nat),
            sums.received == htlc_total(htlcs@, counterparty, true, i as nat),
            channel_id@.len() == 64 && one_amount_each(htlcs@) ==> all_fitting(
                kv_store@,
                channel_id@,
                rgb_info@,
                htlcs@,
                counterparty,
                i as nat,
            ),
            channel_id@.len() == 64 && old(kv_store)@.calm() ==> kv_store@.calm() && none_waits(
                kv_store@,
                htlcs@,
                counterparty,
                i as nat,
            ),
            channel_id@.len() == 64 && old(kv_store)@.calm() && all_fresh(
                old(kv_store)@,
                channel_id@,
                rgb_info@,
                htlcs@,
                counterparty,
                0,
            ) ==> all_fresh(
                kv_store@,
                channel_id@,
                rgb_info@,
                htlcs@,
                counterparty,
                i as nat,
            ) && (sums@.last matches Some(payment) ==> has_balances(payment, rgb_info@)),
            gather(
                old(kv_store)@,
                channel_id@,
                rgb_info@,
                htlcs@,
                counterparty,
                0,
                HtlcSums::none(),
            ) == gather(
                kv_store@,
                channel_id@,
                rgb_info@,
                htlcs@,
                counterparty,
                i as nat,
                sums@,
            ),
        decreases htlcs.len() - i,
    {
        let htlc: HTLCOutputInCommitment = htlcs[i];
        proof {
            htlc_total_grows(htlcs@, counterparty, false, (i + 1) as nat, htlcs@.len());
            htlc_total_grows(htlcs@, counterparty, true, (i + 1) as nat, htlcs@.len());
        }
        if let Some(amount) = htlc.rgb_amount() {
            assert(htlcs@[i as int].spec_rgb_amount() is Some);
            let vout: u32 = htlc.transaction_output_index.unwrap();
            let inbound: bool = htlc.offered == counterparty;
            proof {
                found_payment_fits(
                    kv_store@,
                    channel_id@,
                    htlc.payment_hash@,
                    rgb_info@,
                    amount,
                    inbound,
                );
            }
            let ghost before = sums@;
            let ghost here = kv_store@;
            let payment: RgbPaymentInfo = match find_htlc_payment_info(
                channel_id,
                &htlc.payment_hash,
                rgb_info,
                amount,
                inbound,
                kv_store,
            ) {
                Ok(payment) => payment,
                Err(e) => return Err(e),
            };
            proof {
                if channel_id@.len() == 64 && one_amount_each(htlcs@) {
                    one_more_fitting(
                        here,
                        channel_id@,
                        rgb_info@,
                        htlcs@,
                        counterparty,
                        i as int,
                    );
                }
                if channel_id@.len() == 64 && old(kv_store)@.calm() {
                    one_more_taken(here, channel_id@, rgb_info@, htlcs@, counterparty, i as int);
                    if all_fresh(here, channel_id@, rgb_info@, htlcs@, counterparty, i as nat) {
                        assert(is_fresh(
                            here,
                            channel_id@,
                            rgb_info@,
                            htlcs@[i as int],
                            counterparty,
                        ));
                        the_rest_stays_fresh(
                            here,
                            channel_id@,
                            rgb_info@,
                            htlcs@,
                            counterparty,
                            i as int,
                        );
                    }
                }
            }
            if inbound {
                sums.received = sums.received + payment.amount;
            } else {
                sums.offered = sums.offered + payment.amount;
            }
            sums.output_map.insert(vout, payment.amount);
            sums.last = Some(payment);
            assert(sums@ == before.with(vout, payment@, inbound));
        }
        i = i + 1;
    }
    Ok(sums)
}

/// The two balances that a commitment leaves, local and remote, once its HTLCs are taken from the
/// balances that the last of them was colored with; without any, the present ones.
pub open spec fn commitment_amounts(info: RgbInfoView, sums: HtlcSums) -> Option<(u64, u64)> {
    match sums.last {
        None => Some((info.local_rgb_amount, info.remote_rgb_amount)),
        Some(payment) => if sums.offered <= payment.local_rgb_amount && sums.received
            <= payment.remote_rgb_amount {
            Some(
                (
                    (payment.local_rgb_amount - sums.offered) as u64,
                    (payment.remote_rgb_amount - sums.received) as u64,
                ),
            )
        } else {
            None
        },
    }
}

/// The two balances that a commitment leaves, unless the HTLCs exceed what they are taken from.
pub fn split_commitment(rgb_info: &RgbInfo, sums: &CommitmentHtlcs) -> (r: Option<(u64, u64)>)
    ensures
        r == commitment_amounts(rgb_info@, sums@),
{
    match &sums.last {
        None => Some((rgb_info.local_rgb_amount, rgb_info.remote_rgb_amount)),
        Some(payment) => {
            if sums.offered <= payment.local_rgb_amount && sums.received
                <= payment.remote_rgb_amount {
                Some(
                    (
                        payment.local_rgb_amount - sums.offered,
                        payment.remote_rgb_amount - sums.received,
                    ),
                )
            } else {
                None
            }
        },
    }
}

/// The outputs with an amount assigned to one more of them, if it is there.
pub open spec fn assign(outputs: Map<u32, u64>, vout: Option<usize>, amount: u64) -> Map<u32, u64> {
    match vout {
        Some(vout) => outputs.insert(vout as u32, amount),
        None => outputs,
    }
}

/// What coloring reads of a commitment.
#[derive(Debug)]
pub struct CommitmentParts {
    pub nondust_htlcs: Vec<HTLCOutputInCommitment>,
    pub outputs: Vec<TxOut>,
    /// The script that pays the holder, made from the payment point of the holder.
    pub holder_payment_script: Vec<u8>,
    /// The script that pays the counterparty, made from the payment point of the counterparty.
    pub counterparty_payment_script: Vec<u8>,
    /// Which output pays the owner of the commitment.
    pub revokeable_output_index: Option<usize>,
    pub funding_txid: Option<String>,
    /// Whether the commitment is never broadcast.
    pub trusted_no_broadcast: bool,
}

/// What to do next about a commitment.
#[derive(Debug)]
pub enum CommitmentStep {
    /// Nothing: it is not colored.
    Finished,
    /// Have the wallet color it, as part of the given operation.
    Color { operation_id: String, coloring: Coloring },
}

/// What contracts say of a [`CommitmentStep`].
pub enum CommitmentStepView {
    Finished,
    Color { operation_id: Seq<char>, coloring: ColoringView },
}

impl View for CommitmentStep {
    type V = CommitmentStepView;

    open spec fn view(&self) -> CommitmentStepView {
        match self {
            CommitmentStep::Finished => CommitmentStepView::Finished,
            CommitmentStep::Color { operation_id, coloring } => CommitmentStepView::Color {
                operation_id: operation_id@,
                coloring: coloring@,
            },
        }
    }
}

impl CommitmentParts {
    /// The script that pays the one who countersigns the commitment: the holder countersigns the
    /// counterparty's commitment, and the counterparty the holder's.
    pub open spec fn countersigner_script(self, counterparty: bool) -> Seq<u8> {
        if counterparty {
            self.holder_payment_script@
        } else {
            self.counterparty_payment_script@
        }
    }
}

/// The amount of each output of a commitment: the HTLCs; then the one who countersigns; then the
/// owner. The one who countersigns the counterparty's commitment is the local side.
pub open spec fn commitment_outputs(
    sums: HtlcSums,
    amounts: (u64, u64),
    parts: CommitmentParts,
    counterparty: bool,
) -> Map<u32, u64> {
    let (local, remote) = amounts;
    assign(
        assign(
            sums.output_map,
            first_output(parts.outputs@, paying(parts.countersigner_script(counterparty)), 0),
            if counterparty {
                local
            } else {
                remote
            },
        ),
        parts.revokeable_output_index,
        if counterparty {
            remote
        } else {
            local
        },
    )
}

/// The words for a commitment of a channel without a funding transaction.
pub const MISSING_FUNDING: &'static str = "RGB commitment is missing its funding outpoint";

/// What to do about a commitment whose HTLCs come to `sums`.
pub open spec fn commitment_step(
    info: RgbInfoView,
    sums: HtlcSums,
    parts: CommitmentParts,
    counterparty: bool,
) -> Result<CommitmentStepView, ColoringFailureView> {
    if parts.trusted_no_broadcast {
        Ok(CommitmentStepView::Finished)
    } else {
        match commitment_amounts(info, sums) {
            None => Err(ColoringFailureView::Exceeded),
            Some(amounts) => match parts.funding_txid {
                None => Err(ColoringFailureView::Channel(MISSING_FUNDING@)),
                Some(txid) => Ok(
                    CommitmentStepView::Color {
                        operation_id: txid@,
                        coloring: channel_coloring(
                            info.contract_id,
                            commitment_outputs(sums, amounts, parts, counterparty),
                            None,
                        ),
                    },
                ),
            },
        }
    }
}

/// Reads the pending info of the channel, goes through the HTLCs, and says what to do.
pub open spec fn begin_commitment(
    store: StoreView,
    channel_id: Seq<u8>,
    parts: CommitmentParts,
    counterparty: bool,
) -> (StoreView, Result<CommitmentStepView, ColoringFailureView>) {
    let (after, read) = read_info(store, hex(channel_id), true);
    match read {
        Err(e) => (after, Err(ColoringFailureView::Store(e))),
        Ok(info) => {
            let (gathered, result) = gather(
                after,
                hex(channel_id),
                info,
                parts.nondust_htlcs@,
                counterparty,
                0,
                HtlcSums::none(),
            );
            match result {
                Err(e) => (gathered, Err(ColoringFailureView::Store(e))),
                Ok(sums) => (gathered, commitment_step(info, sums, parts, counterparty)),
            }
        },
    }
}

/// The view of what a step about a commitment comes to.
pub open spec fn step_view(r: Result<CommitmentStep, ColoringFailure>) -> Result<
    CommitmentStepView,
    ColoringFailureView,
> {
    match r {
        Ok(step) => Ok(step@),
        Err(e) => Err(e@),
    }
}

fn assign_output(outputs: &mut HashMap<u32, u64>, vout: Option<usize>, amount: u64)
    ensures
        final(outputs)@ == assign(old(outputs)@, vout, amount),
{
    if let Some(vout) = vout {
        outputs.insert(
            #[verifier::truncate]
            (vout as u32),
            amount,
        );
    }
}

/// What to do about a commitment, given the info of its channel and what its HTLCs come to.
pub fn plan_commitment(
    rgb_info: &RgbInfo,
    sums: CommitmentHtlcs,
    parts: &CommitmentParts,
    counterparty: bool,
) -> (r: Result<CommitmentStep, ColoringFailure>)
    ensures
        step_view(r) == commitment_step(rgb_info@, sums@, *parts, counterparty),
{
    if parts.trusted_no_broadcast {
        return Ok(CommitmentStep::Finished);
    }
    let (local, remote): (u64, u64) = match split_commitment(rgb_info, &sums) {
        Some(amounts) => amounts,
        None => return Err(ColoringFailure::Exceeded),
    };
    let mut output_map: HashMap<u32, u64> = sums.output_map;
    let countersigner_script: &[u8] = if counterparty {
        parts.holder_payment_script.as_slice()
    } else {
        parts.counterparty_payment_script.as_slice()
    };
    let countersigner: Option<usize> = script_position(&parts.outputs, countersigner_script);
    let (countersigner_amount, owner_amount): (u64, u64) = if counterparty {
        (local, remote)
    } else {
        (remote, local)
    };
    assign_output(&mut output_map, countersigner, countersigner_amount);
    assign_output(&mut output_map, parts.revokeable_output_index, owner_amount);
    let operation_id: String = match &parts.funding_txid {
        Some(txid) => txid.clone(),
        None => return Err(
            ColoringFailure::Channel(ChannelError::close(MISSING_FUNDING.to_owned())),
        ),
    };
    Ok(
        CommitmentStep::Color {
            operation_id,
            coloring: Coloring {
                contract_id: rgb_info.contract_id,
                output_map,
                static_blinding: Some(STATIC_BLINDING),
                nonce: None,
            },
        },
    )
}

/// Begins to color a commitment transaction: finds the payment info of its HTLCs, and decides what
/// each output carries.
///
/// Once it has succeeded, the channel keeps fitting payment info for each HTLC with assets; and
/// where no call fails, nothing waits for any of them. If besides, for each of them, the channel
/// kept nothing with other balances than the present ones or something waited, and the commitment
/// has an output for each of the two sides, the outputs add up to the local and the remote balance
/// of the channel: the output of the holder carries the local balance less what the HTLCs carry
/// away, and that of the counterparty the remote balance less what they bring in.
pub fn begin_commitment_coloring<K: KVStoreSync>(
    channel_id: &ChannelId,
    parts: &CommitmentParts,
    counterparty: bool,
    kv_store: &mut K,
) -> (r: Result<CommitmentStep, ColoringFailure>)
    requires
        htlcs_in_order(parts.nondust_htlcs@, counterparty),
    ensures
        final(kv_store)@ == begin_commitment(
            old(kv_store)@,
            channel_id@,
            *parts,
            counterparty,
        ).0,
        step_view(r) == begin_commitment(old(kv_store)@, channel_id@, *parts, counterparty).1,
        r is Ok && one_amount_each(parts.nondust_htlcs@) ==> all_fitting(
            final(kv_store)@,
            hex(channel_id@),
            stored_info(old(kv_store)@, hex(channel_id@), true).unwrap(),
            parts.nondust_htlcs@,
            counterparty,
            parts.nondust_htlcs@.len(),
        ),
        r is Ok && old(kv_store)@.calm() ==> none_waits(
            final(kv_store)@,
            parts.nondust_htlcs@,
            counterparty,
            parts.nondust_htlcs@.len(),
        ),
        step_view(r) matches Ok(CommitmentStepView::Color { coloring, .. }) ==> {
            let info = stored_info(old(kv_store)@, hex(channel_id@), true).unwrap();
            let vouts = commitment_vouts(*parts, counterparty);
            old(kv_store)@.calm() && pays_each_once(*parts, counterparty) && all_fresh(
                old(kv_store)@,
                hex(channel_id@),
                info,
                parts.nondust_htlcs@,
                counterparty,
                0,
            ) ==> assigned_to(coloring.output_map, vouts) && total_at(coloring.output_map, vouts)
                == info.local_rgb_amount + info.remote_rgb_amount
        },
        step_view(r) matches Ok(CommitmentStepView::Color { coloring, .. }) ==> {
            let info = stored_info(old(kv_store)@, hex(channel_id@), true).unwrap();
            let htlcs = parts.nondust_htlcs@;
            let script = if counterparty {
                parts.holder_payment_script@
            } else {
                parts.counterparty_payment_script@
            };
            let countersigner = first_output(parts.outputs@, paying(script), 0).unwrap() as u32;
            let owner = parts.revokeable_output_index.unwrap() as u32;
            let (holder, peer) = if counterparty {
                (countersigner, owner)
            } else {
                (owner, countersigner)
            };
            old(kv_store)@.calm() && pays_each_once(*parts, counterparty) && all_fresh(
                old(kv_store)@,
                hex(channel_id@),
                info,
                htlcs,
                counterparty,
                0,
            ) ==> {
                &&& coloring.output_map[holder] == info.local_rgb_amount - htlc_total(
                    htlcs,
                    counterparty,
                    false,
                    htlcs.len(),
                )
                &&& coloring.output_map[peer] == info.remote_rgb_amount - htlc_total(
                    htlcs,
                    counterparty,
                    true,
                    htlcs.len(),
                )
            }
        },
{
    let rgb_info: RgbInfo = match get_rgb_channel_info_pending(channel_id, kv_store) {
        Ok(info) => info,
        Err(e) => return Err(ColoringFailure::Store(e)),
    };
    let channel_hex: String = channel_id.to_hex();
    let ghost here = kv_store@;
    proof {
        let info = rgb_info@;
        let htlcs = parts.nondust_htlcs@;
        if all_fresh(old(kv_store)@, hex(channel_id@), info, htlcs, counterparty, 0) {
            assert forall|i: int|
                0 <= i < htlcs.len() && (#[trigger] htlcs[i]).spec_rgb_amount() is Some implies
                is_fresh(here, hex(channel_id@), info, htlcs[i], counterparty) by {
                assert(is_fresh(
                    old(kv_store)@,
                    hex(channel_id@),
                    info,
                    htlcs[i],
                    counterparty,
                ));
            }
        }
    }
    match gather_htlcs(
        channel_hex.as_str(),
        &rgb_info,
        &parts.nondust_htlcs,
        counterparty,
        kv_store,
    ) {
        Ok(sums) => {
            proof {
                if old(kv_store)@.calm() && pays_each_once(*parts, counterparty) && all_fresh(
                    here,
                    hex(channel_id@),
                    rgb_info@,
                    parts.nondust_htlcs@,
                    counterparty,
                    0,
                ) && commitment_amounts(rgb_info@, sums@) is Some {
                    gathered_htlcs_add_up(
                        here,
                        hex(channel_id@),
                        rgb_info@,
                        parts.nondust_htlcs@,
                        counterparty,
                    );
                    sides_have_different_outputs(*parts, counterparty);
                    commitment_conserves_the_total(
                        here,
                        hex(channel_id@),
                        rgb_info@,
                        parts.nondust_htlcs@,
                        counterparty,
                    );
                    commitment_outputs_add_up(
                        here,
                        hex(channel_id@),
                        rgb_info@,
                        *parts,
                        counterparty,
                        sums@,
                        commitment_amounts(rgb_info@, sums@).unwrap(),
                    );
                }
            }
            plan_commitment(&rgb_info, sums, parts, counterparty)
        },
        Err(e) => Err(ColoringFailure::Store(e)),
    }
}

/// The channel error for a commitment that makes no PSBT, with the words of the PSBT library.
pub fn commitment_psbt_error(words: &str) -> (r: ChannelError)
    ensures
        r.reason() == "Failed to construct RGB commitment PSBT: "@ + words@,
{
    ChannelError::close(join("Failed to construct RGB commitment PSBT: ", words))
}

/// The channel error for a colored PSBT that gives no transaction, with the words of the PSBT
/// library.
pub fn commitment_extraction_error(words: &str) -> (r: ChannelError)
    ensures
        r.reason() == "Failed to extract colored RGB commitment transaction: "@ + words@,
{
    ChannelError::close(join("Failed to extract colored RGB commitment transaction: ", words))
}

/// The key of the latest fascia of one side's commitment.
pub open spec fn fascia_name(channel_id: Seq<u8>, counterparty: bool) -> Seq<char> {
    hex(channel_id) + "_"@ + if counterparty {
        "cp"@
    } else {
        "local"@
    }
}

/// Where the latest fascia of one side's commitment is kept.
pub open spec fn fascia_key(channel_id: Seq<u8>, counterparty: bool) -> EntryKey {
    rgb_key(RGB_COMMITMENT_FASCIA_NS@, fascia_name(channel_id, counterparty))
}

/// The latest fascia that the store holds for one side's commitment, if it holds one in order.
pub open spec fn stored_fascia(
    store: StoreView,
    channel_id: Seq<u8>,
    counterparty: bool,
) -> Option<Fascia> {
    let key = fascia_key(channel_id, counterparty);
    if store.entries.contains_key(key) {
        fascia_decoding(store.entries[key])
    } else {
        None
    }
}

/// The transfer that a coloring describes.
pub open spec fn transfer_of(coloring: ColoringView) -> TransferInfoView {
    TransferInfoView { contract_id: coloring.contract_id, output_map: coloring.output_map }
}

/// Whether `after` and `result` are what keeping the fascia of a colored commitment, then the
/// transfer, leads to.
pub open spec fn keeps_commitment(
    store: StoreView,
    channel_id: Seq<u8>,
    counterparty: bool,
    fascia: Seq<u8>,
    txid: Seq<char>,
    coloring: ColoringView,
    after: StoreView,
    result: Result<(), ErrorView>,
) -> bool {
    let (written, wrote) = store.write(fascia_key(channel_id, counterparty), fascia);
    match wrote {
        Err(e) => after == written && result == Err::<(), ErrorView>(e),
        Ok(_) => writes_transfer(written, txid, transfer_of(coloring), after, result),
    }
}

fn fascia_text(channel_id: &ChannelId, counterparty: bool) -> (r: String)
    ensures
        r@ == fascia_name(channel_id@, counterparty),
{
    let channel_hex: String = channel_id.to_hex();
    let prefix: String = join(channel_hex.as_str(), "_");
    join(
        prefix.as_str(),
        if counterparty {
            "cp"
        } else {
            "local"
        },
    )
}

/// Keeps what a colored transaction transfers, under its ID.
///
/// Once it has succeeded, the store holds the transfer.
pub fn keep_transfer<K: KVStoreSync>(txid: &str, coloring: Coloring, kv_store: &mut K) -> (r: Result<
    (),
    Error,
>)
    ensures
        writes_transfer(
            old(kv_store)@,
            txid@,
            transfer_of(coloring@),
            final(kv_store)@,
            unit_view(r),
        ),
        r is Ok ==> stored_transfer(final(kv_store)@, txid@) == Some(transfer_of(coloring@)),
{
    let transfer_info = TransferInfo {
        contract_id: coloring.contract_id,
        output_map: coloring.output_map,
    };
    kv_store.write_rgb_transfer_info(txid, &transfer_info)
}

/// Keeps the encoded fascia of a colored commitment, so that a wallet restored without a backup can
/// consume it again and color force-close sweeps; then keeps what the commitment transfers.
///
/// Once it has succeeded, the store holds both.
pub fn keep_commitment<K: KVStoreSync>(
    channel_id: &ChannelId,
    counterparty: bool,
    fascia: Vec<u8>,
    txid: &str,
    coloring: Coloring,
    kv_store: &mut K,
) -> (r: Result<(), Error>)
    ensures
        keeps_commitment(
            old(kv_store)@,
            channel_id@,
            counterparty,
            fascia@,
            txid@,
            coloring@,
            final(kv_store)@,
            unit_view(r),
        ),
        r is Ok ==> {
            let key = fascia_key(channel_id@, counterparty);
            &&& final(kv_store)@.entries.contains_key(key)
            &&& final(kv_store)@.entries[key] == fascia@
            &&& stored_transfer(final(kv_store)@, txid@) == Some(transfer_of(coloring@))
        },
{
    proof {
        namespaces_differ();
    }
    let key: String = fascia_text(channel_id, counterparty);
    match kv_store.write(RGB_PRIMARY_NS, RGB_COMMITMENT_FASCIA_NS, key.as_str(), fascia) {
        Ok(_) => keep_transfer(txid, coloring, kv_store),
        Err(e) => Err(e),
    }
}

/// The ID of a transaction, given by its consensus encoding.
pub fn transaction_id(transaction: &[u8]) -> (r: Result<String, Error>)
    ensures
        match r {
            Ok(text) => transaction_id_text(transaction@) == Some(text@),
            Err(e) => transaction_id_text(transaction@) is None && e@ == undecodable(),
        },
{
    match compute_txid(transaction) {
        Ok(text) => Ok(text),
        Err(message) => Err(Error::Undecodable { message }),
    }
}

/// Keeps what a colored transaction transfers, under its ID, which is given back.
///
/// Once it has succeeded, the store holds the transfer.
pub fn keep_colored_transaction<K: KVStoreSync>(
    transaction: &[u8],
    coloring: Coloring,
    kv_store: &mut K,
) -> (r: Result<String, ColoringFailure>)
    ensures
        match transaction_id_text(transaction@) {
            None => final(kv_store)@ == old(kv_store)@ && (r matches Err(e) && e@
                == ColoringFailureView::NoTransaction),
            Some(txid) => match r {
                Ok(id) => {
                    &&& id@ == txid
                    &&& writes_transfer(
                        old(kv_store)@,
                        txid,
                        transfer_of(coloring@),
                        final(kv_store)@,
                        Ok(()),
                    )
                    &&& stored_transfer(final(kv_store)@, txid) == Some(transfer_of(coloring@))
                },
                Err(ColoringFailure::Store(e)) => writes_transfer(
                    old(kv_store)@,
                    txid,
                    transfer_of(coloring@),
                    final(kv_store)@,
                    Err(e@),
                ),
                Err(_) => false,
            },
        },
{
    let txid: String = match compute_txid(transaction) {
        Ok(txid) => txid,
        Err(words) => return Err(ColoringFailure::NoTransaction(words)),
    };
    match keep_transfer(txid.as_str(), coloring, kv_store) {
        Ok(_) => Ok(txid),
        Err(e) => Err(ColoringFailure::Store(e)),
    }
}

/// Finishes the coloring of a commitment transaction: keeps its fascia and what it transfers, under
/// its ID, which is given back.
///
/// Once it has succeeded, the store holds the encoding of this fascia, which
/// [`deserialize_fascia`] gives back, and the transfer.
pub fn finish_commitment_coloring<K: KVStoreSync>(
    channel_id: &ChannelId,
    counterparty: bool,
    fascia: &Fascia,
    transaction: &[u8],
    coloring: Coloring,
    kv_store: &mut K,
) -> (r: Result<String, ColoringFailure>)
    ensures
        match (transaction_id_text(transaction@), fascia_encoding(*fascia)) {
            (None, _) => final(kv_store)@ == old(kv_store)@ && (r matches Err(e) && e@
                == ColoringFailureView::NoTransaction),
            (_, None) => final(kv_store)@ == old(kv_store)@ && (r matches Err(e) && e@
                == ColoringFailureView::Unserializable),
            (Some(txid), Some(bytes)) => {
                &&& fascia_decoding(bytes) == Some(*fascia)
                &&& match r {
                    Ok(id) => {
                        &&& id@ == txid
                        &&& keeps_commitment(
                            old(kv_store)@,
                            channel_id@,
                            counterparty,
                            bytes,
                            txid,
                            coloring@,
                            final(kv_store)@,
                            Ok(()),
                        )
                        &&& stored_fascia(final(kv_store)@, channel_id@, counterparty) == Some(
                            *fascia,
                        )
                        &&& stored_transfer(final(kv_store)@, txid) == Some(transfer_of(coloring@))
                    },
                    Err(ColoringFailure::Store(e)) => keeps_commitment(
                        old(kv_store)@,
                        channel_id@,
                        counterparty,
                        bytes,
                        txid,
                        coloring@,
                        final(kv_store)@,
                        Err(e@),
                    ),
                    Err(_) => false,
                }
            },
        },
        r is Ok ==> {
            let key = fascia_key(channel_id@, counterparty);
            &&& final(kv_store)@.entries.contains_key(key)
            &&& fascia_encoding(*fascia) == Some(final(kv_store)@.entries[key])
        },
{
    let txid: String = match compute_txid(transaction) {
        Ok(txid) => txid,
        Err(words) => return Err(ColoringFailure::NoTransaction(words)),
    };
    let bytes: Vec<u8> = match encode_fascia(fascia) {
        Ok(bytes) => bytes,
        Err(words) => return Err(ColoringFailure::Unserializable(words)),
    };
    match keep_commitment(channel_id, counterparty, bytes, txid.as_str(), coloring, kv_store) {
        Ok(_) => Ok(txid),
        Err(e) => Err(ColoringFailure::Store(e)),
    }
}

/// Deserialize a fascia that was kept for a commitment
pub fn deserialize_fascia(data: Vec<u8>) -> (r: Result<Fascia, Error>)
    ensures
        match r {
            Ok(fascia) => fascia_decoding(data@) == Some(fascia),
            Err(e) => fascia_decoding(data@) is None && e@ == undecodable(),
        },
{
    match decode_fascia(data) {
        Ok(fascia) => Ok(fascia),
        Err(message) => Err(Error::Undecodable { message }),
    }
}

/// How an HTLC transaction is colored: its one output carries what the HTLC carries, under the
/// contract of the commitment that it spends. Without assets it is not colored.
pub open spec fn color_htlc_of(
    store: StoreView,
    htlc: HTLCOutputInCommitment,
    commitment_txid: Seq<char>,
) -> (StoreView, Result<Option<ColoringView>, ErrorView>) {
    match htlc.spec_rgb_amount() {
        None => (store, Ok(None)),
        Some(amount) => {
            let (after, read) = read_transfer(store, commitment_txid);
            (
                after,
                match read {
                    Ok(transfer) => Ok(
                        Some(
                            channel_coloring(
                                transfer.contract_id,
                                Map::<u32, u64>::empty().insert(0, amount),
                                Some(1),
                            ),
                        ),
                    ),
                    Err(e) => Err(e),
                },
            )
        },
    }
}

/// How an HTLC transaction is colored, given the ID of the commitment that it spends an output of.
pub fn plan_htlc<K: KVStoreSync>(
    htlc: &HTLCOutputInCommitment,
    commitment_txid: &str,
    kv_store: &mut K,
) -> (r: Result<Option<Coloring>, Error>)
    ensures
        ({
            let run = color_htlc_of(old(kv_store)@, *htlc, commitment_txid@);
            &&& final(kv_store)@ == run.0
            &&& match r {
                Ok(Some(coloring)) => run.1 == Ok::<Option<ColoringView>, ErrorView>(
                    Some(coloring@),
                ),
                Ok(None) => run.1 == Ok::<Option<ColoringView>, ErrorView>(None),
                Err(e) => run.1 == Err::<Option<ColoringView>, ErrorView>(e@),
            }
        }),
{
    let amount: u64 = match htlc.rgb_amount() {
        Some(amount) => amount,
        None => return Ok(None),
    };
    let transfer_info: TransferInfo = match kv_store.read_rgb_transfer_info(commitment_txid) {
        Ok(info) => info,
        Err(e) => return Err(e),
    };
    let mut output_map: HashMap<u32, u64> = HashMap::new();
    output_map.insert(0, amount);
    Ok(
        Some(
            Coloring {
                contract_id: transfer_info.contract_id,
                output_map,
                static_blinding: Some(STATIC_BLINDING),
                nonce: Some(1),
            },
        ),
    )
}

/// How an HTLC transaction is colored. Where the HTLC carries assets, the transaction must spend
/// something: its first input spends the commitment.
pub open spec fn begin_htlc(
    store: StoreView,
    htlc: HTLCOutputInCommitment,
    transaction: Seq<u8>,
) -> (StoreView, Result<Option<ColoringView>, ColoringFailureView>) {
    match (htlc.spec_rgb_amount(), spent_txid_texts(transaction)) {
        (None, _) => (store, Ok(None)),
        (_, None) => (store, Err(ColoringFailureView::NoTransaction)),
        (_, Some(spent)) => if spent.len() == 0 {
            (store, Err(ColoringFailureView::NoInput))
        } else {
            let (after, result) = color_htlc_of(store, htlc, spent[0]);
            (
                after,
                match result {
                    Ok(coloring) => Ok(coloring),
                    Err(e) => Err(ColoringFailureView::Store(e)),
                },
            )
        },
    }
}

/// Begins to color an HTLC transaction, given by its consensus encoding.
pub fn begin_htlc_coloring<K: KVStoreSync>(
    htlc: &HTLCOutputInCommitment,
    transaction: &[u8],
    kv_store: &mut K,
) -> (r: Result<Option<Coloring>, ColoringFailure>)
    ensures
        ({
            let run = begin_htlc(old(kv_store)@, *htlc, transaction@);
            &&& final(kv_store)@ == run.0
            &&& match r {
                Ok(Some(coloring)) => run.1 == Ok::<Option<ColoringView>, ColoringFailureView>(
                    Some(coloring@),
                ),
                Ok(None) => run.1 == Ok::<Option<ColoringView>, ColoringFailureView>(None),
                Err(e) => run.1 == Err::<Option<ColoringView>, ColoringFailureView>(e@),
            }
        }),
{
    if htlc.rgb_amount().is_none() {
        return Ok(None);
    }
    let spent: Vec<String> = match spent_txids(transaction) {
        Ok(spent) => spent,
        Err(words) => return Err(ColoringFailure::NoTransaction(words)),
    };
    if spent.len() == 0 {
        return Err(ColoringFailure::NoInput);
    }
    match plan_htlc(htlc, spent[0].as_str(), kv_store) {
        Ok(coloring) => Ok(coloring),
        Err(e) => Err(ColoringFailure::Store(e)),
    }
}

/// What coloring reads of a closing transaction.
#[derive(Debug)]
pub struct ClosingParts {
    pub outputs: Vec<TxOut>,
    pub to_holder_value_sat: u64,
    pub to_holder_script: Vec<u8>,
    pub to_counterparty_value_sat: u64,
    pub to_counterparty_script: Vec<u8>,
}

impl ClosingParts {
    /// The output that pays the holder, if any does.
    pub open spec fn holder_vout(self) -> Option<usize> {
        if self.to_holder_value_sat > 0 {
            first_output(self.outputs@, paying(self.to_holder_script@), 0)
        } else {
            None
        }
    }

    /// The output that pays the counterparty, if any does.
    pub open spec fn counterparty_vout(self) -> Option<usize> {
        if self.to_counterparty_value_sat > 0 {
            first_output(self.outputs@, paying(self.to_counterparty_script@), 0)
        } else {
            None
        }
    }

    /// Whether each side that is paid is paid by an output.
    pub open spec fn pays_both(self) -> bool {
        &&& self.to_holder_value_sat > 0 ==> self.holder_vout() is Some
        &&& self.to_counterparty_value_sat > 0 ==> self.counterparty_vout() is Some
    }

    /// Whether each side that is paid is paid by an output.
    pub fn check_pays_both(&self) -> (r: bool)
        ensures
            r == self.pays_both(),
    {
        if self.to_holder_value_sat > 0 && script_position(
            &self.outputs,
            self.to_holder_script.as_slice(),
        ).is_none() {
            return false;
        }
        if self.to_counterparty_value_sat > 0 && script_position(
            &self.outputs,
            self.to_counterparty_script.as_slice(),
        ).is_none() {
            return false;
        }
        true
    }
}

/// How a closing transaction is colored: the output of each side carries its balance.
pub open spec fn begin_closing(store: StoreView, channel_id: Seq<u8>, parts: ClosingParts) -> (
    StoreView,
    Result<ColoringView, ErrorView>,
) {
    let (after, read) = read_info(store, hex(channel_id), true);
    (
        after,
        match read {
            Ok(info) => Ok(
                channel_coloring(
                    info.contract_id,
                    assign(
                        assign(Map::empty(), parts.holder_vout(), info.local_rgb_amount),
                        parts.counterparty_vout(),
                        info.remote_rgb_amount,
                    ),
                    None,
                ),
            ),
            Err(e) => Err(e),
        },
    )
}

/// Begins to color a closing transaction.
pub fn begin_closing_coloring<K: KVStoreSync>(
    channel_id: &ChannelId,
    parts: &ClosingParts,
    kv_store: &mut K,
) -> (r: Result<Coloring, Error>)
    requires
        parts.pays_both(),
    ensures
        ({
            let run = begin_closing(old(kv_store)@, channel_id@, *parts);
            &&& final(kv_store)@ == run.0
            &&& match r {
                Ok(coloring) => run.1 == Ok::<ColoringView, ErrorView>(coloring@),
                Err(e) => run.1 == Err::<ColoringView, ErrorView>(e@),
            }
        }),
{
    let rgb_info: RgbInfo = match get_rgb_channel_info_pending(channel_id, kv_store) {
        Ok(info) => info,
        Err(e) => return Err(e),
    };
    let mut output_map: HashMap<u32, u64> = HashMap::new();
    if parts.to_holder_value_sat > 0 {
        let vout: Option<usize> = script_position(
            &parts.outputs,
            parts.to_holder_script.as_slice(),
        );
        assign_output(&mut output_map, vout, rgb_info.local_rgb_amount);
    }
    if parts.to_counterparty_value_sat > 0 {
        let vout: Option<usize> = script_position(
            &parts.outputs,
            parts.to_counterparty_script.as_slice(),
        );
        assign_output(&mut output_map, vout, rgb_info.remote_rgb_amount);
    }
    Ok(
        Coloring {
            contract_id: rgb_info.contract_id,
            output_map,
            static_blinding: Some(STATIC_BLINDING),
            nonce: None,
        },
    )
}

} // verus!
