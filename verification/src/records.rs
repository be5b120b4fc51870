//! Typed access to the RGB data in the store.

use vstd::prelude::*;
use crate::errors::Error;
#[allow(unused_imports)]
use crate::errors::{bytes_view, text_view, undecodable, unit_view, ErrorKind, ErrorView};
use crate::info::{ContractId, RgbInfo, RgbPaymentInfo, TransferInfo};
#[allow(unused_imports)]
use crate::info::{
    decode_info, decode_payment, decode_transfer, encode_info, encode_payment, info_view,
    payment_view, transfer_view, RgbInfoView, RgbPaymentInfoView, TransferInfoView,
};
use crate::outside::{hex_text, utf8_text};
use crate::store::{
    KVStoreSync, RGB_CHANNEL_INFO_NS, RGB_CHANNEL_INFO_PENDING_NS, RGB_CONSIGNMENT_NS,
    RGB_PAYMENT_INFO_INBOUND_NS, RGB_PAYMENT_INFO_OUTBOUND_NS, RGB_PRIMARY_NS,
    RGB_TRANSFER_INFO_NS, RGB_WALLET_CONFIG_NS,
};
#[allow(unused_imports)]
use crate::store::{rgb_key, EntryKey, StoreView};
#[allow(unused_imports)]
use crate::text::hex;
use vstd::string::StrSliceExecFns;
use vstd::utf8::*;

verus! {

/// The ID of a channel, temporary or final.
#[derive(Clone, Copy, Debug, PartialEq, Eq)]
pub struct ChannelId(pub [u8; 32]);

impl View for ChannelId {
    type V = Seq<u8>;

    open spec fn view(&self) -> Seq<u8> {
        self.0@
    }
}

impl ChannelId {
    /// The hexadecimal text of the ID, under which the data of the channel is kept.
    pub fn to_hex(&self) -> (r: String)
        ensures
            r@ == hex(self@),
    {
        hex_text(self.0.as_slice())
    }
}

/// The hash of a payment.
#[derive(Clone, Copy, Debug, PartialEq, Eq)]
pub struct PaymentHash(pub [u8; 32]);

impl View for PaymentHash {
    type V = Seq<u8>;

    open spec fn view(&self) -> Seq<u8> {
        self.0@
    }
}

impl PaymentHash {
    /// The hexadecimal text of the hash, under which the data of the payment is kept.
    pub fn to_hex(&self) -> (r: String)
        ensures
            r@ == hex(self@),
    {
        hex_text(self.0.as_slice())
    }
}

/// What the choice of a first hop reads of a channel.
#[derive(Clone, Copy, Debug, PartialEq, Eq)]
pub struct ChannelDetails {
    pub channel_id: ChannelId,
}

/// The namespace of channel info.
pub open spec fn info_namespace(pending: bool) -> Seq<char> {
    if pending {
        RGB_CHANNEL_INFO_PENDING_NS@
    } else {
        RGB_CHANNEL_INFO_NS@
    }
}

/// The namespace of payment info.
pub open spec fn payment_namespace(inbound: bool) -> Seq<char> {
    if inbound {
        RGB_PAYMENT_INFO_INBOUND_NS@
    } else {
        RGB_PAYMENT_INFO_OUTBOUND_NS@
    }
}

/// Where the info of a channel is kept.
pub open spec fn info_key(channel_id: Seq<char>, pending: bool) -> EntryKey {
    rgb_key(info_namespace(pending), channel_id)
}

/// Where payment info is kept.
pub open spec fn payment_key(key: Seq<char>, inbound: bool) -> EntryKey {
    rgb_key(payment_namespace(inbound), key)
}

/// Where transfer info is kept.
pub open spec fn transfer_key(txid: Seq<char>) -> EntryKey {
    rgb_key(RGB_TRANSFER_INFO_NS@, txid)
}

/// Where a consignment is kept.
pub open spec fn consignment_key(id: Seq<char>) -> EntryKey {
    rgb_key(RGB_CONSIGNMENT_NS@, id)
}

/// Where a wallet setting is kept.
pub open spec fn config_key(key: Seq<char>) -> EntryKey {
    rgb_key(RGB_WALLET_CONFIG_NS@, key)
}

/// The channel info that the store holds, if it holds one in order.
pub open spec fn stored_info(store: StoreView, channel_id: Seq<char>, pending: bool) -> Option<
    RgbInfoView,
> {
    let key = info_key(channel_id, pending);
    if store.entries.contains_key(key) {
        decode_info(store.entries[key])
    } else {
        None
    }
}

/// The payment info that the store holds under a key, if it holds one in order.
pub open spec fn stored_payment(store: StoreView, key: Seq<char>, inbound: bool) -> Option<
    RgbPaymentInfoView,
> {
    let key = payment_key(key, inbound);
    if store.entries.contains_key(key) {
        decode_payment(store.entries[key])
    } else {
        None
    }
}

/// The transfer info that the store holds, if it holds one in order.
pub open spec fn stored_transfer(store: StoreView, txid: Seq<char>) -> Option<TransferInfoView> {
    let key = transfer_key(txid);
    if store.entries.contains_key(key) {
        decode_transfer(store.entries[key])
    } else {
        None
    }
}

/// What bytes read from the store are worth, given what they decode to.
pub open spec fn decoded<T>(value: Option<T>) -> Result<T, ErrorView> {
    match value {
        Some(value) => Ok(value),
        None => Err(undecodable()),
    }
}

/// Reads channel info.
pub open spec fn read_info(store: StoreView, channel_id: Seq<char>, pending: bool) -> (
    StoreView,
    Result<RgbInfoView, ErrorView>,
) {
    let (after, read) = store.read(info_key(channel_id, pending));
    (
        after,
        match read {
            Ok(bytes) => decoded(decode_info(bytes)),
            Err(e) => Err(e),
        },
    )
}

/// Reads payment info.
pub open spec fn read_payment(store: StoreView, key: Seq<char>, inbound: bool) -> (
    StoreView,
    Result<RgbPaymentInfoView, ErrorView>,
) {
    let (after, read) = store.read(payment_key(key, inbound));
    (
        after,
        match read {
            Ok(bytes) => decoded(decode_payment(bytes)),
            Err(e) => Err(e),
        },
    )
}

/// Reads transfer info.
pub open spec fn read_transfer(store: StoreView, txid: Seq<char>) -> (
    StoreView,
    Result<TransferInfoView, ErrorView>,
) {
    let (after, read) = store.read(transfer_key(txid));
    (
        after,
        match read {
            Ok(bytes) => decoded(decode_transfer(bytes)),
            Err(e) => Err(e),
        },
    )
}

/// Writes channel info.
pub open spec fn write_info(
    store: StoreView,
    channel_id: Seq<char>,
    info: RgbInfoView,
    pending: bool,
) -> (StoreView, Result<(), ErrorView>) {
    store.write(info_key(channel_id, pending), encode_info(info))
}

/// Writes payment info.
pub open spec fn write_payment(
    store: StoreView,
    key: Seq<char>,
    info: RgbPaymentInfoView,
    inbound: bool,
) -> (StoreView, Result<(), ErrorView>) {
    store.write(payment_key(key, inbound), encode_payment(info))
}

/// Whether `after` and `result` are what writing `info` to `store` leads to, with some bytes that
/// hold it.
pub open spec fn writes_transfer(
    store: StoreView,
    txid: Seq<char>,
    info: TransferInfoView,
    after: StoreView,
    result: Result<(), ErrorView>,
) -> bool {
    exists|bytes: Seq<u8>| #[trigger]
        decode_transfer(bytes) == Some(info) && store.write(transfer_key(txid), bytes) == (
            after,
            result,
        )
}

/// The text that configuration bytes hold, if they hold one.
pub open spec fn config_text(bytes: Seq<u8>) -> Result<Seq<char>, ErrorView> {
    if valid_utf8(bytes) {
        Ok(decode_utf8(bytes))
    } else {
        Err(undecodable())
    }
}

/// Reads a wallet setting.
pub open spec fn read_setting(store: StoreView, key: Seq<char>) -> (
    StoreView,
    Result<Seq<char>, ErrorView>,
) {
    let (after, read) = store.read(config_key(key));
    (
        after,
        match read {
            Ok(bytes) => config_text(bytes),
            Err(e) => Err(e),
        },
    )
}

/// Looks whether a payment is colored: its info is looked for outbound first, then inbound.
pub open spec fn find_payment(store: StoreView, payment_hash: Seq<u8>) -> (StoreView, bool) {
    let (outbound_store, outbound) = read_payment(store, hex(payment_hash), false);
    if outbound is Ok {
        (outbound_store, true)
    } else {
        let (inbound_store, inbound) = read_payment(outbound_store, hex(payment_hash), true);
        (inbound_store, inbound is Ok)
    }
}

/// Whether channel info allows a payment of `amount` under `contract_id`.
pub open spec fn can_send(info: RgbInfoView, contract_id: Seq<u8>, amount: u64) -> bool {
    info.contract_id == contract_id && info.local_rgb_amount >= amount
}

/// Goes through channels in order and keeps those whose info can be read and allows the payment.
pub open spec fn keep_hops(
    store: StoreView,
    hops: Seq<ChannelDetails>,
    contract_id: Seq<u8>,
    amount: u64,
) -> (StoreView, Seq<ChannelDetails>)
    decreases hops.len(),
{
    if hops.len() == 0 {
        (store, hops)
    } else {
        let (before, kept) = keep_hops(store, hops.drop_last(), contract_id, amount);
        let (after, info) = read_info(before, hex(hops.last().channel_id@), false);
        (
            after,
            match info {
                Ok(info) => if can_send(info, contract_id, amount) {
                    kept.push(hops.last())
                } else {
                    kept
                },
                Err(_) => kept,
            },
        )
    }
}

/// Narrows the first hops of a payment. A payment without RGB info keeps them all.
pub open spec fn narrow_first_hops(
    store: StoreView,
    payment_hash: Seq<u8>,
    hops: Seq<ChannelDetails>,
) -> (StoreView, Seq<ChannelDetails>) {
    let (after, payment) = read_payment(store, hex(payment_hash), false);
    match payment {
        Ok(info) => keep_hops(after, hops, info.contract_id, info.amount),
        Err(_) => (after, hops),
    }
}

/// The namespace of channel info.
pub fn channel_info_namespace(pending: bool) -> (r: &'static str)
    ensures
        r@ == info_namespace(pending),
{
    if pending {
        RGB_CHANNEL_INFO_PENDING_NS
    } else {
        RGB_CHANNEL_INFO_NS
    }
}

/// The namespace of payment info.
pub fn payment_info_namespace(inbound: bool) -> (r: &'static str)
    ensures
        r@ == payment_namespace(inbound),
{
    if inbound {
        RGB_PAYMENT_INFO_INBOUND_NS
    } else {
        RGB_PAYMENT_INFO_OUTBOUND_NS
    }
}

/// Extension trait for RGB-specific store operations
pub trait RgbKvStoreExt: KVStoreSync {
    /// read transfer info from the store
    fn read_rgb_transfer_info(&mut self, txid: &str) -> (r: Result<TransferInfo, Error>)
        ensures
            final(self)@ == read_transfer(old(self)@, txid@).0,
            transfer_view(r) == read_transfer(old(self)@, txid@).1,
    ;

    /// write transfer info to the store; once it has succeeded, the store holds the info
    fn write_rgb_transfer_info(&mut self, txid: &str, info: &TransferInfo) -> (r: Result<(), Error>)
        ensures
            writes_transfer(old(self)@, txid@, info@, final(self)@, unit_view(r)),
            r is Ok ==> stored_transfer(final(self)@, txid@) == Some(info@),
    ;

    /// read channel info from the store
    fn read_rgb_channel_info(&mut self, channel_id: &str, pending: bool) -> (r: Result<
        RgbInfo,
        Error,
    >)
        ensures
            final(self)@ == read_info(old(self)@, channel_id@, pending).0,
            info_view(r) == read_info(old(self)@, channel_id@, pending).1,
    ;

    /// write channel info to the store; once it has succeeded, the store holds the info
    fn write_rgb_channel_info(
        &mut self,
        channel_id: &str,
        rgb_info: &RgbInfo,
        pending: bool,
    ) -> (r: Result<(), Error>)
        ensures
            final(self)@ == write_info(old(self)@, channel_id@, rgb_info@, pending).0,
            unit_view(r) == write_info(old(self)@, channel_id@, rgb_info@, pending).1,
            r is Ok ==> stored_info(final(self)@, channel_id@, pending) == Some(rgb_info@),
    ;

    /// read payment info from the store
    fn read_rgb_payment_info(&mut self, payment_hash: &PaymentHash, inbound: bool) -> (r: Result<
        RgbPaymentInfo,
        Error,
    >)
        ensures
            final(self)@ == read_payment(old(self)@, hex(payment_hash@), inbound).0,
            payment_view(r) == read_payment(old(self)@, hex(payment_hash@), inbound).1,
    ;

    /// write payment info to the store; once it has succeeded, the store holds the info
    fn write_rgb_payment_info(&mut self, payment_hash: &PaymentHash, info: &RgbPaymentInfo) -> (r:
        Result<(), Error>)
        ensures
            final(self)@ == write_payment(
                old(self)@,
                hex(payment_hash@),
                info@,
                info.inbound,
            ).0,
            unit_view(r) == write_payment(old(self)@, hex(payment_hash@), info@, info.inbound).1,
            r is Ok ==> stored_payment(final(self)@, hex(payment_hash@), info.inbound) == Some(
                info@,
            ),
    ;

    /// read consignment from the store
    fn read_rgb_consignment(&mut self, id: &str) -> (r: Result<Vec<u8>, Error>)
        ensures
            final(self)@ == old(self)@.read(consignment_key(id@)).0,
            bytes_view(r) == old(self)@.read(consignment_key(id@)).1,
    ;

    /// write consignment to the store
    fn write_rgb_consignment(&mut self, id: &str, data: Vec<u8>) -> (r: Result<(), Error>)
        ensures
            final(self)@ == old(self)@.write(consignment_key(id@), data@).0,
            unit_view(r) == old(self)@.write(consignment_key(id@), data@).1,
    ;

    /// remove channel info from the store
    fn remove_rgb_channel_info(&mut self, channel_id: &str, pending: bool) -> (r: Result<
        (),
        Error,
    >)
        ensures
            final(self)@ == old(self)@.remove(info_key(channel_id@, pending), false).0,
            unit_view(r) == old(self)@.remove(info_key(channel_id@, pending), false).1,
    ;

    /// remove consignment from the store
    fn remove_rgb_consignment(&mut self, id: &str) -> (r: Result<(), Error>)
        ensures
            final(self)@ == old(self)@.remove(consignment_key(id@), false).0,
            unit_view(r) == old(self)@.remove(consignment_key(id@), false).1,
    ;

    /// read a wallet config value from the store
    fn read_config(&mut self, key: &str) -> (r: Result<String, Error>)
        ensures
            final(self)@ == read_setting(old(self)@, key@).0,
            text_view(r) == read_setting(old(self)@, key@).1,
    ;

    /// write a wallet config value to the store
    fn write_config(&mut self, key: &str, value: &str) -> (r: Result<(), Error>)
        ensures
            final(self)@ == old(self)@.write(config_key(key@), encode_utf8(value@)).0,
            unit_view(r) == old(self)@.write(config_key(key@), encode_utf8(value@)).1,
    ;

    /// whether the payment is colored
    fn is_payment_rgb(&mut self, payment_hash: &PaymentHash) -> (r: bool)
        ensures
            final(self)@ == find_payment(old(self)@, payment_hash@).0,
            r == find_payment(old(self)@, payment_hash@).1,
    ;

    /// filter first hops to only keep channels with sufficient RGB assets
    fn filter_first_hops(
        &mut self,
        payment_hash: &PaymentHash,
        first_hops: &mut Vec<ChannelDetails>,
    )
        ensures
            final(self)@ == narrow_first_hops(old(self)@, payment_hash@, old(first_hops)@).0,
            final(first_hops)@ == narrow_first_hops(old(self)@, payment_hash@, old(first_hops)@).1,
    ;
}

fn retain_hops<K: KVStoreSync>(
    kv_store: &mut K,
    hops: &Vec<ChannelDetails>,
    contract_id: &ContractId,
    amount: u64,
) -> (r: Vec<ChannelDetails>)
    ensures
        final(kv_store)@ == keep_hops(old(kv_store)@, hops@, contract_id@, amount).0,
        r@ == keep_hops(old(kv_store)@, hops@, contract_id@, amount).1,
{
    let mut kept: Vec<ChannelDetails> = Vec::new();
    let mut i: usize = 0;
    let ghost start = kv_store@;
    assert(hops@.take(0) =~= Seq::<ChannelDetails>::empty());
    while i < hops.len()
        invariant
            i <= hops.len(),
            kv_store@ == keep_hops(start, hops@.take(i as int), contract_id@, amount).0,
            kept@ == keep_hops(start, hops@.take(i as int), contract_id@, amount).1,
        decreases hops.len() - i,
    {
        let hop: ChannelDetails = hops[i];
        proof {
            assert(hops@.take(i + 1).drop_last() =~= hops@.take(i as int));
            assert(hops@.take(i + 1).last() == hop);
        }
        let channel_id: String = hop.channel_id.to_hex();
        match kv_store.read_rgb_channel_info(channel_id.as_str(), false) {
            Ok(info) => {
                if info.contract_id.same(contract_id) && info.local_rgb_amount >= amount {
                    kept.push(hop);
                }
            },
            Err(_) => {},
        }
        i = i + 1;
    }
    assert(hops@.take(i as int) =~= hops@);
    kept
}

impl<K: KVStoreSync> RgbKvStoreExt for K {
    fn read_rgb_transfer_info(&mut self, txid: &str) -> (r: Result<TransferInfo, Error>) {
        match self.read(RGB_PRIMARY_NS, RGB_TRANSFER_INFO_NS, txid) {
            Ok(data) => TransferInfo::from_bytes(data.as_slice()),
            Err(e) => Err(e),
        }
    }

    fn write_rgb_transfer_info(&mut self, txid: &str, info: &TransferInfo) -> (r: Result<
        (),
        Error,
    >) {
        let data: Vec<u8> = info.to_bytes();
        let ghost bytes = data@;
        let written: Result<(), Error> = self.write(
            RGB_PRIMARY_NS,
            RGB_TRANSFER_INFO_NS,
            txid,
            data,
        );
        assert(decode_transfer(bytes) == Some(info@));
        written
    }

    fn read_rgb_channel_info(&mut self, channel_id: &str, pending: bool) -> (r: Result<
        RgbInfo,
        Error,
    >) {
        match self.read(RGB_PRIMARY_NS, channel_info_namespace(pending), channel_id) {
            Ok(data) => RgbInfo::from_bytes(data.as_slice()),
            Err(e) => Err(e),
        }
    }

    fn write_rgb_channel_info(
        &mut self,
        channel_id: &str,
        rgb_info: &RgbInfo,
        pending: bool,
    ) -> (r: Result<(), Error>) {
        let data: Vec<u8> = rgb_info.to_bytes();
        self.write(RGB_PRIMARY_NS, channel_info_namespace(pending), channel_id, data)
    }

    fn read_rgb_payment_info(&mut self, payment_hash: &PaymentHash, inbound: bool) -> (r: Result<
        RgbPaymentInfo,
        Error,
    >) {
        let key: String = payment_hash.to_hex();
        match self.read(RGB_PRIMARY_NS, payment_info_namespace(inbound), key.as_str()) {
            Ok(data) => RgbPaymentInfo::from_bytes(data.as_slice()),
            Err(e) => Err(e),
        }
    }

    fn write_rgb_payment_info(&mut self, payment_hash: &PaymentHash, info: &RgbPaymentInfo) -> (r:
        Result<(), Error>) {
        let key: String = payment_hash.to_hex();
        let data: Vec<u8> = info.to_bytes();
        self.write(RGB_PRIMARY_NS, payment_info_namespace(info.inbound), key.as_str(), data)
    }

    fn read_rgb_consignment(&mut self, id: &str) -> (r: Result<Vec<u8>, Error>) {
        self.read(RGB_PRIMARY_NS, RGB_CONSIGNMENT_NS, id)
    }

    fn write_rgb_consignment(&mut self, id: &str, data: Vec<u8>) -> (r: Result<(), Error>) {
        self.write(RGB_PRIMARY_NS, RGB_CONSIGNMENT_NS, id, data)
    }

    fn remove_rgb_channel_info(&mut self, channel_id: &str, pending: bool) -> (r: Result<
        (),
        Error,
    >) {
        self.remove(RGB_PRIMARY_NS, channel_info_namespace(pending), channel_id, false)
    }

    fn remove_rgb_consignment(&mut self, id: &str) -> (r: Result<(), Error>) {
        self.remove(RGB_PRIMARY_NS, RGB_CONSIGNMENT_NS, id, false)
    }

    fn read_config(&mut self, key: &str) -> (r: Result<String, Error>) {
        let data: Vec<u8> = match self.read(RGB_PRIMARY_NS, RGB_WALLET_CONFIG_NS, key) {
            Ok(data) => data,
            Err(e) => return Err(e),
        };
        match utf8_text(data) {
            Ok(text) => {
                proof {
                    encode_utf8_decode_utf8(text@);
                }
                Ok(text)
            },
            Err(message) => Err(Error::Undecodable { message }),
        }
    }

    fn write_config(&mut self, key: &str, value: &str) -> (r: Result<(), Error>) {
        self.write(RGB_PRIMARY_NS, RGB_WALLET_CONFIG_NS, key, value.as_bytes_vec())
    }

    fn is_payment_rgb(&mut self, payment_hash: &PaymentHash) -> (r: bool) {
        self.read_rgb_payment_info(payment_hash, false).is_ok() || self.read_rgb_payment_info(
            payment_hash,
            true,
        ).is_ok()
    }

    fn filter_first_hops(
        &mut self,
        payment_hash: &PaymentHash,
        first_hops: &mut Vec<ChannelDetails>,
    ) {
        let info: RgbPaymentInfo = match self.read_rgb_payment_info(payment_hash, false) {
            Ok(info) => info,
            Err(_) => return ,
        };
        let kept: Vec<ChannelDetails> = retain_hops(
            self,
            first_hops,
            &info.contract_id,
            info.amount,
        );
        *first_hops = kept;
    }
}

/// A setting that was written reads back as the same text.
pub proof fn setting_reads_back(store: StoreView, key: Seq<char>, value: Seq<char>)
    requires
        store.write(config_key(key), encode_utf8(value)).1 is Ok,
        store.write(config_key(key), encode_utf8(value)).0.next().fault is None,
    ensures
        read_setting(store.write(config_key(key), encode_utf8(value)).0, key).1 == Ok::<
            Seq<char>,
            ErrorView,
        >(value),
{
    encode_utf8_valid_utf8(value);
    encode_utf8_decode_utf8(value);
}

/// Reading gives back the channel info, the payment info and the transfer info that the store
/// holds, whenever the read itself does not fail.
pub proof fn read_gives_stored(
    store: StoreView,
    id: Seq<char>,
    flag: bool,
)
    requires
        store.next().fault is None,
    ensures
        stored_info(store, id, flag) matches Some(info) ==> read_info(store, id, flag).1 == Ok::<
            RgbInfoView,
            ErrorView,
        >(info),
        stored_info(store, id, flag) is None ==> read_info(store, id, flag).1 is Err,
        stored_payment(store, id, flag) matches Some(info) ==> read_payment(store, id, flag).1
            == Ok::<RgbPaymentInfoView, ErrorView>(info),
        stored_payment(store, id, flag) is None ==> read_payment(store, id, flag).1 is Err,
        stored_transfer(store, id) matches Some(info) ==> read_transfer(store, id).1 == Ok::<
            TransferInfoView,
            ErrorView,
        >(info),
        stored_transfer(store, id) is None ==> read_transfer(store, id).1 is Err,
{
}

/// Where no call fails, a payment is colored exactly if the store holds its info, outbound or
/// inbound. Looking changes no entry.
pub proof fn colored_payment_has_stored_info(store: StoreView, payment_hash: Seq<u8>)
    ensures
        find_payment(store, payment_hash).0.entries == store.entries,
        store.calm() ==> find_payment(store, payment_hash).1 == (stored_payment(
            store,
            hex(payment_hash),
            false,
        ) is Some || stored_payment(store, hex(payment_hash), true) is Some),
{
    let (after, outbound) = read_payment(store, hex(payment_hash), false);
    assert(store.calm() ==> store.next().fault is None);
    assert(store.calm() ==> after.next().fault is None);
}

/// Narrowing first hops changes no entry. Where no call fails, it keeps, in order, exactly the
/// channels whose stored info is of the payment's contract and has at least the payment's amount on
/// the local side; and it keeps them all for a payment without RGB info.
pub proof fn narrowing_keeps_the_sufficient(
    store: StoreView,
    payment_hash: Seq<u8>,
    hops: Seq<ChannelDetails>,
)
    ensures
        narrow_first_hops(store, payment_hash, hops).0.entries == store.entries,
        store.calm() ==> narrow_first_hops(store, payment_hash, hops).1 == match stored_payment(
            store,
            hex(payment_hash),
            false,
        ) {
            Some(payment) => hops.filter(
                |hop: ChannelDetails|
                    match stored_info(store, hex(hop.channel_id@), false) {
                        Some(info) => info.contract_id == payment.contract_id
                            && info.local_rgb_amount >= payment.amount,
                        None => false,
                    },
            ),
            None => hops,
        },
{
    let (after, payment) = read_payment(store, hex(payment_hash), false);
    if let Ok(info) = payment {
        keeping_hops(store, after, hops, info.contract_id, info.amount);
    }
}

proof fn keeping_hops(
    origin: StoreView,
    store: StoreView,
    hops: Seq<ChannelDetails>,
    contract_id: Seq<u8>,
    amount: u64,
)
    requires
        store.entries == origin.entries,
        store.outcomes == origin.outcomes,
    ensures
        keep_hops(store, hops, contract_id, amount).0.entries == origin.entries,
        keep_hops(store, hops, contract_id, amount).0.outcomes == origin.outcomes,
        origin.calm() ==> keep_hops(store, hops, contract_id, amount).1 == hops.filter(
            |hop: ChannelDetails|
                match stored_info(origin, hex(hop.channel_id@), false) {
                    Some(info) => info.contract_id == contract_id && info.local_rgb_amount
                        >= amount,
                    None => false,
                },
        ),
    decreases hops.len(),
{
    reveal(Seq::filter);
    if hops.len() > 0 {
        keeping_hops(origin, store, hops.drop_last(), contract_id, amount);
        let before = keep_hops(store, hops.drop_last(), contract_id, amount).0;
        assert(origin.calm() ==> before.next().fault is None);
    }
}

/// Where no call fails, a first hop of a payment with RGB info is kept if and only if the store
/// holds current info for its channel, of the payment's contract, with at least the payment's
/// amount on the local side. Nothing else of the info plays a part, and no hop is added.
pub proof fn hop_is_kept_for_its_local_balance(
    store: StoreView,
    payment_hash: Seq<u8>,
    hops: Seq<ChannelDetails>,
    payment: RgbPaymentInfoView,
    hop: ChannelDetails,
)
    requires
        store.calm(),
        stored_payment(store, hex(payment_hash), false) == Some(payment),
    ensures
        narrow_first_hops(store, payment_hash, hops).1.contains(hop) <==> hops.contains(hop) && (
        stored_info(store, hex(hop.channel_id@), false) matches Some(info) && info.contract_id
            == payment.contract_id && info.local_rgb_amount >= payment.amount),
{
    narrowing_keeps_the_sufficient(store, payment_hash, hops);
    let enough = |hop: ChannelDetails|
        match stored_info(store, hex(hop.channel_id@), false) {
            Some(info) => info.contract_id == payment.contract_id && info.local_rgb_amount
                >= payment.amount,
            None => false,
        };
    let kept = hops.filter(enough);
    if hops.contains(hop) && enough(hop) {
        let i = hops.index_of(hop);
        assert(hops[i] == hop);
    }
    if kept.contains(hop) {
        hops.lemma_filter_contains_rev(enough, hop);
        let i = kept.index_of(hop);
        assert(kept[i] == hop);
    }
}

/// Hops are looked at one by one, in order, and each is kept or dropped for itself, however the
/// store fails: a further hop leaves what was kept as it was, and is itself kept if and only if its
/// read does not fail and gives info of the contract with at least the amount on the local side.
pub proof fn further_hop_is_kept_for_itself(
    store: StoreView,
    hops: Seq<ChannelDetails>,
    hop: ChannelDetails,
    contract_id: Seq<u8>,
    amount: u64,
)
    ensures
        ({
            let (before, kept) = keep_hops(store, hops, contract_id, amount);
            let (after, all) = keep_hops(store, hops.push(hop), contract_id, amount);
            &&& after.calls == before.calls + 1
            &&& all == if (before.outcomes)(before.calls).fault is None && (stored_info(
                before,
                hex(hop.channel_id@),
                false,
            ) matches Some(info) && info.contract_id == contract_id && info.local_rgb_amount
                >= amount) {
                kept.push(hop)
            } else {
                kept
            }
        }),
        keep_hops(store, Seq::empty(), contract_id, amount) == (
            store,
            Seq::<ChannelDetails>::empty(),
        ),
{
    assert(hops.push(hop).drop_last() =~= hops);
}

/// The hops of a payment are narrowed by the contract and the amount of its outbound info. Where
/// that cannot be read, all of them stay.
pub proof fn hops_are_narrowed_by_the_outbound_payment(
    store: StoreView,
    payment_hash: Seq<u8>,
    hops: Seq<ChannelDetails>,
)
    ensures
        ({
            let run = narrow_first_hops(store, payment_hash, hops);
            let readable = (store.outcomes)(store.calls).fault is None;
            match stored_payment(store, hex(payment_hash), false) {
                Some(payment) => if readable {
                    run == keep_hops(store.called(), hops, payment.contract_id, payment.amount)
                } else {
                    run.1 == hops
                },
                None => run.1 == hops,
            }
        }),
{
}

/// Where the data of the library is kept: all of it in one namespace, each kind in its own below.
pub proof fn data_has_its_place(id: Seq<char>)
    ensures
        info_key(id, false) == (EntryKey {
            primary: "rgb"@,
            secondary: "channel_info"@,
            key: id,
        }),
        info_key(id, true) == (EntryKey {
            primary: "rgb"@,
            secondary: "channel_info_pending"@,
            key: id,
        }),
        payment_key(id, true) == (EntryKey {
            primary: "rgb"@,
            secondary: "payment_info_inbound"@,
            key: id,
        }),
        payment_key(id, false) == (EntryKey {
            primary: "rgb"@,
            secondary: "payment_info_outbound"@,
            key: id,
        }),
        transfer_key(id) == (EntryKey {
            primary: "rgb"@,
            secondary: "transfer_info"@,
            key: id,
        }),
        consignment_key(id) == (EntryKey {
            primary: "rgb"@,
            secondary: "consignment"@,
            key: id,
        }),
        config_key(id) == (EntryKey {
            primary: "rgb"@,
            secondary: "wallet_config"@,
            key: id,
        }),
{
}

/// What the store holds is told by its entries alone: the bytes at the place of the data, decoded.
pub proof fn stored_data_is_told_by_the_entries(store: StoreView, id: Seq<char>, flag: bool)
    ensures
        store.entries.contains_key(info_key(id, flag)) ==> stored_info(store, id, flag)
            == decode_info(store.entries[info_key(id, flag)]),
        !store.entries.contains_key(info_key(id, flag)) ==> stored_info(store, id, flag) is None,
        store.entries.contains_key(payment_key(id, flag)) ==> stored_payment(store, id, flag)
            == decode_payment(store.entries[payment_key(id, flag)]),
        !store.entries.contains_key(payment_key(id, flag)) ==> stored_payment(
            store,
            id,
            flag,
        ) is None,
        store.entries.contains_key(transfer_key(id)) ==> stored_transfer(store, id)
            == decode_transfer(store.entries[transfer_key(id)]),
        !store.entries.contains_key(transfer_key(id)) ==> stored_transfer(store, id) is None,
{
}

/// A read of typed data changes no entry. It succeeds if and only if the store does not fail and
/// holds the data in order. Data that is not there is reported as not found, data that does not
/// decode as invalid, and a failure of the store in its own words.
pub proof fn typed_read_succeeds_on_what_is_held(store: StoreView, id: Seq<char>, flag: bool)
    ensures
        read_info(store, id, flag).0 == store.called(),
        read_payment(store, id, flag).0 == store.called(),
        read_transfer(store, id).0 == store.called(),
        read_info(store, id, flag).1 is Ok <==> (store.outcomes)(store.calls).fault is None
            && stored_info(store, id, flag) is Some,
        read_payment(store, id, flag).1 is Ok <==> (store.outcomes)(store.calls).fault is None
            && stored_payment(store, id, flag) is Some,
        read_transfer(store, id).1 is Ok <==> (store.outcomes)(store.calls).fault is None
            && stored_transfer(store, id) is Some,
        (store.outcomes)(store.calls).fault is None ==> {
            &&& (read_info(store, id, flag).1 matches Err(e) ==> e.kind == if store.entries
                .contains_key(info_key(id, flag)) {
                ErrorKind::InvalidData
            } else {
                ErrorKind::NotFound
            })
            &&& (read_payment(store, id, flag).1 matches Err(e) ==> e.kind == if store.entries
                .contains_key(payment_key(id, flag)) {
                ErrorKind::InvalidData
            } else {
                ErrorKind::NotFound
            })
            &&& (read_transfer(store, id).1 matches Err(e) ==> e.kind == if store.entries
                .contains_key(transfer_key(id)) {
                ErrorKind::InvalidData
            } else {
                ErrorKind::NotFound
            })
        },
        (store.outcomes)(store.calls).fault matches Some(fault) ==> {
            &&& read_info(store, id, flag).1 matches Err(e) && e.message == Some(fault.message)
            &&& read_payment(store, id, flag).1 matches Err(e) && e.message == Some(fault.message)
            &&& read_transfer(store, id).1 matches Err(e) && e.message == Some(fault.message)
        },
{
}

/// A write of typed data puts its encoding in its place, and reports a failure of the store in its
/// own words.
pub proof fn typed_write_puts_the_encoding_in_place(
    store: StoreView,
    id: Seq<char>,
    flag: bool,
    info: RgbInfoView,
    payment: RgbPaymentInfoView,
)
    ensures
        write_info(store, id, info, flag).1 is Ok <==> (store.outcomes)(store.calls).fault is None,
        write_info(store, id, info, flag).1 is Ok ==> write_info(store, id, info, flag).0.entries
            == store.entries.insert(info_key(id, flag), encode_info(info)),
        write_payment(store, id, payment, flag).1 is Ok <==> (store.outcomes)(
            store.calls,
        ).fault is None,
        write_payment(store, id, payment, flag).1 is Ok ==> write_payment(
            store,
            id,
            payment,
            flag,
        ).0.entries == store.entries.insert(payment_key(id, flag), encode_payment(payment)),
        (store.outcomes)(store.calls).fault matches Some(fault) ==> {
            &&& write_info(store, id, info, flag).1 matches Err(e) && e.kind == fault.kind
                && e.message == Some(fault.message)
            &&& write_payment(store, id, payment, flag).1 matches Err(e) && e.kind == fault.kind
                && e.message == Some(fault.message)
        },
{
}

/// Writing a transfer that succeeds leaves it in the store, and changes no other entry.
pub proof fn written_transfer_is_held(
    store: StoreView,
    txid: Seq<char>,
    info: TransferInfoView,
    after: StoreView,
    result: Result<(), ErrorView>,
    key: EntryKey,
)
    requires
        writes_transfer(store, txid, info, after, result),
    ensures
        result is Ok <==> (store.outcomes)(store.calls).fault is None,
        result is Ok ==> stored_transfer(after, txid) == Some(info),
        key != transfer_key(txid) ==> after.entries.contains_key(key)
            == store.entries.contains_key(key) && after.entries[key] == store.entries[key],
{
}

/// A payment is colored if its info can be read, outbound or, failing that, inbound; however the
/// store fails, nothing else makes it so.
pub proof fn payment_is_colored_by_its_readable_info(store: StoreView, payment_hash: Seq<u8>)
    ensures
        find_payment(store, payment_hash).1 <==> {
            ||| (store.outcomes)(store.calls).fault is None && stored_payment(
                store,
                hex(payment_hash),
                false,
            ) is Some
            ||| (store.outcomes)(store.calls + 1).fault is None && stored_payment(
                store,
                hex(payment_hash),
                true,
            ) is Some
        },
{
}

/// A setting reads as the text whose encoding is kept. Bytes that encode no text are invalid, and a
/// setting that is not there is not found.
pub proof fn setting_reads_as_its_text(store: StoreView, key: Seq<char>, value: Seq<char>)
    requires
        (store.outcomes)(store.calls).fault is None,
    ensures
        store.entries.contains_key(config_key(key)) && store.entries[config_key(key)]
            == encode_utf8(value) ==> read_setting(store, key).1 == Ok::<Seq<char>, ErrorView>(
            value,
        ),
        store.entries.contains_key(config_key(key)) && !valid_utf8(store.entries[config_key(key)])
            ==> (read_setting(store, key).1 matches Err(e) && e.kind == ErrorKind::InvalidData),
        !store.entries.contains_key(config_key(key)) ==> (read_setting(store, key).1 matches Err(e)
            && e.kind == ErrorKind::NotFound),
        read_setting(store, key).0 == store.called(),
{
    encode_utf8_valid_utf8(value);
    encode_utf8_decode_utf8(value);
}

/// IDs show their bytes as they are.
pub proof fn ids_show_their_bytes(channel_id: ChannelId, payment_hash: PaymentHash)
    ensures
        channel_id@ == channel_id.0@,
        payment_hash@ == payment_hash.0@,
{
}

} // verus!
