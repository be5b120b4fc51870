//! What the store keeps for a channel, a payment and a transfer, and how it is encoded.

use vstd::prelude::*;
use std::collections::HashMap;
use crate::contract_id_serde;
use crate::errors::{unknown_variant_error, Error};
#[allow(unused_imports)]
use crate::errors::{undecodable, unknown_variant};
use crate::outside::{
    decode_info_fields, decode_payment_fields, decode_transfer_fields, encode_info_fields,
    encode_payment_fields, encode_transfer_fields, InfoFields,
};
#[allow(unused_imports)]
use crate::outside::{
    contract_id_bytes, contract_id_text, info_decoding, info_encoding, info_fields_view,
    payment_decoding, payment_encoding, transfer_decoding, InfoFieldsView,
};
use crate::text::same_bytes;

verus! {

/// The ID of an RGB contract.
#[derive(Clone, Copy, Debug, PartialEq, Eq)]
pub struct ContractId(pub [u8; 32]);

impl View for ContractId {
    type V = Seq<u8>;

    open spec fn view(&self) -> Seq<u8> {
        self.0@
    }
}

impl ContractId {
    /// Whether two contract IDs are equal.
    pub fn same(&self, other: &ContractId) -> (r: bool)
        ensures
            r == (self@ == other@),
    {
        same_bytes(self.0.as_slice(), other.0.as_slice())
    }
}

/// How many schemas there are.
pub const SCHEMAS: u64 = 4;

/// The schema of an RGB asset.
#[derive(Clone, Copy, Debug, PartialEq, Eq, Structural)]
pub enum AssetSchema {
    Nia,
    Uda,
    Cfa,
    Ifa,
}

impl AssetSchema {
    /// The number under which the schema is kept.
    pub open spec fn spec_number(self) -> u32 {
        match self {
            AssetSchema::Nia => 0,
            AssetSchema::Uda => 1,
            AssetSchema::Cfa => 2,
            AssetSchema::Ifa => 3,
        }
    }

    /// The schema kept under a number, if there is one.
    pub open spec fn spec_from_number(number: u32) -> Option<AssetSchema> {
        if number == 0 {
            Some(AssetSchema::Nia)
        } else if number == 1 {
            Some(AssetSchema::Uda)
        } else if number == 2 {
            Some(AssetSchema::Cfa)
        } else if number == 3 {
            Some(AssetSchema::Ifa)
        } else {
            None
        }
    }

    fn number(self) -> (r: u32)
        ensures
            r == self.spec_number(),
    {
        match self {
            AssetSchema::Nia => 0,
            AssetSchema::Uda => 1,
            AssetSchema::Cfa => 2,
            AssetSchema::Ifa => 3,
        }
    }

    fn from_number(number: u32) -> (r: Option<AssetSchema>)
        ensures
            r == AssetSchema::spec_from_number(number),
    {
        if number == 0 {
            Some(AssetSchema::Nia)
        } else if number == 1 {
            Some(AssetSchema::Uda)
        } else if number == 2 {
            Some(AssetSchema::Cfa)
        } else if number == 3 {
            Some(AssetSchema::Ifa)
        } else {
            None
        }
    }
}

/// RGB channel info
#[derive(Clone, Copy, Debug, PartialEq, Eq)]
pub struct RgbInfo {
    /// Channel contract ID
    pub contract_id: ContractId,
    /// Channel schema
    pub schema: AssetSchema,
    /// Channel RGB local amount
    pub local_rgb_amount: u64,
    /// Channel RGB remote amount
    pub remote_rgb_amount: u64,
    /// Batch transfer index of the wallet, set once the transfer has begun
    pub batch_transfer_idx: Option<i32>,
    /// Whether the channel acceptor told us (in `accept_channel`) that it already knows the asset
    pub counterparty_knows_asset: bool,
}

/// What contracts say of an [`RgbInfo`].
pub struct RgbInfoView {
    pub contract_id: Seq<u8>,
    pub schema: AssetSchema,
    pub local_rgb_amount: u64,
    pub remote_rgb_amount: u64,
    pub batch_transfer_idx: Option<i32>,
    pub counterparty_knows_asset: bool,
}

impl View for RgbInfo {
    type V = RgbInfoView;

    open spec fn view(&self) -> RgbInfoView {
        RgbInfoView {
            contract_id: self.contract_id@,
            schema: self.schema,
            local_rgb_amount: self.local_rgb_amount,
            remote_rgb_amount: self.remote_rgb_amount,
            batch_transfer_idx: self.batch_transfer_idx,
            counterparty_knows_asset: self.counterparty_knows_asset,
        }
    }
}

/// Channel info in plain values.
pub open spec fn info_to_fields(info: RgbInfoView) -> InfoFieldsView {
    (
        contract_id_text(info.contract_id),
        info.schema.spec_number(),
        info.local_rgb_amount,
        info.remote_rgb_amount,
        info.batch_transfer_idx,
        info.counterparty_knows_asset,
    )
}

/// The channel info given by plain values: the contract ID must parse, the schema be known.
pub open spec fn info_from_fields(fields: InfoFieldsView) -> Option<RgbInfoView> {
    match (contract_id_bytes(fields.0), AssetSchema::spec_from_number(fields.1)) {
        (Some(contract_id), Some(schema)) => Some(
            RgbInfoView {
                contract_id,
                schema,
                local_rgb_amount: fields.2,
                remote_rgb_amount: fields.3,
                batch_transfer_idx: fields.4,
                counterparty_knows_asset: fields.5,
            },
        ),
        _ => None,
    }
}

/// The bytes under which channel info is kept.
pub open spec fn encode_info(info: RgbInfoView) -> Seq<u8> {
    let fields = info_to_fields(info);
    info_encoding(fields.0, fields.1, fields.2, fields.3, fields.4, fields.5)
}

/// The channel info that kept bytes hold, if they hold one.
pub open spec fn decode_info(bytes: Seq<u8>) -> Option<RgbInfoView> {
    match info_decoding(bytes) {
        Some(fields) => info_from_fields(fields),
        None => None,
    }
}

/// The view of a result that carries channel info on success.
pub open spec fn info_view(r: Result<RgbInfo, Error>) -> Result<
    RgbInfoView,
    crate::errors::ErrorView,
> {
    match r {
        Ok(info) => Ok(info@),
        Err(e) => Err(e@),
    }
}

impl RgbInfo {
    /// The info in plain values.
    pub fn to_fields(&self) -> (r: InfoFields)
        ensures
            info_fields_view(r) == info_to_fields(self@),
            info_from_fields(info_fields_view(r)) == Some(self@),
    {
        (
            contract_id_serde::serialize(&self.contract_id),
            self.schema.number(),
            self.local_rgb_amount,
            self.remote_rgb_amount,
            self.batch_transfer_idx,
            self.counterparty_knows_asset,
        )
    }

    /// The info given by plain values.
    pub fn from_fields(fields: &InfoFields) -> (r: Result<RgbInfo, Error>)
        ensures
            match r {
                Ok(info) => info_from_fields(info_fields_view(*fields)) == Some(info@),
                Err(e) => {
                    &&& info_from_fields(info_fields_view(*fields)) is None
                    &&& e@ == undecodable()
                    &&& contract_id_bytes(fields.0@) is Some ==> e.words() == unknown_variant(
                        fields.1,
                        SCHEMAS,
                    )
                },
            },
    {
        let contract_id: ContractId = match contract_id_serde::deserialize(fields.0.as_str()) {
            Ok(contract_id) => contract_id,
            Err(e) => return Err(e),
        };
        match AssetSchema::from_number(fields.1) {
            Some(schema) => Ok(
                RgbInfo {
                    contract_id,
                    schema,
                    local_rgb_amount: fields.2,
                    remote_rgb_amount: fields.3,
                    batch_transfer_idx: fields.4,
                    counterparty_knows_asset: fields.5,
                },
            ),
            None => Err(unknown_variant_error(fields.1, SCHEMAS)),
        }
    }

    /// The bytes under which the info is kept. They read back as the same info.
    pub fn to_bytes(&self) -> (r: Vec<u8>)
        ensures
            r@ == encode_info(self@),
            decode_info(r@) == Some(self@),
    {
        let fields: InfoFields = self.to_fields();
        encode_info_fields(fields.0.as_str(), fields.1, fields.2, fields.3, fields.4, fields.5)
    }

    /// The info that kept bytes hold.
    pub fn from_bytes(bytes: &[u8]) -> (r: Result<RgbInfo, Error>)
        ensures
            match r {
                Ok(info) => decode_info(bytes@) == Some(info@),
                Err(e) => {
                    &&& decode_info(bytes@) is None
                    &&& e@ == undecodable()
                    &&& info_decoding(bytes@) matches Some(fields) ==> contract_id_bytes(
                        fields.0,
                    ) is Some ==> e.words() == unknown_variant(fields.1, SCHEMAS)
                },
            },
    {
        match decode_info_fields(bytes) {
            Ok(fields) => RgbInfo::from_fields(&fields),
            Err(message) => Err(Error::Undecodable { message }),
        }
    }
}

/// RGB payment info
#[derive(Clone, Copy, Debug, PartialEq, Eq)]
pub struct RgbPaymentInfo {
    /// RGB contract ID
    pub contract_id: ContractId,
    /// RGB payment amount
    pub amount: u64,
    /// RGB local amount
    pub local_rgb_amount: u64,
    /// RGB remote amount
    pub remote_rgb_amount: u64,
    /// Whether the RGB amount in route should be overridden
    pub swap_payment: bool,
    /// Whether the payment is inbound
    pub inbound: bool,
}

/// What contracts say of an [`RgbPaymentInfo`].
pub struct RgbPaymentInfoView {
    pub contract_id: Seq<u8>,
    pub amount: u64,
    pub local_rgb_amount: u64,
    pub remote_rgb_amount: u64,
    pub swap_payment: bool,
    pub inbound: bool,
}

impl View for RgbPaymentInfo {
    type V = RgbPaymentInfoView;

    open spec fn view(&self) -> RgbPaymentInfoView {
        RgbPaymentInfoView {
            contract_id: self.contract_id@,
            amount: self.amount,
            local_rgb_amount: self.local_rgb_amount,
            remote_rgb_amount: self.remote_rgb_amount,
            swap_payment: self.swap_payment,
            inbound: self.inbound,
        }
    }
}

/// The bytes under which payment info is kept.
pub open spec fn encode_payment(info: RgbPaymentInfoView) -> Seq<u8> {
    payment_encoding(
        contract_id_text(info.contract_id),
        info.amount,
        info.local_rgb_amount,
        info.remote_rgb_amount,
        info.swap_payment,
        info.inbound,
    )
}

/// The payment info that kept bytes hold, if they hold one: the contract ID must parse.
pub open spec fn decode_payment(bytes: Seq<u8>) -> Option<RgbPaymentInfoView> {
    match payment_decoding(bytes) {
        Some(fields) => match contract_id_bytes(fields.0) {
            Some(contract_id) => Some(
                RgbPaymentInfoView {
                    contract_id,
                    amount: fields.1,
                    local_rgb_amount: fields.2,
                    remote_rgb_amount: fields.3,
                    swap_payment: fields.4,
                    inbound: fields.5,
                },
            ),
            None => None,
        },
        None => None,
    }
}

/// The view of a result that carries payment info on success.
pub open spec fn payment_view(r: Result<RgbPaymentInfo, Error>) -> Result<
    RgbPaymentInfoView,
    crate::errors::ErrorView,
> {
    match r {
        Ok(info) => Ok(info@),
        Err(e) => Err(e@),
    }
}

impl RgbPaymentInfo {
    /// The bytes under which the info is kept. They read back as the same info.
    pub fn to_bytes(&self) -> (r: Vec<u8>)
        ensures
            r@ == encode_payment(self@),
            decode_payment(r@) == Some(self@),
    {
        let contract_id: String = contract_id_serde::serialize(&self.contract_id);
        encode_payment_fields(
            contract_id.as_str(),
            self.amount,
            self.local_rgb_amount,
            self.remote_rgb_amount,
            self.swap_payment,
            self.inbound,
        )
    }

    /// The info that kept bytes hold.
    pub fn from_bytes(bytes: &[u8]) -> (r: Result<RgbPaymentInfo, Error>)
        ensures
            match r {
                Ok(info) => decode_payment(bytes@) == Some(info@),
                Err(e) => decode_payment(bytes@) is None && e@ == undecodable(),
            },
    {
        match decode_payment_fields(bytes) {
            Ok(fields) => match contract_id_serde::deserialize(fields.0.as_str()) {
                Ok(contract_id) => Ok(
                    RgbPaymentInfo {
                        contract_id,
                        amount: fields.1,
                        local_rgb_amount: fields.2,
                        remote_rgb_amount: fields.3,
                        swap_payment: fields.4,
                        inbound: fields.5,
                    },
                ),
                Err(e) => Err(e),
            },
            Err(message) => Err(Error::Undecodable { message }),
        }
    }
}

/// RGB transfer info
#[derive(Clone, Debug)]
pub struct TransferInfo {
    /// Transfer contract ID
    pub contract_id: ContractId,
    /// RGB amount assigned to each output of the transaction, by vout
    pub output_map: HashMap<u32, u64>,
}

/// What contracts say of a [`TransferInfo`].
pub struct TransferInfoView {
    pub contract_id: Seq<u8>,
    pub output_map: Map<u32, u64>,
}

impl View for TransferInfo {
    type V = TransferInfoView;

    open spec fn view(&self) -> TransferInfoView {
        TransferInfoView { contract_id: self.contract_id@, output_map: self.output_map@ }
    }
}

/// The transfer info that kept bytes hold, if they hold one: the contract ID must parse.
pub open spec fn decode_transfer(bytes: Seq<u8>) -> Option<TransferInfoView> {
    match transfer_decoding(bytes) {
        Some(fields) => match contract_id_bytes(fields.0) {
            Some(contract_id) => Some(TransferInfoView { contract_id, output_map: fields.1 }),
            None => None,
        },
        None => None,
    }
}

/// The view of a result that carries transfer info on success.
pub open spec fn transfer_view(r: Result<TransferInfo, Error>) -> Result<
    TransferInfoView,
    crate::errors::ErrorView,
> {
    match r {
        Ok(info) => Ok(info@),
        Err(e) => Err(e@),
    }
}

impl TransferInfo {
    /// Bytes under which the info is kept. They read back as the same info.
    pub fn to_bytes(&self) -> (r: Vec<u8>)
        ensures
            decode_transfer(r@) == Some(self@),
    {
        let contract_id: String = contract_id_serde::serialize(&self.contract_id);
        encode_transfer_fields(contract_id.as_str(), &self.output_map)
    }

    /// The info that kept bytes hold.
    pub fn from_bytes(bytes: &[u8]) -> (r: Result<TransferInfo, Error>)
        ensures
            match r {
                Ok(info) => decode_transfer(bytes@) == Some(info@),
                Err(e) => decode_transfer(bytes@) is None && e@ == undecodable(),
            },
    {
        match decode_transfer_fields(bytes) {
            Ok(fields) => {
                let (text, output_map) = fields;
                match contract_id_serde::deserialize(text.as_str()) {
                    Ok(contract_id) => Ok(TransferInfo { contract_id, output_map }),
                    Err(e) => Err(e),
                }
            },
            Err(message) => Err(Error::Undecodable { message }),
        }
    }
}

/// Each schema is kept under its own number, and no other number stands for a schema.
pub proof fn schemas_have_their_numbers(schema: AssetSchema, number: u32)
    ensures
        AssetSchema::Nia.spec_number() == 0,
        AssetSchema::Uda.spec_number() == 1,
        AssetSchema::Cfa.spec_number() == 2,
        AssetSchema::Ifa.spec_number() == 3,
        AssetSchema::spec_from_number(schema.spec_number()) == Some(schema),
        AssetSchema::spec_from_number(number) is Some <==> number < 4,
        AssetSchema::spec_from_number(number) matches Some(found) ==> found.spec_number() == number,
{
}

/// Channel info is kept as its six values, in order, each in its own place: the text of the
/// contract ID, the number of the schema, the local and the remote amount, the batch transfer
/// index and the note that the asset is known.
pub proof fn channel_info_keeps_each_value_in_its_place(info: RgbInfoView, bytes: Seq<u8>)
    ensures
        encode_info(info) == info_encoding(
            contract_id_text(info.contract_id),
            info.schema.spec_number(),
            info.local_rgb_amount,
            info.remote_rgb_amount,
            info.batch_transfer_idx,
            info.counterparty_knows_asset,
        ),
        decode_info(bytes) == Some(info) <==> (info_decoding(bytes) matches Some(fields) && {
            &&& contract_id_bytes(fields.0) == Some(info.contract_id)
            &&& fields.1 == info.schema.spec_number()
            &&& fields.2 == info.local_rgb_amount
            &&& fields.3 == info.remote_rgb_amount
            &&& fields.4 == info.batch_transfer_idx
            &&& fields.5 == info.counterparty_knows_asset
        }),
        decode_info(bytes) is None <==> (info_decoding(bytes) matches Some(fields)
            ==> contract_id_bytes(fields.0) is None || fields.1 >= 4),
{
}

/// The same holds of the values themselves, as they stand in a larger record.
pub proof fn channel_info_is_given_by_its_values(info: RgbInfoView, fields: InfoFieldsView)
    ensures
        info_to_fields(info) == (
            contract_id_text(info.contract_id),
            info.schema.spec_number(),
            info.local_rgb_amount,
            info.remote_rgb_amount,
            info.batch_transfer_idx,
            info.counterparty_knows_asset,
        ),
        info_from_fields(fields) == Some(info) <==> {
            &&& contract_id_bytes(fields.0) == Some(info.contract_id)
            &&& fields.1 == info.schema.spec_number()
            &&& fields.2 == info.local_rgb_amount
            &&& fields.3 == info.remote_rgb_amount
            &&& fields.4 == info.batch_transfer_idx
            &&& fields.5 == info.counterparty_knows_asset
        },
        info_from_fields(fields) is None <==> contract_id_bytes(fields.0) is None || fields.1 >= 4,
{
}

/// Payment info is kept as its six values, in order, each in its own place.
pub proof fn payment_info_keeps_each_value_in_its_place(info: RgbPaymentInfoView, bytes: Seq<u8>)
    ensures
        encode_payment(info) == payment_encoding(
            contract_id_text(info.contract_id),
            info.amount,
            info.local_rgb_amount,
            info.remote_rgb_amount,
            info.swap_payment,
            info.inbound,
        ),
        decode_payment(bytes) == Some(info) <==> (payment_decoding(bytes) matches Some(fields) && {
            &&& contract_id_bytes(fields.0) == Some(info.contract_id)
            &&& fields.1 == info.amount
            &&& fields.2 == info.local_rgb_amount
            &&& fields.3 == info.remote_rgb_amount
            &&& fields.4 == info.swap_payment
            &&& fields.5 == info.inbound
        }),
        decode_payment(bytes) is None <==> (payment_decoding(bytes) matches Some(fields)
            ==> contract_id_bytes(fields.0) is None),
{
}

/// Transfer info is read as the contract whose text is kept, with the amounts that are kept.
pub proof fn transfer_info_keeps_contract_and_amounts(info: TransferInfoView, bytes: Seq<u8>)
    ensures
        decode_transfer(bytes) == Some(info) <==> (transfer_decoding(bytes) matches Some(fields)
            && contract_id_bytes(fields.0) == Some(info.contract_id) && fields.1
            == info.output_map),
        decode_transfer(bytes) is None <==> (transfer_decoding(bytes) matches Some(fields)
            ==> contract_id_bytes(fields.0) is None),
{
}

/// The views of channel, payment and transfer info show each of their values as it is.
pub proof fn views_show_each_value(
    info: RgbInfo,
    payment: RgbPaymentInfo,
    transfer: TransferInfo,
)
    ensures
        info@.contract_id == info.contract_id.0@,
        info@.schema == info.schema,
        info@.local_rgb_amount == info.local_rgb_amount,
        info@.remote_rgb_amount == info.remote_rgb_amount,
        info@.batch_transfer_idx == info.batch_transfer_idx,
        info@.counterparty_knows_asset == info.counterparty_knows_asset,
        payment@.contract_id == payment.contract_id.0@,
        payment@.amount == payment.amount,
        payment@.local_rgb_amount == payment.local_rgb_amount,
        payment@.remote_rgb_amount == payment.remote_rgb_amount,
        payment@.swap_payment == payment.swap_payment,
        payment@.inbound == payment.inbound,
        transfer@.contract_id == transfer.contract_id.0@,
        transfer@.output_map == transfer.output_map@,
{
}

/// The views of results show the value and the error as they are.
pub proof fn info_results_show_what_they_carry(
    info: Result<RgbInfo, Error>,
    payment: Result<RgbPaymentInfo, Error>,
    transfer: Result<TransferInfo, Error>,
)
    ensures
        info matches Ok(value) ==> info_view(info) == Ok::<RgbInfoView, crate::errors::ErrorView>(
            value@,
        ),
        info matches Err(e) ==> info_view(info) == Err::<RgbInfoView, crate::errors::ErrorView>(e@),
        payment matches Ok(value) ==> payment_view(payment) == Ok::<
            RgbPaymentInfoView,
            crate::errors::ErrorView,
        >(value@),
        payment matches Err(e) ==> payment_view(payment) == Err::<
            RgbPaymentInfoView,
            crate::errors::ErrorView,
        >(e@),
        transfer matches Ok(value) ==> transfer_view(transfer) == Ok::<
            TransferInfoView,
            crate::errors::ErrorView,
        >(value@),
        transfer matches Err(e) ==> transfer_view(transfer) == Err::<
            TransferInfoView,
            crate::errors::ErrorView,
        >(e@),
{
}

} // verus!
