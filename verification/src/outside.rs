//! The calls into outside crates, each with the contract that the rest of the library relies on.

use vstd::prelude::*;
use amplify::confinement::Confined;
use bitcoin::hex::DisplayHex;
use rgbcore::ContractId as RgbContractId;
use rgbstd::containers::Fascia;
use std::collections::HashMap;
use strict_encoding::{StrictDeserialize, StrictSerialize};
#[allow(unused_imports)]
use crate::text::{hex, hex_value, is_fixed_hex, texts};
use vstd::utf8::*;

verus! {

/// `bitcoin::hex::DisplayHex::as_hex`, displayed: two lower-case hexadecimal digits for each byte.
#[verifier::external_body]
pub(crate) fn hex_text(bytes: &[u8]) -> (r: String)
    ensures
        r@ == hex(bytes@),
{
    bytes.as_hex().to_string()
}

/// `bitcoin::Script::is_op_return`: whether the first byte of the script is the OP_RETURN opcode.
#[verifier::external_body]
pub(crate) fn script_is_op_return(script: &[u8]) -> (r: bool)
    ensures
        r == (script@.len() > 0 && script@[0] == 0x6a),
{
    bitcoin::Script::from_bytes(script).is_op_return()
}

/// The words in which the parser of transaction IDs refuses a text.
pub uninterp spec fn txid_refusal(text: Seq<char>) -> Seq<char>;

/// `bitcoin::Txid` parsed from its text: exactly 64 hexadecimal digits, which show the bytes of the
/// transaction ID last to first. The error carries the words of the parser.
#[verifier::external_body]
pub(crate) fn txid_bytes(text: &str) -> (r: Result<[u8; 32], String>)
    ensures
        r is Ok <==> is_fixed_hex(text@, 32),
        r matches Ok(bytes) ==> forall|i: int|
            0 <= i < 32 ==> #[trigger] bytes@[i] == 16 * hex_value(text@[2 * (31 - i)]) + hex_value(
                text@[2 * (31 - i) + 1],
            ),
        r matches Err(words) ==> words@ == txid_refusal(text@),
{
    match text.parse::<bitcoin::Txid>() {
        Ok(txid) => Ok(bitcoin::hashes::Hash::to_byte_array(txid)),
        Err(error) => Err(error.to_string()),
    }
}

/// The text of the ID of the transaction that some bytes are the consensus encoding of, if they are
/// one.
pub uninterp spec fn transaction_id_text(transaction: Seq<u8>) -> Option<Seq<char>>;

/// `bitcoin::Transaction::compute_txid`, displayed, on the consensus encoding of a transaction. The
/// error carries the words of the decoder.
#[verifier::external_body]
pub(crate) fn compute_txid(transaction: &[u8]) -> (r: Result<String, String>)
    ensures
        match r {
            Ok(text) => transaction_id_text(transaction@) == Some(text@),
            Err(_) => transaction_id_text(transaction@) is None,
        },
{
    match bitcoin::consensus::deserialize::<bitcoin::Transaction>(transaction) {
        Ok(transaction) => Ok(transaction.compute_txid().to_string()),
        Err(error) => Err(error.to_string()),
    }
}

/// The texts of the IDs of the transactions that a transaction spends outputs of, input by input,
/// if some bytes are the consensus encoding of one.
pub uninterp spec fn spent_txid_texts(transaction: Seq<u8>) -> Option<Seq<Seq<char>>>;

/// The previous outputs of a `bitcoin::Transaction`, each by its transaction ID, displayed, on the
/// consensus encoding of a transaction. The error carries the words of the decoder.
#[verifier::external_body]
pub(crate) fn spent_txids(transaction: &[u8]) -> (r: Result<Vec<String>, String>)
    ensures
        match r {
            Ok(list) => spent_txid_texts(transaction@) == Some(texts(list@)),
            Err(_) => spent_txid_texts(transaction@) is None,
        },
{
    match bitcoin::consensus::deserialize::<bitcoin::Transaction>(transaction) {
        Ok(transaction) => Ok(
            transaction.input.iter().map(|input| input.previous_output.txid.to_string()).collect(),
        ),
        Err(error) => Err(error.to_string()),
    }
}

/// The lower-case hexadecimal SHA-256 digest of some bytes.
pub uninterp spec fn sha256_digest_text(bytes: Seq<u8>) -> Seq<char>;

/// `bitcoin::hashes::sha256::Hash::hash`, displayed.
#[verifier::external_body]
pub(crate) fn sha256_text(bytes: &[u8]) -> (r: String)
    ensures
        r@ == sha256_digest_text(bytes@),
{
    <bitcoin::hashes::sha256::Hash as bitcoin::hashes::Hash>::hash(bytes).to_string()
}

/// The text that shows the 32 bytes of a contract ID.
pub uninterp spec fn contract_id_text(bytes: Seq<u8>) -> Seq<char>;

/// The 32 bytes of the contract ID that a text shows, if it shows one.
pub uninterp spec fn contract_id_bytes(text: Seq<char>) -> Option<Seq<u8>>;

/// `rgbcore::ContractId` displayed. The text parses as the contract ID that it shows.
#[verifier::external_body]
pub(crate) fn show_contract_id(bytes: &[u8; 32]) -> (r: String)
    ensures
        r@ == contract_id_text(bytes@),
        contract_id_bytes(r@) == Some(bytes@),
{
    RgbContractId::from(*bytes).to_string()
}

/// `rgbcore::ContractId` parsed from text. The error carries the words of the parser.
#[verifier::external_body]
pub(crate) fn parse_contract_id(text: &str) -> (r: Result<[u8; 32], String>)
    ensures
        match r {
            Ok(bytes) => contract_id_bytes(text@) == Some(bytes@),
            Err(_) => contract_id_bytes(text@) is None,
        },
{
    match text.parse::<RgbContractId>() {
        Ok(id) => Ok(id.to_byte_array()),
        Err(error) => Err(error.to_string()),
    }
}

/// Channel info in plain values: contract ID, schema number, local and remote amount, batch
/// transfer index, whether the counterparty knows the asset.
pub type InfoFields = (String, u32, u64, u64, Option<i32>, bool);

/// What contracts say of [`InfoFields`].
pub type InfoFieldsView = (Seq<char>, u32, u64, u64, Option<i32>, bool);

/// The view of channel info in plain values.
pub open spec fn info_fields_view(f: InfoFields) -> InfoFieldsView {
    (f.0@, f.1, f.2, f.3, f.4, f.5)
}

/// The bincode encoding of channel info.
pub uninterp spec fn info_encoding(
    contract_id: Seq<char>,
    schema: u32,
    local: u64,
    remote: u64,
    batch_transfer_idx: Option<i32>,
    known: bool,
) -> Seq<u8>;

/// The channel info that bincode decodes from some bytes, if they decode.
pub uninterp spec fn info_decoding(bytes: Seq<u8>) -> Option<InfoFieldsView>;

/// `bincode::serialize` on channel info. It succeeds on every value of this type, and the bytes
/// decode as the same value.
#[verifier::external_body]
pub(crate) fn encode_info_fields(
    contract_id: &str,
    schema: u32,
    local: u64,
    remote: u64,
    batch_transfer_idx: Option<i32>,
    known: bool,
) -> (r: Vec<u8>)
    ensures
        r@ == info_encoding(contract_id@, schema, local, remote, batch_transfer_idx, known),
        info_decoding(r@) == Some((contract_id@, schema, local, remote, batch_transfer_idx, known)),
{
    bincode::serialize(&(contract_id, schema, local, remote, batch_transfer_idx, known)).unwrap()
}

/// `bincode::deserialize` to channel info. The error carries the words of the decoder.
#[verifier::external_body]
pub(crate) fn decode_info_fields(bytes: &[u8]) -> (r: Result<InfoFields, String>)
    ensures
        match r {
            Ok(fields) => info_decoding(bytes@) == Some(info_fields_view(fields)),
            Err(_) => info_decoding(bytes@) is None,
        },
{
    match bincode::deserialize::<InfoFields>(bytes) {
        Ok(fields) => Ok(fields),
        Err(error) => Err(error.to_string()),
    }
}

/// Payment info in plain values: contract ID, payment amount, local and remote amount, whether the
/// route amount is overridden, whether the payment is inbound.
pub type PaymentFields = (String, u64, u64, u64, bool, bool);

/// What contracts say of [`PaymentFields`].
pub type PaymentFieldsView = (Seq<char>, u64, u64, u64, bool, bool);

/// The view of payment info in plain values.
pub open spec fn payment_fields_view(f: PaymentFields) -> PaymentFieldsView {
    (f.0@, f.1, f.2, f.3, f.4, f.5)
}

/// The bincode encoding of payment info.
pub uninterp spec fn payment_encoding(
    contract_id: Seq<char>,
    amount: u64,
    local: u64,
    remote: u64,
    swap_payment: bool,
    inbound: bool,
) -> Seq<u8>;

/// The payment info that bincode decodes from some bytes, if they decode.
pub uninterp spec fn payment_decoding(bytes: Seq<u8>) -> Option<PaymentFieldsView>;

/// `bincode::serialize` on payment info. It succeeds on every value of this type, and the bytes
/// decode as the same value.
#[verifier::external_body]
pub(crate) fn encode_payment_fields(
    contract_id: &str,
    amount: u64,
    local: u64,
    remote: u64,
    swap_payment: bool,
    inbound: bool,
) -> (r: Vec<u8>)
    ensures
        r@ == payment_encoding(contract_id@, amount, local, remote, swap_payment, inbound),
        payment_decoding(r@) == Some((contract_id@, amount, local, remote, swap_payment, inbound)),
{
    bincode::serialize(&(contract_id, amount, local, remote, swap_payment, inbound)).unwrap()
}

/// `bincode::deserialize` to payment info. The error carries the words of the decoder.
#[verifier::external_body]
pub(crate) fn decode_payment_fields(bytes: &[u8]) -> (r: Result<PaymentFields, String>)
    ensures
        match r {
            Ok(fields) => payment_decoding(bytes@) == Some(payment_fields_view(fields)),
            Err(_) => payment_decoding(bytes@) is None,
        },
{
    match bincode::deserialize::<PaymentFields>(bytes) {
        Ok(fields) => Ok(fields),
        Err(error) => Err(error.to_string()),
    }
}

/// The transfer info (contract ID, amount by output) that bincode decodes from some bytes, if they
/// decode.
pub uninterp spec fn transfer_decoding(bytes: Seq<u8>) -> Option<(Seq<char>, Map<u32, u64>)>;

/// `bincode::serialize` on transfer info. It succeeds on every value of this type, and the bytes
/// decode as the same value. Which bytes they are depends on the order in which the map is walked.
#[verifier::external_body]
pub(crate) fn encode_transfer_fields(contract_id: &str, output_map: &HashMap<u32, u64>) -> (r: Vec<
    u8,
>)
    ensures
        transfer_decoding(r@) == Some((contract_id@, output_map@)),
{
    bincode::serialize(&(contract_id, output_map)).unwrap()
}

/// `bincode::deserialize` to transfer info. The error carries the words of the decoder.
#[verifier::external_body]
pub(crate) fn decode_transfer_fields(bytes: &[u8]) -> (r: Result<
    (String, HashMap<u32, u64>),
    String,
>)
    ensures
        match r {
            Ok(fields) => transfer_decoding(bytes@) == Some((fields.0@, fields.1@)),
            Err(_) => transfer_decoding(bytes@) is None,
        },
{
    match bincode::deserialize::<(String, HashMap<u32, u64>)>(bytes) {
        Ok(fields) => Ok(fields),
        Err(error) => Err(error.to_string()),
    }
}

/// A funding record in plain values: version, temporary channel ID, counterparty, funding
/// transaction ID and output, pushed amount, stage number, consignment, channel info.
pub type RecordFields = (
    u8,
    String,
    String,
    String,
    u16,
    Option<u64>,
    u32,
    Option<Vec<u8>>,
    Option<InfoFields>,
);

/// What contracts say of [`RecordFields`].
pub type RecordFieldsView = (
    u8,
    Seq<char>,
    Seq<char>,
    Seq<char>,
    u16,
    Option<u64>,
    u32,
    Option<Seq<u8>>,
    Option<InfoFieldsView>,
);

/// The view of bytes that may be missing.
pub open spec fn optional_bytes_view(bytes: Option<Vec<u8>>) -> Option<Seq<u8>> {
    match bytes {
        Some(bytes) => Some(bytes@),
        None => None,
    }
}

/// The view of channel info that may be missing.
pub open spec fn optional_info_view(info: Option<InfoFields>) -> Option<InfoFieldsView> {
    match info {
        Some(info) => Some(info_fields_view(info)),
        None => None,
    }
}

/// The view of a funding record in plain values.
pub open spec fn record_fields_view(f: RecordFields) -> RecordFieldsView {
    (f.0, f.1@, f.2@, f.3@, f.4, f.5, f.6, optional_bytes_view(f.7), optional_info_view(f.8))
}

/// The bincode encoding of a funding record.
pub uninterp spec fn record_encoding(record: RecordFieldsView) -> Seq<u8>;

/// The funding record that bincode decodes from some bytes, if they decode.
pub uninterp spec fn record_decoding(bytes: Seq<u8>) -> Option<RecordFieldsView>;

/// `bincode::serialize` on a funding record. It succeeds on every value of this type, and the bytes
/// decode as the same value.
#[verifier::external_body]
pub(crate) fn encode_record_fields(record: &RecordFields) -> (r: Vec<u8>)
    ensures
        r@ == record_encoding(record_fields_view(*record)),
        record_decoding(r@) == Some(record_fields_view(*record)),
{
    bincode::serialize(record).unwrap()
}

/// `bincode::deserialize` to a funding record. The error carries the words of the decoder.
#[verifier::external_body]
pub(crate) fn decode_record_fields(bytes: &[u8]) -> (r: Result<RecordFields, String>)
    ensures
        match r {
            Ok(fields) => record_decoding(bytes@) == Some(record_fields_view(fields)),
            Err(_) => record_decoding(bytes@) is None,
        },
{
    match bincode::deserialize::<RecordFields>(bytes) {
        Ok(fields) => Ok(fields),
        Err(error) => Err(error.to_string()),
    }
}

/// `rgbstd::containers::Fascia`, the part of a transfer that a wallet stores for its own
/// transaction.
#[verifier::external_type_specification]
#[verifier::external_body]
pub struct ExFascia(Fascia);

/// The longest fascia that is encoded or decoded: no limit.
const ANY_LENGTH: usize = usize::MAX;

/// The strict encoding of a fascia, if it has one: none of its parts is longer than the encoding
/// allows.
pub uninterp spec fn fascia_encoding(fascia: Fascia) -> Option<Seq<u8>>;

/// The fascia that some bytes are the strict encoding of, to the last byte, if they are one.
pub uninterp spec fn fascia_decoding(bytes: Seq<u8>) -> Option<Fascia>;

/// `Fascia::to_strict_serialized` of the strict encoding, of any length. The bytes decode as the
/// same fascia: each part of a fascia is written and read in the same way. The error carries the
/// words of the encoder.
#[verifier::external_body]
pub(crate) fn encode_fascia(fascia: &Fascia) -> (r: Result<Vec<u8>, String>)
    ensures
        match r {
            Ok(bytes) => fascia_encoding(*fascia) == Some(bytes@) && fascia_decoding(bytes@)
                == Some(*fascia),
            Err(_) => fascia_encoding(*fascia) is None,
        },
{
    match fascia.to_strict_serialized::<ANY_LENGTH>() {
        Ok(confined) => Ok(confined.release()),
        Err(error) => Err(error.to_string()),
    }
}

/// `Fascia::from_strict_serialized` of the strict encoding, on bytes of any length. The error
/// carries the words of the decoder.
#[verifier::external_body]
pub(crate) fn decode_fascia(bytes: Vec<u8>) -> (r: Result<Fascia, String>)
    ensures
        match r {
            Ok(fascia) => fascia_decoding(bytes@) == Some(fascia),
            Err(_) => fascia_decoding(bytes@) is None,
        },
{
    let confined = match Confined::<Vec<u8>, 0, ANY_LENGTH>::try_from(bytes) {
        Ok(confined) => confined,
        Err(error) => return Err(error.to_string()),
    };
    match Fascia::from_strict_serialized::<ANY_LENGTH>(confined) {
        Ok(fascia) => Ok(fascia),
        Err(error) => Err(error.to_string()),
    }
}

/// `String::from_utf8`: the text whose UTF-8 encoding is the given bytes. The error carries the
/// words of the decoder.
#[verifier::external_body]
pub(crate) fn utf8_text(bytes: Vec<u8>) -> (r: Result<String, String>)
    ensures
        match r {
            Ok(text) => valid_utf8(bytes@) && encode_utf8(text@) == bytes@,
            Err(_) => !valid_utf8(bytes@),
        },
{
    match String::from_utf8(bytes) {
        Ok(text) => Ok(text),
        Err(error) => Err(error.to_string()),
    }
}

} // verus!
