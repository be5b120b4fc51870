//! The errors of the library: those of the store, and those that close a channel.

use vstd::prelude::*;
use crate::text::{decimal_text, join};
#[allow(unused_imports)]
use crate::text::decimal;

verus! {

/// What kind of failure a store operation met.
#[derive(Clone, Copy, Debug, PartialEq, Eq, Structural)]
pub enum ErrorKind {
    /// No entry is stored under the key.
    NotFound,
    PermissionDenied,
    ConnectionRefused,
    ConnectionReset,
    ConnectionAborted,
    NotConnected,
    AddrInUse,
    AddrNotAvailable,
    BrokenPipe,
    AlreadyExists,
    WouldBlock,
    InvalidInput,
    /// The stored data, or the data to store, is not what it must be.
    InvalidData,
    TimedOut,
    WriteZero,
    Interrupted,
    UnexpectedEof,
    /// Any other failure of the store.
    Other,
}

/// A failed store operation.
#[derive(Debug)]
pub enum Error {
    /// A failure described by the store or by this library.
    Stated { kind: ErrorKind, message: String },
    /// Stored bytes that do not decode; the words are those of the decoder.
    Undecodable { message: String },
}

/// What contracts say of an [`Error`]. The words of a decoder are left open.
pub struct ErrorView {
    pub kind: ErrorKind,
    pub message: Option<Seq<char>>,
}

impl View for Error {
    type V = ErrorView;

    open spec fn view(&self) -> ErrorView {
        match self {
            Error::Stated { kind, message } => ErrorView { kind: *kind, message: Some(message@) },
            Error::Undecodable { message } => undecodable(),
        }
    }
}

impl Error {
    /// The words of the error.
    pub open spec fn words(self) -> Seq<char> {
        match self {
            Error::Stated { kind, message } => message@,
            Error::Undecodable { message } => message@,
        }
    }

    /// The kind of failure.
    pub fn kind(&self) -> (r: ErrorKind)
        ensures
            r == self@.kind,
    {
        match self {
            Error::Stated { kind, message } => *kind,
            Error::Undecodable { message } => ErrorKind::InvalidData,
        }
    }

    /// The words of the error.
    pub fn message(&self) -> (r: &str)
        ensures
            r@ == self.words(),
    {
        match self {
            Error::Stated { kind, message } => message.as_str(),
            Error::Undecodable { message } => message.as_str(),
        }
    }
}

/// The error for stored bytes that do not decode.
pub open spec fn undecodable() -> ErrorView {
    ErrorView { kind: ErrorKind::InvalidData, message: None }
}

/// An invalid-data error with words of this library.
pub open spec fn invalid_data(message: Seq<char>) -> ErrorView {
    ErrorView { kind: ErrorKind::InvalidData, message: Some(message) }
}

/// An invalid-data error with the given words.
pub fn invalid_data_error(message: &str) -> (r: Error)
    ensures
        r@ == invalid_data(message@),
{
    Error::Stated { kind: ErrorKind::InvalidData, message: message.to_owned() }
}

/// The words for a number that stands for none of the variants of an enumeration.
pub open spec fn unknown_variant(number: u32, variants: u64) -> Seq<char> {
    "invalid value: integer `"@ + decimal(number as nat)
        + "`, expected variant index 0 <= i < "@ + decimal(variants as nat)
}

/// The error for stored bytes in which a number stands for none of the variants of an enumeration.
pub fn unknown_variant_error(number: u32, variants: u64) -> (r: Error)
    ensures
        r@ == undecodable(),
        r.words() == unknown_variant(number, variants),
{
    let number_text: String = decimal_text(number as u64);
    let variants_text: String = decimal_text(variants);
    let start: String = join("invalid value: integer `", number_text.as_str());
    let middle: String = join(start.as_str(), "`, expected variant index 0 <= i < ");
    Error::Undecodable { message: join(middle.as_str(), variants_text.as_str()) }
}

/// The view of a result that carries nothing on success.
pub open spec fn unit_view(r: Result<(), Error>) -> Result<(), ErrorView> {
    match r {
        Ok(_) => Ok(()),
        Err(e) => Err(e@),
    }
}

/// The view of a result that carries bytes on success.
pub open spec fn bytes_view(r: Result<Vec<u8>, Error>) -> Result<Seq<u8>, ErrorView> {
    match r {
        Ok(bytes) => Ok(bytes@),
        Err(e) => Err(e@),
    }
}

/// The view of a result that carries text on success.
pub open spec fn text_view(r: Result<String, Error>) -> Result<Seq<char>, ErrorView> {
    match r {
        Ok(text) => Ok(text@),
        Err(e) => Err(e@),
    }
}

/// A failure that closes the channel, with the reason given to the peer.
#[derive(Debug)]
pub enum ChannelError {
    Close(String),
}

/// What contracts say of a [`ChannelError`].
pub enum FailureView {
    /// The reason is exactly this text.
    Text(Seq<char>),
    /// The reason is this text, followed by words of an outside decoder.
    Prefixed(Seq<char>),
}

impl ChannelError {
    /// The reason given to the peer.
    pub open spec fn reason(self) -> Seq<char> {
        match self {
            ChannelError::Close(text) => text@,
        }
    }

    /// Whether the error says what `failure` describes.
    pub open spec fn reports(self, failure: FailureView) -> bool {
        match failure {
            FailureView::Text(text) => self.reason() == text,
            FailureView::Prefixed(prefix) => prefix.is_prefix_of(self.reason()),
        }
    }

    /// An error that closes the channel for the given reason.
    pub fn close(reason: String) -> (r: ChannelError)
        ensures
            r.reason() == reason@,
            r.reports(FailureView::Text(reason@)),
    {
        ChannelError::Close(reason)
    }

    /// The reason given to the peer.
    pub fn message(&self) -> (r: &str)
        ensures
            r@ == self.reason(),
    {
        match self {
            ChannelError::Close(text) => text.as_str(),
        }
    }
}

/// The failure for `error`, met while doing what `context` says.
pub open spec fn storage_failure(context: Seq<char>, error: ErrorView) -> FailureView {
    match error.message {
        Some(message) => FailureView::Text(context + ": "@ + message),
        None => FailureView::Prefixed(context + ": "@),
    }
}

/// The channel error for a store error met while doing what `context` says.
pub fn funding_storage_error(context: &str, error: &Error) -> (r: ChannelError)
    ensures
        r.reason() == context@ + ": "@ + error.words(),
        r.reports(storage_failure(context@, error@)),
{
    let prefix: String = join(context, ": ");
    let reason: String = join(prefix.as_str(), error.message());
    assert(prefix@.is_prefix_of(reason@)) by {
        assert(reason@.subrange(0, prefix@.len() as int) =~= prefix@);
    }
    ChannelError::close(reason)
}

/// An error of the RGB wallet, as far as a funding failure tells its cases apart.
#[derive(Debug)]
pub enum RgbError {
    InvalidConsignment,
    NoConsignment,
    UnknownRgbSchema { schema_id: String },
    UnsupportedSchema { asset_schema: String },
    Indexer { details: String },
    InvalidIndexer { details: String },
    Network { details: String },
    /// Any other error, with the wallet's own description of it.
    Other { description: String },
}

/// The reason for closing a channel whose funding met `error`.
pub open spec fn acceptance_reason(error: RgbError) -> Seq<char> {
    match error {
        RgbError::InvalidConsignment => "Invalid RGB consignment for funding"@,
        RgbError::NoConsignment => "Failed to find RGB consignment"@,
        RgbError::UnknownRgbSchema { schema_id } => "Unknown RGB schema: "@ + schema_id@,
        RgbError::UnsupportedSchema { asset_schema } => "Unsupported RGB schema: "@ + asset_schema@,
        RgbError::Indexer { details } => "Failed to connect to indexer: "@ + details@,
        RgbError::InvalidIndexer { details } => "Failed to connect to indexer: "@ + details@,
        RgbError::Network { details } => "Failed to connect to indexer: "@ + details@,
        RgbError::Other { description } => "Unexpected RGB funding error: "@ + description@,
    }
}

/// The channel error for a wallet error met while funding a channel.
pub fn funding_acceptance_error(error: &RgbError) -> (r: ChannelError)
    ensures
        r.reason() == acceptance_reason(*error),
        r.reports(FailureView::Text(acceptance_reason(*error))),
{
    match error {
        RgbError::InvalidConsignment => ChannelError::close(
            "Invalid RGB consignment for funding".to_owned(),
        ),
        RgbError::NoConsignment => ChannelError::close("Failed to find RGB consignment".to_owned()),
        RgbError::UnknownRgbSchema { schema_id } => ChannelError::close(
            join("Unknown RGB schema: ", schema_id.as_str()),
        ),
        RgbError::UnsupportedSchema { asset_schema } => ChannelError::close(
            join("Unsupported RGB schema: ", asset_schema.as_str()),
        ),
        RgbError::Indexer { details } => ChannelError::close(
            join("Failed to connect to indexer: ", details.as_str()),
        ),
        RgbError::InvalidIndexer { details } => ChannelError::close(
            join("Failed to connect to indexer: ", details.as_str()),
        ),
        RgbError::Network { details } => ChannelError::close(
            join("Failed to connect to indexer: ", details.as_str()),
        ),
        RgbError::Other { description } => ChannelError::close(
            join("Unexpected RGB funding error: ", description.as_str()),
        ),
    }
}

/// The view of a result tells success from failure, and shows the value and the error as they are.
pub proof fn results_show_what_they_carry(
    unit: Result<(), Error>,
    bytes: Result<Vec<u8>, Error>,
    text: Result<String, Error>,
)
    ensures
        unit is Ok <==> unit_view(unit) is Ok,
        unit matches Err(e) ==> unit_view(unit) == Err::<(), ErrorView>(e@),
        bytes matches Ok(value) ==> bytes_view(bytes) == Ok::<Seq<u8>, ErrorView>(value@),
        bytes matches Err(e) ==> bytes_view(bytes) == Err::<Seq<u8>, ErrorView>(e@),
        text matches Ok(value) ==> text_view(text) == Ok::<Seq<char>, ErrorView>(value@),
        text matches Err(e) ==> text_view(text) == Err::<Seq<char>, ErrorView>(e@),
{
}

/// An error shows its kind and its words. Bytes that do not decode are invalid data, in the words
/// of the decoder.
pub proof fn errors_show_their_kind(kind: ErrorKind, message: String)
    ensures
        (Error::Stated { kind, message })@.kind == kind,
        (Error::Stated { kind, message })@.message == Some(message@),
        (Error::Stated { kind, message }).words() == message@,
        (Error::Undecodable { message })@.kind == ErrorKind::InvalidData,
        (Error::Undecodable { message })@.message is None,
        (Error::Undecodable { message }).words() == message@,
        undecodable().kind == ErrorKind::InvalidData,
        undecodable().message is None,
        invalid_data(message@).kind == ErrorKind::InvalidData,
        invalid_data(message@).message == Some(message@),
{
}

/// A failure of the store that closes a channel is reported as what was being done, then a colon,
/// then the words of the failure, in full unless they are a decoder's.
pub proof fn storage_failure_says_what_was_done(
    context: Seq<char>,
    error: ErrorView,
    reported: ChannelError,
)
    requires
        reported.reports(storage_failure(context, error)),
    ensures
        error.message matches Some(words) ==> reported.reason() == context + ": "@ + words,
        error.message is None ==> (context + ": "@).is_prefix_of(reported.reason()),
        reported matches ChannelError::Close(text) && text@ == reported.reason(),
{
}

/// The reason for closing a channel tells the cases of the wallet's error apart, and carries its
/// details to the end. All failures to reach the indexer read alike.
pub proof fn acceptance_reason_names_the_case(text: String)
    ensures
        acceptance_reason(RgbError::InvalidConsignment) == "Invalid RGB consignment for funding"@,
        acceptance_reason(RgbError::NoConsignment) == "Failed to find RGB consignment"@,
        acceptance_reason(RgbError::UnknownRgbSchema { schema_id: text }) == "Unknown RGB schema: "@
            + text@,
        acceptance_reason(RgbError::UnsupportedSchema { asset_schema: text })
            == "Unsupported RGB schema: "@ + text@,
        acceptance_reason(RgbError::Indexer { details: text }) == "Failed to connect to indexer: "@
            + text@,
        acceptance_reason(RgbError::InvalidIndexer { details: text })
            == "Failed to connect to indexer: "@ + text@,
        acceptance_reason(RgbError::Network { details: text }) == "Failed to connect to indexer: "@
            + text@,
        acceptance_reason(RgbError::Other { description: text })
            == "Unexpected RGB funding error: "@ + text@,
{
}

/// A number that stands for no variant is named, and so is the number of variants.
pub proof fn unknown_variant_names_the_number(number: u32, variants: u64)
    ensures
        unknown_variant(number, variants) == "invalid value: integer `"@ + decimal(number as nat)
            + "`, expected variant index 0 <= i < "@ + decimal(variants as nat),
{
}

} // verus!
