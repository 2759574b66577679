//! Errors reported by the library.
use vstd::prelude::*;

verus! {

/// An error message returned by the exchange.
#[derive(Clone, Debug, PartialEq, Eq)]
pub enum ApiError {
    /// The account does not have enough staked HYPE for the action.
    InsufficientStakedHype { message: String },
    /// Any other error message.
    Other { message: String },
}

/// The errors of this library.
#[derive(Clone, Debug, PartialEq, Eq)]
pub enum Error {
    /// A value cannot be encoded as the requested ABI type.
    AbiEncode { rust_type: String, abi_type: String },
    /// A value could not be serialized.
    SerializationFailure(String),
    /// A JSON document could not be read.
    JsonParse(String),
    /// Signing failed.
    SignatureFailure(String),
    /// The exchange answered with an error.
    Api(ApiError),
    /// The system clock reads before the Unix epoch, so no nonce can be taken from it.
    ClockBeforeEpoch,
}

/// The error a builder reports from `build` when a required field was never set.
#[derive(Clone, Debug, PartialEq, Eq)]
pub enum BuilderError {
    UninitializedField(String),
}

/// The plain-value view of an [`ApiError`].
pub enum ApiErrorV {
    InsufficientStakedHype(Seq<char>),
    Other(Seq<char>),
}

/// The plain-value view of an [`Error`].
pub enum ErrorV {
    AbiEncode(Seq<char>, Seq<char>),
    SerializationFailure(Seq<char>),
    JsonParse(Seq<char>),
    SignatureFailure(Seq<char>),
    Api(ApiErrorV),
    ClockBeforeEpoch,
}

impl ApiError {
    pub open spec fn view(&self) -> ApiErrorV {
        match self {
            ApiError::InsufficientStakedHype { message } => ApiErrorV::InsufficientStakedHype(
                message@,
            ),
            ApiError::Other { message } => ApiErrorV::Other(message@),
        }
    }
}

impl Error {
    pub open spec fn view(&self) -> ErrorV {
        match self {
            Error::AbiEncode { rust_type, abi_type } => ErrorV::AbiEncode(rust_type@, abi_type@),
            Error::SerializationFailure(m) => ErrorV::SerializationFailure(m@),
            Error::JsonParse(m) => ErrorV::JsonParse(m@),
            Error::SignatureFailure(m) => ErrorV::SignatureFailure(m@),
            Error::Api(e) => ErrorV::Api(e@),
            Error::ClockBeforeEpoch => ErrorV::ClockBeforeEpoch,
        }
    }
}

} // verus!
