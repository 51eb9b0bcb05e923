//! Error types for chain and runtime API requests.

use vstd::prelude::*;
use vstd::string::StringExecFns;

verus! {

/// A description of an error causing the runtime API request to be
/// unservable.
#[derive(Clone, Debug)]
pub struct RuntimeApiError {
    msg: String,
}

impl RuntimeApiError {
    /// The human-readable description of the failure.
    pub fn message(&self) -> (s: &String)
        ensures
            s@ == self.spec_message(),
    {
        &self.msg
    }

    /// The description of the failure, as a spec value.
    pub closed spec fn spec_message(self) -> Seq<char> {
        self.msg@
    }
}

impl core::convert::From<String> for RuntimeApiError {
    fn from(s: String) -> (r: RuntimeApiError) {
        RuntimeApiError { msg: s }
    }
}

impl vstd::std_specs::convert::FromSpecImpl<String> for RuntimeApiError {
    open spec fn obeys_from_spec() -> bool {
        true
    }

    closed spec fn from_spec(s: String) -> RuntimeApiError {
        RuntimeApiError { msg: s }
    }
}

/// A description of an error causing the chain API request to be
/// unservable.
#[derive(Clone, Debug)]
pub struct ChainApiError {
    msg: String,
}

impl ChainApiError {
    /// The human-readable description of the failure.
    pub fn message(&self) -> (s: &String)
        ensures
            s@ == self.spec_message(),
    {
        &self.msg
    }

    /// The description of the failure, as a spec value.
    pub closed spec fn spec_message(self) -> Seq<char> {
        self.msg@
    }
}

impl core::convert::From<String> for ChainApiError {
    fn from(msg: String) -> (r: ChainApiError) {
        ChainApiError { msg }
    }
}

impl vstd::std_specs::convert::FromSpecImpl<String> for ChainApiError {
    open spec fn obeys_from_spec() -> bool {
        true
    }

    closed spec fn from_spec(msg: String) -> ChainApiError {
        ChainApiError { msg }
    }
}

impl<'a> core::convert::From<&'a str> for ChainApiError {
    fn from(s: &'a str) -> (r: ChainApiError) {
        ChainApiError { msg: String::from_str(s) }
    }
}

// A `String` value with a prescribed view cannot be named in spec code,
// so conversion from `&str` promises nothing; callers needing a contract
// convert through `String` instead.
impl<'a> vstd::std_specs::convert::FromSpecImpl<&'a str> for ChainApiError {
    open spec fn obeys_from_spec() -> bool {
        false
    }

    closed spec fn from_spec(s: &'a str) -> ChainApiError {
        vstd::pervasive::arbitrary()
    }
}

/// An error that may happen during the availability recovery process.
#[derive(Clone, Copy, PartialEq, Eq, Structural, Debug)]
pub enum RecoveryError {
    /// A chunk is recovered but is invalid.
    Invalid,
    /// A requested chunk is unavailable.
    Unavailable,
}

/// Custom validity errors used while validating transactions.
#[derive(Clone, Copy, PartialEq, Eq, Structural, Debug)]
pub enum ValidityError {
    /// The Ethereum signature is invalid.
    InvalidEthereumSignature,
    /// The signer has no claim.
    SignerHasNoClaim,
    /// No permission to execute the call.
    NoPermission,
    /// An invalid statement was made for a claim.
    InvalidStatement,
}

impl ValidityError {
    /// The numeric code each validity error is reported under.
    pub open spec fn spec_code(self) -> u8 {
        match self {
            ValidityError::InvalidEthereumSignature => 0,
            ValidityError::SignerHasNoClaim => 1,
            ValidityError::NoPermission => 2,
            ValidityError::InvalidStatement => 3,
        }
    }
}

impl core::convert::From<ValidityError> for u8 {
    fn from(err: ValidityError) -> (r: u8) {
        match err {
            ValidityError::InvalidEthereumSignature => 0,
            ValidityError::SignerHasNoClaim => 1,
            ValidityError::NoPermission => 2,
            ValidityError::InvalidStatement => 3,
        }
    }
}

impl vstd::std_specs::convert::FromSpecImpl<ValidityError> for u8 {
    open spec fn obeys_from_spec() -> bool {
        true
    }

    open spec fn from_spec(err: ValidityError) -> u8 {
        err.spec_code()
    }
}

impl RecoveryError {
    /// The human-readable description of the failure.
    pub fn message(&self) -> (s: String)
        ensures
            *self == RecoveryError::Invalid ==> s@ == "Invalid"@,
            *self == RecoveryError::Unavailable ==> s@ == "Unavailable"@,
    {
        match self {
            RecoveryError::Invalid => String::from_str("Invalid"),
            RecoveryError::Unavailable => String::from_str("Unavailable"),
        }
    }
}

} // verus!
