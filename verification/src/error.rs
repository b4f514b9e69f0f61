//! The ways in which talking to the experiment server can fail.

use reqwest::Error as TransportError;
use vstd::prelude::*;
use vstd::std_specs::convert::FromSpecImpl;

verus! {

/// `reqwest::Error`, the error of a request that could not be completed.
/// The library hands it on from the transport to the caller and reads
/// nothing in it.
#[verifier::external_type_specification]
#[verifier::external_body]
pub struct ExTransportError(TransportError);

/// Why a retrieval or a control command failed.
#[derive(Debug)]
pub enum Error {
    /// The server answered, but its reply lacks the envelope that holds the
    /// channels' data.
    BadResponse,
    /// The request could not be completed; the transport's own error says why.
    ReqwestError(TransportError),
}

impl From<TransportError> for Error {
    fn from(error: TransportError) -> (converted: Self) {
        Error::ReqwestError(error)
    }
}

impl FromSpecImpl<TransportError> for Error {
    open spec fn obeys_from_spec() -> bool {
        true
    }

    open spec fn from_spec(error: TransportError) -> Self {
        Error::ReqwestError(error)
    }
}

} // verus!
