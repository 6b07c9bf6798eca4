//! How a call over the transport can fail.

use vstd::prelude::*;

verus! {

/// The ways in which a request to a remote service can fail before a
/// usable answer is at hand.
#[derive(Debug, Clone, Copy, PartialEq, Eq, Structural)]
pub enum CurlErr {
    /// The address could not be used as a URL.
    InvalidUrl,
    /// The body to send could not be handed to the transport.
    InvalidInputData,
    /// The transport could not take delivery of the answer.
    UnexpectedOutputData,
    /// The request could not be carried out.
    RequestFail,
    /// The answer arrived but is not of the expected form.
    IncompatibleResultData,
}

} // verus!
