use vstd::prelude::*;

verus! {

/// The kinds of failure one reconciliation cycle can surface.
///
/// `TransportError` covers any network-level failure reaching an external
/// endpoint, `ParseError` a malformed response body or an unexpected
/// envelope shape, `ProviderError` a well-formed provider envelope that
/// reports failure, and `NoPublicIPAvailable` the exhaustion of every
/// public-IP endpoint without a usable answer.
#[derive(Clone, Copy, Debug, PartialEq, Eq, Structural)]
pub enum CycleError {
    TransportError,
    ParseError,
    ProviderError,
    NoPublicIPAvailable,
}

/// Error value produced when no "what is my IP" endpoint gave a usable
/// answer.
#[derive(Debug)]
pub struct PublicIPError {
    pub msg: String,
}

impl PublicIPError {
    pub fn new(msg: &str) -> (r: PublicIPError)
        ensures
            r.msg@ == msg@,
    {
        PublicIPError { msg: msg.to_owned() }
    }

    /// The human-readable description of the failure.
    pub fn description(&self) -> (r: &str)
        ensures
            r@ == self.msg@,
    {
        self.msg.as_str()
    }
}

} // verus!
