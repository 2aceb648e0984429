//! The transport-facing request descriptor and the transport capability.
//!
//! The protocol client never performs I/O itself: it builds an
//! `AlienTarget` describing one outbound call and hands it to an injected
//! `AlienProvider`, whose implementations live outside this crate.

use vstd::prelude::*;
use crate::chain::Chain;

verus! {

/// The HTTP-like method of a request descriptor.
#[derive(Clone, Copy, Debug, PartialEq, Eq, Structural)]
pub enum AlienHttpMethod {
    Get,
    Post,
}

/// A transport-level failure: either the request could not be built or
/// sent, or the response was unusable.
#[derive(Debug)]
pub enum AlienError {
    RequestError { msg: String },
    ResponseError { msg: String },
}

/// The message carried by an `AlienError`, whichever side it came from.
pub open spec fn alien_error_msg(e: AlienError) -> Seq<char> {
    match e {
        AlienError::RequestError { msg } => msg@,
        AlienError::ResponseError { msg } => msg@,
    }
}

impl AlienError {
    /// The human-readable message of this error.
    pub fn message(&self) -> (r: &String)
        ensures
            r@ == alien_error_msg(*self),
    {
        match self {
            AlienError::RequestError { msg } => msg,
            AlienError::ResponseError { msg } => msg,
        }
    }
}

/// An immutable description of one outbound call: URL, method, headers,
/// body bytes, and an optional cache time-to-live hint for the transport.
#[derive(Debug)]
pub struct AlienTarget {
    pub url: String,
    pub method: AlienHttpMethod,
    pub headers: Option<Vec<(String, String)>>,
    pub body: Option<Vec<u8>>,
    pub cache_ttl: Option<u64>,
}

impl AlienTarget {
    /// A copy of this descriptor carrying `ttl` as its cache hint.
    pub fn set_cache_ttl(self, ttl: u64) -> (r: Self)
        ensures
            r == (AlienTarget { cache_ttl: Some(ttl), ..self }),
    {
        AlienTarget { cache_ttl: Some(ttl), ..self }
    }
}

/// The injected transport capability. Implementations resolve per-chain
/// endpoints and perform the actual network exchange; nothing is promised
/// of their outcomes, so every caller in this crate states what holds
/// whatever they return.
pub trait AlienProvider {
    /// The configured node URL for `chain`, or an error when the chain has
    /// no endpoint.
    fn get_endpoint(&self, chain: Chain) -> Result<String, AlienError>;

    /// Executes one request and returns the raw response bytes.
    fn request(&self, target: AlienTarget) -> Result<Vec<u8>, AlienError>;

    /// Executes a group of requests and returns one response buffer per
    /// request.
    fn batch_request(&self, targets: Vec<AlienTarget>) -> Result<Vec<Vec<u8>>, AlienError>;
}

} // verus!
