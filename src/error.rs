//! Errors surfaced by the identity store and by the proof-service client.
use vstd::prelude::*;

verus! {

/// Why a response body could not be turned into a value.
#[derive(Debug)]
pub enum DecodeError {
    /// The accumulated bytes are not UTF-8.
    InvalidUtf8,
    /// The text is not JSON of the expected shape; holds the decoder's message.
    InvalidJson(String),
}

#[derive(Debug)]
pub enum KvError {
    /// A failure of the identity store, passed on as the store reported it.
    Storage(diesel::result::Error),
    /// The proof service could not be reached, or the transfer broke off.
    Network(String),
    /// The proof service answered with a status outside 200..=299.
    ServiceStatus { message: String, status: u16 },
    /// A response body could not be decoded.
    Decoding(DecodeError),
}

} // verus!
