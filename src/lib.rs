//! Identity records keyed by platform and identity, and the client side of
//! a proof-verification service.
pub mod error;
pub mod external;
pub mod kv;

pub mod proof_client;
