//! An authenticated interceptor for a webhook-style HTTP endpoint.
//!
//! Every inbound request carries a hex-encoded Ed25519 signature header and a
//! timestamp header. The interceptor reconstructs the signed message
//! (timestamp followed by the raw body, no separator), verifies it against a
//! single configured public key, and decides: reject unauthenticated requests
//! with a fixed unauthorized response, answer a protocol handshake ("ping")
//! directly, or forward the untouched request to the next stage.

pub mod crypto;
pub mod envelope;
pub mod gate;
pub mod hex;
pub mod model;
