//! Error taxonomy of the client.
//!
//! All four kinds bubble to the caller; nothing is swallowed inside this
//! layer.

use vstd::prelude::*;

verus! {

/// A failure surfaced by a request.
#[derive(Debug, PartialEq, Eq)]
pub enum RequestError {
    /// Transport-level failure: connection error, timeout, or a response
    /// whose body was absent or unparseable.
    Network,
    /// Remote-service-reported failure, propagated verbatim.  The two
    /// auxiliary fields are present only for specific codes (rate limiting
    /// and the group-to-supergroup migration signal).
    Api {
        code: i64,
        description: String,
        retry_after: Option<i64>,
        migrate_to_chat_id: Option<i64>,
    },
    /// The envelope parsed as success but the payload did not match the
    /// expected output shape: a client/server contract skew.
    Decode,
    /// A value does not fit the wire encoding's domain, for example a
    /// 64-bit color value that overflows 32 bits.
    ValueOutOfRange,
}

} // verus!
