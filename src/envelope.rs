//! The envelope that carries every message with the protocol version.

use vstd::prelude::*;

verus! {

/// The protocol version that every message carries.
pub open spec fn protocol_version() -> Seq<char> {
    "2.0"@
}

/// A message with its protocol version marker.
#[derive(Debug, Clone)]
pub struct JsonRpc<T> {
    pub jsonrpc: String,
    pub inner: T,
}

impl<T> JsonRpc<T> {
    /// Wraps `inner` with the version marker `2.0`.
    pub fn new(inner: T) -> (r: JsonRpc<T>)
        ensures
            r.jsonrpc@ == protocol_version(),
            r.inner == inner,
    {
        JsonRpc { jsonrpc: "2.0".to_owned(), inner }
    }
}

} // verus!
