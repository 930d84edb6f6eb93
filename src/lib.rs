//! Typed codec for the JSON-RPC messages of kakoune's JSON user interface.
//!
//! Incoming messages (editor to frontend) are decoded from a generic JSON
//! value tree into [`IncomingRequest`]: a structural decode into the wire
//! shape, where every failure is found, then a relabeling of positional
//! params into named fields. Outgoing messages (frontend to editor) are
//! encoded from [`OutgoingRequest`] into such a tree, in the envelope that
//! carries the protocol version.

pub mod decode;
pub mod envelope;
pub mod error;
pub mod face;
pub mod incoming;
pub mod json;
pub mod outgoing;

pub use envelope::JsonRpc;
pub use error::ErrorKind;
pub use face::{KakAtom, KakAttribute, KakColor, KakCoord, KakFace, KakLine};
pub use incoming::{IncomingRequest, RawIncomingRequest};
pub use json::JsonValue;
pub use outgoing::{OutgoingRequest, RawOutgoingRequest};
