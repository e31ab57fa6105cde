//! The provider client: settings, the two wires, event framing and
//! decoding, and the supervisor of a streamed exchange.

pub mod config;
pub mod decode;
pub mod decode_laws;
pub mod json;
pub mod sse;
pub mod sse_laws;
pub mod stream;
pub mod stream_laws;
pub mod wire;
