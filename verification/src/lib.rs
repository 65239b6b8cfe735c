//! Core of a live duplex streaming session against a remote
//! speech-recognition endpoint.
//!
//! The library holds the verified logic of the session: the lifecycle of the
//! single session slot, the decisions of the two relay tasks (audio out,
//! transcripts in), the decoding of inbound transcript messages, and the
//! construction of the connect request. The asynchronous shell that runs the
//! relays lives outside the library and calls into it.

pub mod errors;
pub mod json;
pub mod inbound;
pub mod outbound;
pub mod request;
pub mod session;
pub mod transcript;
