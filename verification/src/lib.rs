//! Client-side engine for a line-oriented, text-based request/response
//! protocol used to drive a speech-synthesis dispatch daemon over a byte
//! stream.
//!
//! The crate is organised bottom-up:
//!
//! - [`text`] holds small verified string utilities (splitting, comparison,
//!   line-terminator stripping) that the codec is built on;
//! - [`types`] holds the protocol's data model: requests, responses, status
//!   lines, events, scopes, and the closed error taxonomy;
//! - [`protocol`] is the pure codec: dot-escaping of text bodies, command
//!   encoding, and response decoding (status blocks, data bodies, in-band
//!   events);
//! - [`client`] is the synchronous client over an abstract [`client::Source`]
//!   transport, together with an in-memory transport for tests;
//! - [`nonblocking`] is the wrapper that queues requests and performs one
//!   unit of work per call, for use with an external readiness loop.

pub mod client;
pub mod nonblocking;
pub mod protocol;
pub mod text;
pub mod types;
