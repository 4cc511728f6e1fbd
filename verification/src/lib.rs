//! Client core for a bidirectional, binary-framed text-to-speech streaming
//! protocol.
//!
//! The crate is organised around the protocol's components:
//! byte-level helpers ([`numbers`]), the frame codec ([`codec`]), the JSON
//! payload builder ([`json`]), the session state machine ([`machine`]), the
//! audio reassembler ([`reassembler`]), and the session driver
//! ([`driver`]), which ties them together and returns either finished audio
//! or a typed failure.  [`history`] keeps a bounded conversation history for
//! the surrounding dialogue system.
//!
//! All protocol logic is verified; network I/O lives outside the crate and
//! feeds the driver plain byte frames.

pub mod codec;
pub mod driver;
pub mod history;
pub mod json;
pub mod machine;
pub mod numbers;
pub mod reassembler;
