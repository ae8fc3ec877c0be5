//! Transport adapter and session bookkeeping for threshold Schnorr (FROST)
//! key generation and signing between parties that exchange messages over
//! queues.
//!
//! The library holds the rules of the transport and of the session results:
//! how a protocol message is put into an envelope, numbered and addressed
//! ([`envelope`], [`sink`]), how an envelope becomes a message for the
//! protocol engine ([`stream`]), how the engine's key and signature encodings
//! are reduced to the 32-byte forms of BIP-340 ([`encoding`]), and what a run
//! comes to, whatever happened in it ([`keygen`], [`signing`], [`bench`]).
//!
//! The protocol engine itself and the waiting on queues are a caller's: the
//! library takes what they gave as plain values.

pub mod bench;
pub mod clock;
pub mod encoding;
pub mod envelope;
pub mod keygen;
pub mod signing;
pub mod sink;
pub mod stream;
pub mod text;
