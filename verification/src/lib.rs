//! Typed scalability-protocol sockets over a pluggable transport engine.
//!
//! The library holds every decision of the messaging layer: the error
//! taxonomy, message buffers, the socket-option codec, address decoding, the
//! protocol capability matrix and the request, reply and survey exchanges.
//! It performs no input or output itself. Each operation on a handle yields
//! a [`transport::Call`] for the engine to perform, and a second function
//! takes what the engine answered and decides what follows.

pub mod address;
pub mod buffer;
pub mod bytes;
pub mod error;
pub mod exchange;
pub mod message;
pub mod options;
pub mod pipe;
pub mod protocol;
pub mod protocols;
pub mod socket;
pub mod transport;
