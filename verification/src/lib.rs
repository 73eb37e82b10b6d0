//! A message-oriented channel over a duplex byte-stream transport (a named
//! pipe), with length-prefixed framing, optional authenticated encryption,
//! and optional verification that the peer process runs the same executable
//! image as the caller.
//!
//! The transport itself (opening, accepting, reading and writing the pipe,
//! and resolving the peer process) is an external collaborator: callers
//! perform the I/O and hand the bytes to this crate, which does all framing,
//! sealing, unsealing and identity decisions and states what each step
//! returns.

pub mod channel;
pub mod client;
pub mod codec;
pub mod crypto;
pub mod error;
pub mod server;
pub mod utils;

pub use client::NamedPipeClientStruct;
pub use error::NamedPipeError;
pub use server::{NamedPipeConnection, NamedPipeServerStruct};
