//! The protocol core of `cower`, a control channel between a client and the
//! target that starts and stops containers for it.
//!
//! - [`message`]: the frame header, the messages, and their wire form.
//! - [`session`]: what a session does with them: the frame that a message is
//!   sent as, and the receiver that takes a frame off a stream read by read.
//! - [`tls`]: the TLS contexts on which sessions are opened.
//! - [`engine`]: the container engines of a target, and how it picks one and
//!   reads its answers.
//! - [`error`]: the errors of a session.
//! - [`std_specs`], [`native_tls_specs`]: what is taken on trust about the
//!   standard library and about `native_tls`.
//!
//! The library touches no stream and runs no process. Connecting, reading and
//! writing belong to the program around it, which hands over what it read
//! and carries out what the library decides.

pub mod engine;
pub mod error;
pub mod message;
pub mod native_tls_specs;
pub mod session;
pub mod std_specs;
pub mod tls;

pub use error::Error;
pub use message::Message;
pub use session::{Client, Server};
pub use tls::Acceptor;
