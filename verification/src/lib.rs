//! Supervision of a local ViperServer process and the client side of its
//! streaming HTTP protocol.
//!
//! The crate holds every decision that is taken between starting the server and
//! reading its answers, and none of the input and output that carries them out:
//!
//! - [`opts`]: the options of the server and of its two backends, and the
//!   argument vectors that stand for them;
//! - [`server`]: the command line that starts the server, the scan of its
//!   output for the address it listens on, and the latch that hands the address
//!   to whoever waits for it;
//! - [`client`]: what is sent to the server to have a file verified, and what
//!   is made of its answers;
//! - [`verification`]: the status messages, and the decoding of a line of the
//!   status stream into one;
//! - [`json`]: JSON values as `serde_json` holds them, and the tree that
//!   contracts read them as;
//! - [`text`]: operations on text that the others build on.

pub mod client;
pub mod error;
pub mod json;
pub mod opts;
pub mod server;
pub mod text;
pub mod verification;

pub use client::{Client, VerificationRequest, VerificationStatus};
pub use error::ViperServerError;
pub use server::ViperServer;
