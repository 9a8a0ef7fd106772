//! Channel-based remote procedure calls.
//!
//! A service is a trait; its clients and its server talk through a transport.
//!
//! - [`transport`], [`block_on`] and [`error`] say what a transport and an
//!   executor have to offer and how failures reach a caller.
//! - [`stream`] carries calls over byte streams: framing, reply routing, the
//!   steps of a call, and streams with calls in both directions. [`io`] holds
//!   the byte streams themselves.
//! - [`transport_tokio`], [`transport_smol`], [`transport_embassy`] and
//!   [`transport_postcard`] hold what the transports of those names decide.
//! - [`codegen`] turns a service trait into the code of its clients and of its
//!   server.
//! - [`services`] are services in use.
//!
//! Whatever waits is written as a poll that takes the state of an operation
//! and says what is to be done next.

pub mod block_on;
pub mod channel;
pub mod codegen;
pub mod error;
pub mod io;
pub mod services;
pub mod stream;
pub mod text;
pub mod transport;
pub mod transport_embassy;
pub mod transport_local;
pub mod transport_postcard;
pub mod transport_smol;
pub mod transport_tokio;
pub mod wake;

pub use block_on::BlockOn;
pub use error::{CallError, TransportResult};
pub use transport::{ClientTransport, ServerTransport};
