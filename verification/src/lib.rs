//! TLS support for migration streams.
//!
//! A migration channel is a TLS session of `rustls` between two endpoints, each
//! with a directory of credentials. [`TlsStream::new_client`] sets up the client
//! side: it authenticates the server against `ca-cert.pem` and the expected
//! hostname, and if there are `client-cert.pem` and `client-key.pem`, it can
//! present them for mutual TLS (mTLS) authentication. [`TlsServerConfig`] is made
//! from `server-cert.pem` and `server-key.pem`, and trusts client certificates
//! issued by the CA in `ca-cert.pem` when there is that file.
//! [`TlsStream::new_server`] uses that configuration to set up the server side.
//!
//! This library makes the decisions. Its callers read the files and hand over
//! what they hold, perform the I/O of the handshake as [`handshake`] tells them,
//! and move data through the session; [`volatile`] stages what moves between the
//! session and guest memory.

pub mod auth;
pub mod client;
pub mod client_session;
pub mod error;
pub mod handshake;
pub mod pem;
pub mod roots;
pub mod server;
pub mod server_session;
pub mod stream;
pub mod volatile;

pub use error::{MigratableError, TlsError};
pub use server::TlsServerConfig;
pub use stream::TlsStream;
