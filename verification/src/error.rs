//! Errors of a TLS-encrypted migration channel.

use std::io;

use rustls::pki_types::pem;
use rustls::pki_types::InvalidDnsNameError;
use rustls::server::VerifierBuilderError;
use vstd::prelude::*;

verus! {

/// The error that rustls reports for PEM text that it cannot read.
#[verifier::external_type_specification]
#[verifier::external_body]
pub struct ExPemError(pem::Error);

/// The general error of rustls.
#[verifier::external_type_specification]
#[verifier::external_body]
pub struct ExRustlsError(rustls::Error);

/// The error that rustls reports for a hostname that it cannot parse.
#[verifier::external_type_specification]
#[verifier::external_body]
pub struct ExInvalidDnsNameError(InvalidDnsNameError);

/// The error that rustls reports for a client verifier that it cannot build.
#[verifier::external_type_specification]
#[verifier::external_body]
pub struct ExVerifierBuilderError(VerifierBuilderError);

/// The error of an operation on the socket.
#[verifier::external_type_specification]
#[verifier::external_body]
pub struct ExIoError(io::Error);

/// Errors that can occur when establishing a TLS-encrypted migration channel.
#[derive(Debug)]
pub enum TlsError {
    /// The provided hostname could not be parsed.
    InvalidDnsName(InvalidDnsNameError),
    /// Rustls protocol error.
    RustlsError(rustls::Error),
    /// Rustls verifier configuration error.
    RustlsVerifierBuilderError(VerifierBuilderError),
    /// Rustls protocol IO error.
    RustlsIoError(io::Error),
    /// TLS handshake stalled: no read/write progress while the handshake is
    /// still in progress.
    HandshakeError,
    /// Error handling a PEM file.
    RustlsPemError(pem::Error),
    /// Incomplete TLS client authentication configuration: both files are
    /// expected to exist, or neither. Paths are given by their bytes.
    IncompleteClientAuthConfig { cert_path: Vec<u8>, key_path: Vec<u8> },
}

/// Errors of the migration transport.
#[derive(Debug)]
pub enum MigratableError {
    /// The TLS channel could not be established.
    Tls(TlsError),
}

/// The error of the migration channel for PEM text that could not be loaded.
pub open spec fn pem_failure(error: pem::Error) -> MigratableError {
    MigratableError::Tls(TlsError::RustlsPemError(error))
}

/// A result of rustls, with its error as an error of the migration channel.
pub fn rustls_result<T>(outcome: Result<T, rustls::Error>) -> (result: Result<T, MigratableError>)
    ensures
        result == (match outcome {
            Ok(value) => Ok(value),
            Err(error) => Err(MigratableError::Tls(TlsError::RustlsError(error))),
        }),
{
    match outcome {
        Ok(value) => Ok(value),
        Err(error) => Err(MigratableError::Tls(TlsError::RustlsError(error))),
    }
}

/// A result of reading PEM text, with its error as an error of the migration
/// channel.
pub fn pem_result<T>(outcome: Result<T, pem::Error>) -> (result: Result<T, MigratableError>)
    ensures
        result == (match outcome {
            Ok(value) => Ok(value),
            Err(error) => Err(MigratableError::Tls(TlsError::RustlsPemError(error))),
        }),
{
    match outcome {
        Ok(value) => Ok(value),
        Err(error) => Err(MigratableError::Tls(TlsError::RustlsPemError(error))),
    }
}

/// A result of parsing a hostname, with its error as an error of the migration
/// channel.
pub fn server_name_result<T>(outcome: Result<T, InvalidDnsNameError>) -> (result: Result<
    T,
    MigratableError,
>)
    ensures
        result == (match outcome {
            Ok(value) => Ok(value),
            Err(error) => Err(MigratableError::Tls(TlsError::InvalidDnsName(error))),
        }),
{
    match outcome {
        Ok(value) => Ok(value),
        Err(error) => Err(MigratableError::Tls(TlsError::InvalidDnsName(error))),
    }
}

} // verus!
