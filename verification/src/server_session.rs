//! The server side of a TLS session of rustls, together with what it is set up
//! with.
//!
//! A configuration and a session of rustls are opaque. Each is kept in one value
//! with a record of what it was built from, and only the functions in this module
//! that make the one write the other.

use std::sync::Arc;

use rustls::pki_types::{CertificateDer, PrivateKeyDer};
use rustls::server::{VerifierBuilderError, WebPkiClientVerifier};
use rustls::{RootCertStore, ServerConfig, ServerConnection};
use vstd::prelude::*;

use crate::pem::{KeyFormat, PrivateKey};
use crate::roots::Anchor;

verus! {

/// A server configuration of rustls.
#[verifier::external_type_specification]
#[verifier::external_body]
pub struct ExServerConfig(ServerConfig);

/// The server side of a TLS session of rustls.
#[verifier::external_type_specification]
#[verifier::external_body]
pub struct ExServerConnection(ServerConnection);

/// What a server is set up with.
pub struct ServerSetup {
    /// The certificate chain that it presents.
    pub chain: Seq<Seq<u8>>,
    /// The private key of that chain.
    pub key: (KeyFormat, Seq<u8>),
    /// The trust anchors that a client certificate must chain to, or `None` if
    /// clients are not asked for one.
    pub client_anchors: Option<Seq<Anchor>>,
}

/// What these certificates, this private key and these trust anchors set a server
/// up with.
pub open spec fn setup_with(
    chain: Seq<Vec<u8>>,
    key: PrivateKey,
    client_anchors: Option<Seq<Anchor>>,
) -> ServerSetup {
    ServerSetup { chain: crate::pem::contents(chain), key: key@, client_anchors }
}

/// A server configuration of rustls together with what it was built from.
pub struct BuiltServerConfig {
    config: Arc<ServerConfig>,
    setup: Ghost<ServerSetup>,
}

impl BuiltServerConfig {
    /// What servers with this configuration are set up with.
    pub closed spec fn setup(&self) -> ServerSetup {
        self.setup@
    }
}

/// The server side of a session together with the configuration that it uses.
pub struct ServerSession {
    connection: ServerConnection,
    config: Ghost<BuiltServerConfig>,
}

impl ServerSession {
    /// The configuration that the session was started with.
    pub closed spec fn config(&self) -> BuiltServerConfig {
        self.config@
    }

    /// The session of rustls.
    pub closed spec fn rustls(&self) -> ServerConnection {
        self.connection
    }

    /// The session of rustls, to drive it. Nothing is said of its configuration
    /// from then on: the caller may put another session in its place.
    pub fn connection(&mut self) -> (connection: &mut ServerConnection)
        ensures
            *connection == old(self).rustls(),
            final(self).rustls() == *final(connection),
    {
        &mut self.connection
    }
}

/// Why rustls refused to build the configuration of a server that verifies its
/// clients.
#[derive(Debug)]
pub enum ServerConfigError {
    /// It could not build the verifier.
    Verifier(VerifierBuilderError),
    /// It could not build the configuration.
    Config(rustls::Error),
}

/// Builds the configuration of a server that does not ask clients for a
/// certificate.
///
/// Trusted: calls `ServerConfig::builder`, `with_no_client_auth` and
/// `with_single_cert`, and notes with the configuration the chain and the key
/// that it was built from. Whether rustls accepts them is left unsaid: that rests
/// with the cryptography provider of the process. rustls panics if it cannot use
/// that one.
#[verifier::external_body]
pub(crate) fn build_without_client_auth(chain: Vec<Vec<u8>>, key: PrivateKey) -> (result: Result<
    BuiltServerConfig,
    rustls::Error,
>)
    ensures
        result matches Ok(built) ==> built.setup() == setup_with(chain@, key, None),
{
    let setup = Ghost(setup_with(chain@, key, None));
    let chain = chain.into_iter().map(CertificateDer::from).collect();
    let key = match key.format {
        KeyFormat::Pkcs1 => PrivateKeyDer::Pkcs1(key.der.into()),
        KeyFormat::Sec1 => PrivateKeyDer::Sec1(key.der.into()),
        KeyFormat::Pkcs8 => PrivateKeyDer::Pkcs8(key.der.into()),
    };
    let config = ServerConfig::builder().with_no_client_auth().with_single_cert(chain, key)?;
    Ok(BuiltServerConfig { config: Arc::new(config), setup })
}

/// Builds the configuration of a server that requires of clients a certificate
/// that chains to one of `roots`.
///
/// Trusted: calls `WebPkiClientVerifier::builder` and `build`, which refuses a
/// root store without trust anchors and no other, then `ServerConfig::builder`,
/// `with_client_cert_verifier` and `with_single_cert`, and notes with the
/// configuration the chain, the key and the trust anchors that it was built
/// from. Whether rustls accepts the chain and the key is left unsaid: that rests
/// with the cryptography provider of the process. rustls panics if it cannot use
/// that one.
#[verifier::external_body]
pub(crate) fn build_with_client_auth(
    roots: RootCertStore,
    chain: Vec<Vec<u8>>,
    key: PrivateKey,
) -> (result: Result<BuiltServerConfig, ServerConfigError>)
    ensures
        result matches Err(ServerConfigError::Verifier(_)) <==> crate::roots::trust_anchors(
            roots,
        ).len() == 0,
        result matches Ok(built) ==> built.setup() == setup_with(
            chain@,
            key,
            Some(crate::roots::trust_anchors(roots)),
        ),
{
    let setup = Ghost(setup_with(chain@, key, Some(crate::roots::trust_anchors(roots))));
    let verifier = WebPkiClientVerifier::builder(Arc::new(roots)).build()
        .map_err(ServerConfigError::Verifier)?;
    let chain = chain.into_iter().map(CertificateDer::from).collect();
    let key = match key.format {
        KeyFormat::Pkcs1 => PrivateKeyDer::Pkcs1(key.der.into()),
        KeyFormat::Sec1 => PrivateKeyDer::Sec1(key.der.into()),
        KeyFormat::Pkcs8 => PrivateKeyDer::Pkcs8(key.der.into()),
    };
    let config = ServerConfig::builder().with_client_cert_verifier(verifier)
        .with_single_cert(chain, key).map_err(ServerConfigError::Config)?;
    Ok(BuiltServerConfig { config: Arc::new(config), setup })
}

/// Starts the server side of a TLS session.
///
/// Trusted: calls `ServerConnection::new` on the shared configuration, and notes
/// with the session which one that was. rustls refuses a configuration for its
/// maximum fragment size alone, and a [`BuiltServerConfig`] sets none.
#[verifier::external_body]
pub(crate) fn start_server_session(built: &BuiltServerConfig) -> (result: Result<
    ServerSession,
    rustls::Error,
>)
    ensures
        result is Ok,
        result matches Ok(session) ==> session.config() == *built,
{
    let config = Ghost(*built);
    Ok(ServerSession { connection: ServerConnection::new(built.config.clone())?, config })
}

} // verus!
