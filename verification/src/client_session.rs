//! The client side of a TLS session of rustls, together with what it is set up
//! with.
//!
//! A configuration and a session of rustls are opaque. Each is kept in one value
//! with a record of what it was built from, and only the functions in this module
//! that make the one write the other.

use std::sync::Arc;

use rustls::pki_types::{CertificateDer, InvalidDnsNameError, PrivateKeyDer, ServerName};
use rustls::{ClientConfig, ClientConnection, RootCertStore};
use vstd::prelude::*;

use crate::pem::{KeyFormat, PrivateKey};
use crate::roots::Anchor;

verus! {

/// A client configuration of rustls.
#[verifier::external_type_specification]
#[verifier::external_body]
pub struct ExClientConfig(ClientConfig);

/// The client side of a TLS session of rustls.
#[verifier::external_type_specification]
#[verifier::external_body]
pub struct ExClientConnection(ClientConnection);

/// The name of a server as rustls parses it.
#[verifier::external_type_specification]
#[verifier::external_body]
pub struct ExServerName<'a>(ServerName<'a>);

/// What rustls parses a text as: the name of a server, which is a DNS name or an
/// IP address, or the error that it reports if the text is neither.
pub uninterp spec fn parsed_server_name(text: Seq<char>) -> Result<
    ServerName<'static>,
    InvalidDnsNameError,
>;

/// What a client presents to authenticate itself.
pub struct Credentials {
    /// The certificate chain.
    pub chain: Seq<Seq<u8>>,
    /// The private key of that chain.
    pub key: (KeyFormat, Seq<u8>),
}

/// What a client is set up with.
pub struct ClientSetup {
    /// The trust anchors that the server certificate must chain to.
    pub anchors: Seq<Anchor>,
    /// What the client presents, or `None` if it does not authenticate itself.
    pub credentials: Option<Credentials>,
    /// The name that the server certificate must be valid for.
    pub server_name: ServerName<'static>,
}

/// A client configuration of rustls together with what it was built from.
pub struct BuiltClientConfig {
    config: Arc<ClientConfig>,
    anchors: Ghost<Seq<Anchor>>,
    credentials: Ghost<Option<Credentials>>,
}

impl BuiltClientConfig {
    /// The trust anchors that the certificate of a server must chain to.
    pub closed spec fn anchors(&self) -> Seq<Anchor> {
        self.anchors@
    }

    /// What a client with this configuration presents, or `None` if it does not
    /// authenticate itself.
    pub closed spec fn credentials(&self) -> Option<Credentials> {
        self.credentials@
    }
}

/// The client side of a session together with what it is set up with.
pub struct ClientSession {
    connection: ClientConnection,
    setup: Ghost<ClientSetup>,
}

impl ClientSession {
    /// What the session was set up with.
    pub closed spec fn setup(&self) -> ClientSetup {
        self.setup@
    }

    /// The session of rustls.
    pub closed spec fn rustls(&self) -> ClientConnection {
        self.connection
    }

    /// The session of rustls, to drive it. Nothing is said of the setup from then
    /// on: the caller may put another session in its place.
    pub fn connection(&mut self) -> (connection: &mut ClientConnection)
        ensures
            *connection == old(self).rustls(),
            final(self).rustls() == *final(connection),
    {
        &mut self.connection
    }
}

/// Builds the configuration of a client that does not authenticate itself.
///
/// Trusted: calls `ClientConfig::builder`, `with_root_certificates` and
/// `with_no_client_auth`, and notes with the configuration the trust anchors that
/// it was built from. rustls takes its cryptography from the provider of the
/// process, which is that of `ring` unless the process installed another, and
/// panics if it cannot use that one.
#[verifier::external_body]
pub(crate) fn build_without_client_auth(roots: RootCertStore) -> (built: BuiltClientConfig)
    ensures
        built.anchors() == crate::roots::trust_anchors(roots),
        built.credentials() is None,
{
    let anchors = Ghost(crate::roots::trust_anchors(roots));
    let config = ClientConfig::builder().with_root_certificates(roots).with_no_client_auth();
    BuiltClientConfig { config: Arc::new(config), anchors, credentials: Ghost(None) }
}

/// Builds the configuration of a client that authenticates itself with `chain`
/// and `key`.
///
/// Trusted: calls `ClientConfig::builder`, `with_root_certificates` and
/// `with_client_auth_cert`, and notes with the configuration the trust anchors
/// and the credentials that it was built from. Whether rustls accepts the
/// credentials is left unsaid: that rests with the cryptography provider of the
/// process. rustls panics if it cannot use that one.
#[verifier::external_body]
pub(crate) fn build_with_client_auth(
    roots: RootCertStore,
    chain: Vec<Vec<u8>>,
    key: PrivateKey,
) -> (result: Result<BuiltClientConfig, rustls::Error>)
    ensures
        result matches Ok(built) ==> {
            &&& built.anchors() == crate::roots::trust_anchors(roots)
            &&& built.credentials() == Some(
                Credentials { chain: crate::pem::contents(chain@), key: key@ },
            )
        },
{
    let anchors = Ghost(crate::roots::trust_anchors(roots));
    let credentials = Ghost(Some(Credentials { chain: crate::pem::contents(chain@), key: key@ }));
    let chain = chain.into_iter().map(CertificateDer::from).collect();
    let key = match key.format {
        KeyFormat::Pkcs1 => PrivateKeyDer::Pkcs1(key.der.into()),
        KeyFormat::Sec1 => PrivateKeyDer::Sec1(key.der.into()),
        KeyFormat::Pkcs8 => PrivateKeyDer::Pkcs8(key.der.into()),
    };
    let config = ClientConfig::builder().with_root_certificates(roots)
        .with_client_auth_cert(chain, key)?;
    Ok(BuiltClientConfig { config: Arc::new(config), anchors, credentials })
}

/// Parses the name of a server.
///
/// Trusted: calls `ServerName::try_from`, whose result is a function of the text
/// alone.
#[verifier::external_body]
pub(crate) fn parse_server_name(hostname: String) -> (result: Result<
    ServerName<'static>,
    InvalidDnsNameError,
>)
    ensures
        result == parsed_server_name(hostname@),
{
    ServerName::try_from(hostname)
}

/// Starts the client side of a TLS session.
///
/// Trusted: calls `ClientConnection::new`, and notes with the session what its
/// configuration was built from and the name of the server. Whether rustls starts
/// the session is left unsaid: it draws on randomness and on the cryptography
/// provider of the process.
#[verifier::external_body]
pub(crate) fn start_client_session(
    built: BuiltClientConfig,
    server_name: ServerName<'static>,
) -> (result: Result<ClientSession, rustls::Error>)
    ensures
        result matches Ok(session) ==> session.setup() == (ClientSetup {
            anchors: built.anchors(),
            credentials: built.credentials(),
            server_name,
        }),
{
    let ghost (anchors, credentials) = (built.anchors@, built.credentials@);
    let setup = Ghost(ClientSetup { anchors, credentials, server_name });
    Ok(ClientSession { connection: ClientConnection::new(built.config, server_name)?, setup })
}

} // verus!
