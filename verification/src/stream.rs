//! TLS streams: a TLS session with a peer and the buffer for transfers between
//! it and guest memory.

use rustls::pki_types::{pem, InvalidDnsNameError, ServerName};
use vstd::prelude::*;

use crate::client::{client_config, ClientFiles, ClientPlan};
use crate::client_session::{
    parse_server_name, start_client_session, BuiltClientConfig, ClientSession, ClientSetup,
};
use crate::error::{rustls_result, server_name_result, MigratableError, TlsError};
use crate::server::TlsServerConfig;
use crate::server_session::{ServerSession, ServerSetup};
use crate::volatile::VolatileBuffer;

verus! {

/// What one end of a TLS session is set up with.
pub enum Endpoint {
    Client(ClientSetup),
    Server(ServerSetup),
}

/// Wraps the concrete session for either side (server or client) of the TLS
/// connection.
pub enum TlsStreamParticipant {
    Client(ClientSession),
    Server(ServerSession),
}

impl TlsStreamParticipant {
    /// What this end of the session is set up with.
    pub open spec fn endpoint(&self) -> Endpoint {
        match *self {
            TlsStreamParticipant::Client(session) => Endpoint::Client(session.setup()),
            TlsStreamParticipant::Server(session) => Endpoint::Server(session.config().setup()),
        }
    }
}

/// Server/Client-agnostic TLS stream.
pub struct TlsStream {
    stream: TlsStreamParticipant,
    buf: VolatileBuffer,
}

impl TlsStream {
    /// The session itself.
    pub closed spec fn participant(&self) -> TlsStreamParticipant {
        self.stream
    }

    /// The buffer for transfers between the session and guest memory.
    pub closed spec fn buffer(&self) -> VolatileBuffer {
        self.buf
    }

    /// What this end of the session is set up with.
    pub open spec fn endpoint(&self) -> Endpoint {
        self.participant().endpoint()
    }

    /// Nothing has passed between the session and guest memory yet.
    pub open spec fn is_fresh(&self) -> bool {
        self.buffer().inv() && self.buffer()@ == Seq::<u8>::empty()
    }

    /// The stream is the server side of a session that uses the configuration that
    /// `config` carries.
    pub open spec fn serves(&self, config: &TlsServerConfig) -> bool {
        self.participant() matches TlsStreamParticipant::Server(session) && session.config()
            == config.built()
    }

    /// Creates a client [`TlsStream`], before its handshake.
    ///
    /// The client verifies the server certificate against the CA certificates
    /// and the provided `hostname`. If it has a certificate chain and a private
    /// key, it can also present them for mutual TLS authentication. Its
    /// credential directory is `cert_dir`.
    pub fn new_client(cert_dir: &[u8], files: ClientFiles, hostname: &str) -> (result: Result<
        Self,
        MigratableError,
    >)
        ensures
            match crate::client::client_plan(files) {
                ClientPlan::Ready(anchors, credentials) => exists|
                    built: Result<BuiltClientConfig, rustls::Error>,
                | #[trigger]
                    crate::client::built_from(built, anchors, credentials) && client_outcome(
                        built,
                        hostname@,
                        result,
                    ),
                plan => result matches Err(error) && crate::client::refused(
                    plan,
                    cert_dir@,
                    error,
                ),
            },
            (result matches Err(error) && call_ensures(
                client_config,
                (cert_dir, files),
                Err(error),
            )) || exists|built: Result<BuiltClientConfig, rustls::Error>| #[trigger]
                call_ensures(client_config, (cert_dir, files), Ok(built)) && call_ensures(
                    Self::connect,
                    (built, hostname),
                    result,
                ),
    {
        let built = client_config(cert_dir, files)?;
        Self::connect(built, hostname)
    }

    /// Creates a client [`TlsStream`], before its handshake, from what rustls made
    /// of its configuration. The client expects a server with the name `hostname`.
    pub fn connect(built: Result<BuiltClientConfig, rustls::Error>, hostname: &str) -> (result:
        Result<Self, MigratableError>)
        ensures
            client_outcome(built, hostname@, result),
            match (built, crate::client_session::parsed_server_name(hostname@)) {
                (Ok(config), Ok(server_name)) => exists|
                    answer: Result<ClientSession, rustls::Error>,
                | #[trigger]
                    rustls_started(config, server_name, answer) && match (answer, result) {
                        (Ok(session), Ok(stream)) => stream.participant()
                            == TlsStreamParticipant::Client(session),
                        (Err(refusal), Err(error)) => error == MigratableError::Tls(
                            TlsError::RustlsError(refusal),
                        ),
                        _ => false,
                    },
                _ => result is Err,
            },
    {
        proof {
            lemma_answers();
        }
        let config = rustls_result(built)?;
        let server_name = server_name_result(parse_server_name(hostname.to_owned()))?;
        let session = rustls_result(start_client_session(config, server_name))?;
        Ok(
            TlsStream {
                stream: TlsStreamParticipant::Client(session),
                buf: VolatileBuffer::new(),
            },
        )
    }

    /// Creates a server [`TlsStream`], before its handshake. It encrypts and
    /// decrypts data using the certificates and key from the provided
    /// [`TlsServerConfig`].
    pub fn new_server(config: &TlsServerConfig) -> (result: Result<Self, MigratableError>)
        ensures
            result matches Ok(stream) && stream.serves(config) && stream.is_fresh(),
    {
        let session = rustls_result(config.start_session())?;
        Ok(
            TlsStream {
                stream: TlsStreamParticipant::Server(session),
                buf: VolatileBuffer::new(),
            },
        )
    }

    /// The session and the buffer, to drive the session.
    pub fn parts(&mut self) -> (parts: (&mut TlsStreamParticipant, &mut VolatileBuffer))
        ensures
            *parts.0 == old(self).participant(),
            *parts.1 == old(self).buffer(),
            final(self).participant() == *final(parts.0),
            final(self).buffer() == *final(parts.1),
    {
        (&mut self.stream, &mut self.buf)
    }
}

/// `answer` is what rustls answered when it was asked to start a session with the
/// configuration `config` and a server with this name.
pub closed spec fn rustls_started(
    config: BuiltClientConfig,
    server_name: ServerName<'static>,
    answer: Result<ClientSession, rustls::Error>,
) -> bool {
    call_ensures(start_client_session, (config, server_name), answer)
}

/// `result` is what becomes of a client for which rustls made `built`, and which
/// expects a server with the name `hostname`.
///
/// An error of rustls is reported before a name that cannot be parsed. The session
/// of a client that is created trusts and presents what its configuration says.
pub open spec fn client_outcome(
    built: Result<BuiltClientConfig, rustls::Error>,
    hostname: Seq<char>,
    result: Result<TlsStream, MigratableError>,
) -> bool {
    match (built, crate::client_session::parsed_server_name(hostname), result) {
        (Err(refusal), _, _) => result == Err::<TlsStream, MigratableError>(
            MigratableError::Tls(TlsError::RustlsError(refusal)),
        ),
        (Ok(_), Err(unparsed), _) => result == Err::<TlsStream, MigratableError>(
            MigratableError::Tls(TlsError::InvalidDnsName(unparsed)),
        ),
        (Ok(config), Ok(server_name), Ok(stream)) => {
            &&& stream.endpoint() == Endpoint::Client(
                ClientSetup {
                    anchors: config.anchors(),
                    credentials: config.credentials(),
                    server_name,
                },
            )
            &&& stream.is_fresh()
        },
        (Ok(_), Ok(_), Err(error)) => error matches MigratableError::Tls(TlsError::RustlsError(_)),
    }
}

/// All streams that are created from a configuration or from a clone of it share
/// that one configuration: they present the same certificate chain and key, and
/// verify clients alike. Creating one leaves the configuration as it is.
pub proof fn law_streams_share_their_configuration(
    config: TlsServerConfig,
    clone: TlsServerConfig,
    first: TlsStream,
    second: TlsStream,
)
    requires
        call_ensures(TlsServerConfig::clone, (&config,), clone),
        first.serves(&config),
        second.serves(&clone),
    ensures
        clone.built() == config.built(),
        second.serves(&config),
        first.endpoint() == Endpoint::Server(config.setup()),
        second.endpoint() == first.endpoint(),
{
}

/// A client that is created checks the server against the trust anchors in its CA
/// certificates and against the name that it was given. It presents what its
/// certificate chain and its private key hold exactly if it has both.
pub proof fn law_client_checks_and_presents_what_its_files_hold(
    files: ClientFiles,
    hostname: Seq<char>,
    built: Result<BuiltClientConfig, rustls::Error>,
    stream: TlsStream,
)
    requires
        crate::client::client_plan(files) matches ClientPlan::Ready(anchors, credentials)
            && crate::client::built_from(built, anchors, credentials),
        client_outcome(built, hostname, Ok(stream)),
    ensures
        stream.endpoint() matches Endpoint::Client(setup) && {
            &&& crate::roots::anchors_in(files.ca_cert) == Ok::<_, pem::Error>(setup.anchors)
            &&& crate::client_session::parsed_server_name(hostname) == Ok::<
                _,
                InvalidDnsNameError,
            >(setup.server_name)
            &&& setup.credentials is Some <==> files.cert is Some && files.key is Some
            &&& setup.credentials matches Some(presented) ==> {
                &&& crate::pem::certificates_in(files.cert->0) == Ok::<_, pem::Error>(
                    presented.chain,
                )
                &&& crate::pem::private_key_in(files.key->0) == Ok::<_, pem::Error>(presented.key)
            }
        },
{
    crate::client::law_client_is_set_up_from_its_files(files);
}

/// A client is given the session that rustls starts with its configuration and with the
/// server name that it was given, or the error with which rustls refuses to. An error
/// of its configuration is passed on before anything else, and a name that cannot be
/// parsed before a session is started. There is no other error.
pub proof fn law_a_client_gets_the_session_that_rustls_starts(
    built: Result<BuiltClientConfig, rustls::Error>,
    hostname: &str,
    result: Result<TlsStream, MigratableError>,
)
    requires
        call_ensures(TlsStream::connect, (built, hostname), result),
    ensures
        ({
            let name = crate::client_session::parsed_server_name(hostname@);
            &&& built matches Err(refusal) ==> result == Err::<TlsStream, MigratableError>(
                MigratableError::Tls(TlsError::RustlsError(refusal)),
            )
            &&& built is Ok && name is Err ==> result == Err::<TlsStream, MigratableError>(
                MigratableError::Tls(TlsError::InvalidDnsName(name->Err_0)),
            )
            &&& built is Ok && name is Ok ==> exists|answer: Result<ClientSession, rustls::Error>|
                #[trigger]
                rustls_started(built->Ok_0, name->Ok_0, answer) && match (answer, result) {
                    (Ok(session), Ok(stream)) => stream.participant()
                        == TlsStreamParticipant::Client(session),
                    (Err(refusal), Err(error)) => error == MigratableError::Tls(
                        TlsError::RustlsError(refusal),
                    ),
                    _ => false,
                }
            &&& result matches Ok(stream) ==> {
                &&& built is Ok && name is Ok
                &&& stream.buffer()@.len() == 0
                &&& stream.participant() matches TlsStreamParticipant::Client(session) && {
                    &&& session.setup().anchors == built->Ok_0.anchors()
                    &&& session.setup().credentials == built->Ok_0.credentials()
                    &&& session.setup().server_name == name->Ok_0
                }
            }
        }),
{
}

/// A client is refused as its configuration is, and otherwise becomes what connecting
/// with that configuration makes of it. So every fault in its files is reported before
/// one in the name of the server.
pub proof fn law_a_client_is_configured_and_then_connected(
    cert_dir: &[u8],
    files: ClientFiles,
    hostname: &str,
    result: Result<TlsStream, MigratableError>,
)
    requires
        call_ensures(TlsStream::new_client, (cert_dir, files, hostname), result),
    ensures
        (result matches Err(error) && call_ensures(client_config, (cert_dir, files), Err(error)))
            || exists|built: Result<BuiltClientConfig, rustls::Error>| #[trigger]
            call_ensures(client_config, (cert_dir, files), Ok(built)) && call_ensures(
                TlsStream::connect,
                (built, hostname),
                result,
            ),
{
}

/// The session of a client that is created trusts exactly the trust anchors in its CA
/// certificates, expects exactly the name that it was given, and presents exactly the
/// chain and the key in its files, if it has both. A client whose files do not load, of
/// which one is missing, or whose server has no name, is never created.
pub proof fn law_a_client_is_what_its_files_and_its_server_say(
    cert_dir: &[u8],
    files: ClientFiles,
    hostname: &str,
    stream: TlsStream,
)
    requires
        call_ensures(TlsStream::new_client, (cert_dir, files, hostname), Ok(stream)),
    ensures
        stream.buffer()@.len() == 0,
        files.cert is Some <==> files.key is Some,
        stream.participant() matches TlsStreamParticipant::Client(session) && {
            let setup = session.setup();
            &&& crate::roots::anchors_in(files.ca_cert) == Ok::<_, pem::Error>(setup.anchors)
            &&& crate::client_session::parsed_server_name(hostname@) == Ok::<
                _,
                InvalidDnsNameError,
            >(setup.server_name)
            &&& setup.credentials is Some <==> files.cert is Some
            &&& setup.credentials matches Some(presented) ==> {
                &&& crate::pem::certificates_in(files.cert->0) == Ok::<_, pem::Error>(
                    presented.chain,
                )
                &&& crate::pem::private_key_in(files.key->0) == Ok::<_, pem::Error>(presented.key)
            }
        },
{
    let built = choose|built: Result<BuiltClientConfig, rustls::Error>| #[trigger]
        call_ensures(client_config, (cert_dir, files), Ok(built)) && call_ensures(
            TlsStream::connect,
            (built, hostname),
            Ok(stream),
        );
    crate::client::law_a_client_is_told_what_rustls_answers(cert_dir, files, built);
    law_a_client_gets_the_session_that_rustls_starts(built, hostname, Ok(stream));
}

/// A server is always given a session, and it uses the configuration that it is given,
/// with its chain, its key and its trust anchors for clients.
pub proof fn law_a_server_uses_its_configuration(
    config: &TlsServerConfig,
    result: Result<TlsStream, MigratableError>,
)
    requires
        call_ensures(TlsStream::new_server, (config,), result),
    ensures
        result matches Ok(stream) && stream.buffer()@.len() == 0 && (
        stream.participant() matches TlsStreamParticipant::Server(session) && session.config()
            == config.built()),
{
}

/// Whatever rustls answers is its answer.
proof fn lemma_answers()
    ensures
        forall|
            config: BuiltClientConfig,
            server_name: ServerName<'static>,
            answer: Result<ClientSession, rustls::Error>,
        | #[trigger]
            call_ensures(start_client_session, (config, server_name), answer) ==> rustls_started(
                config,
                server_name,
                answer,
            ),
{
}

/// What rustls is taken to have answered is what it did answer.
pub(crate) proof fn law_answers_come_from_rustls(
    config: BuiltClientConfig,
    server_name: ServerName<'static>,
    answer: Result<ClientSession, rustls::Error>,
)
    ensures
        rustls_started(config, server_name, answer) ==> call_ensures(
            start_client_session,
            (config, server_name),
            answer,
        ),
{
}

} // verus!
