//! The configuration of the server side of a migration channel.

use std::sync::Arc;

use rustls::pki_types::pem;
use rustls::RootCertStore;
use vstd::prelude::*;

use crate::error::{rustls_result, MigratableError, TlsError};
use crate::pem::{load_cert_chain, load_private_key, FileContents, PrivateKey};
use crate::roots::load_root_store;
use crate::server_session::{
    build_with_client_auth, build_without_client_auth, start_server_session, BuiltServerConfig,
    ServerConfigError, ServerSession, ServerSetup,
};

verus! {

/// What the files of a server set it up with, or why the first of them that does
/// not load does not. The certificate chain is loaded first, then the private
/// key, then the CA certificates.
pub open spec fn server_setup(
    cert: FileContents,
    key: FileContents,
    ca_cert: Option<FileContents>,
) -> Result<ServerSetup, pem::Error> {
    match (crate::pem::certificates_in(cert), crate::pem::private_key_in(key), ca_cert) {
        (Err(error), _, _) => Err(error),
        (Ok(_), Err(error), _) => Err(error),
        (Ok(chain), Ok(key), None) => Ok(ServerSetup { chain, key, client_anchors: None }),
        (Ok(chain), Ok(key), Some(file)) => match crate::roots::anchors_in(file) {
            Ok(anchors) => Ok(ServerSetup { chain, key, client_anchors: Some(anchors) }),
            Err(error) => Err(error),
        },
    }
}

/// A result of building a configuration that verifies clients, with its error as
/// an error of the migration channel.
pub fn server_config_result<T>(outcome: Result<T, ServerConfigError>) -> (result: Result<
    T,
    MigratableError,
>)
    ensures
        result == (match outcome {
            Ok(value) => Ok(value),
            Err(ServerConfigError::Verifier(error)) => Err(
                MigratableError::Tls(TlsError::RustlsVerifierBuilderError(error)),
            ),
            Err(ServerConfigError::Config(error)) => Err(
                MigratableError::Tls(TlsError::RustlsError(error)),
            ),
        }),
{
    match outcome {
        Ok(value) => Ok(value),
        Err(ServerConfigError::Verifier(error)) => Err(
            MigratableError::Tls(TlsError::RustlsVerifierBuilderError(error)),
        ),
        Err(ServerConfigError::Config(error)) => Err(
            MigratableError::Tls(TlsError::RustlsError(error)),
        ),
    }
}

/// `answer` is what rustls answered when it was asked for the configuration of a
/// server that presents `chain` and `key` and does not ask clients for a certificate.
pub closed spec fn rustls_answered(
    chain: Vec<Vec<u8>>,
    key: PrivateKey,
    answer: Result<BuiltServerConfig, rustls::Error>,
) -> bool {
    call_ensures(build_without_client_auth, (chain, key), answer)
}

/// `answer` is what rustls answered when it was asked for the configuration of a
/// server that presents `chain` and `key` and verifies clients against `roots`.
pub closed spec fn rustls_answered_for_clients(
    roots: RootCertStore,
    chain: Vec<Vec<u8>>,
    key: PrivateKey,
    answer: Result<BuiltServerConfig, ServerConfigError>,
) -> bool {
    call_ensures(build_with_client_auth, (roots, chain, key), answer)
}

/// `result` is `answer`, with the error of the answer, if it is one, as an error of
/// the migration channel.
pub open spec fn passed_on(
    answer: Result<BuiltServerConfig, rustls::Error>,
    result: Result<TlsServerConfig, MigratableError>,
) -> bool {
    match (answer, result) {
        (Ok(built), Ok(config)) => config.built() == built,
        (Err(refusal), Err(error)) => error == MigratableError::Tls(TlsError::RustlsError(refusal)),
        _ => false,
    }
}

/// `result` is `answer`, with the error of the answer, if it is one, as an error of
/// the migration channel.
pub open spec fn passed_on_for_clients(
    answer: Result<BuiltServerConfig, ServerConfigError>,
    result: Result<TlsServerConfig, MigratableError>,
) -> bool {
    match (answer, result) {
        (Ok(built), Ok(config)) => config.built() == built,
        (Err(ServerConfigError::Config(refusal)), Err(error)) => error == MigratableError::Tls(
            TlsError::RustlsError(refusal),
        ),
        (Err(ServerConfigError::Verifier(refusal)), Err(error)) => error == MigratableError::Tls(
            TlsError::RustlsVerifierBuilderError(refusal),
        ),
        _ => false,
    }
}

/// Carries a server-TLS-config.
pub struct TlsServerConfig {
    /// This config is shared between all server connections.
    built: Arc<BuiltServerConfig>,
    mtls: bool,
}

impl Clone for TlsServerConfig {
    fn clone(&self) -> (copy: Self)
        ensures
            copy == *self,
    {
        proof {
            use_type_invariant(self);
        }
        TlsServerConfig { built: self.built.clone(), mtls: self.mtls }
    }
}

impl TlsServerConfig {
    #[verifier::type_invariant]
    spec fn inv(self) -> bool {
        self.mtls == (self.built.setup().client_anchors is Some)
    }

    /// The configuration that servers share.
    pub closed spec fn built(&self) -> BuiltServerConfig {
        *self.built
    }

    /// What servers with this configuration are set up with.
    pub open spec fn setup(&self) -> ServerSetup {
        self.built().setup()
    }

    /// Creates a [`TlsServerConfig`] from the certificate chain in `cert` and the
    /// private key in `key`.
    ///
    /// If there is a `ca_cert`, client certificates presented during the TLS
    /// handshake must chain to that CA.
    pub fn new(cert: FileContents, key: FileContents, ca_cert: Option<FileContents>) -> (result:
        Result<Self, MigratableError>)
        ensures
            match server_setup(cert, key, ca_cert) {
                Err(error) => result == Err::<Self, MigratableError>(
                    crate::error::pem_failure(error),
                ),
                Ok(setup) => {
                    let no_anchors = setup.client_anchors matches Some(anchors) && anchors.len()
                        == 0;
                    match result {
                        Ok(config) => {
                            &&& !no_anchors
                            &&& config.setup() == setup
                        },
                        Err(MigratableError::Tls(TlsError::RustlsVerifierBuilderError(_))) =>
                            no_anchors,
                        Err(MigratableError::Tls(TlsError::RustlsError(_))) => !no_anchors,
                        Err(_) => false,
                    }
                },
            },
            server_setup(cert, key, ca_cert) is Ok ==> exists|
                chain: Vec<Vec<u8>>,
                server_key: PrivateKey,
            | #[trigger]
                call_ensures(load_cert_chain, (cert,), Ok(chain)) && #[trigger]
                call_ensures(load_private_key, (key,), Ok(server_key)) && match ca_cert {
                    None => exists|answer: Result<BuiltServerConfig, rustls::Error>| #[trigger]
                        rustls_answered(chain, server_key, answer) && passed_on(answer, result),
                    Some(file) => exists|
                        roots: RootCertStore,
                        answer: Result<BuiltServerConfig, ServerConfigError>,
                    | #[trigger]
                        rustls_answered_for_clients(roots, chain, server_key, answer)
                            && call_ensures(load_root_store, (file,), Ok(roots))
                            && passed_on_for_clients(answer, result),
                },
    {
        proof {
            lemma_answers();
        }
        let server_certs = load_cert_chain(cert)?;
        let server_key = load_private_key(key)?;
        match ca_cert {
            Some(file) => {
                let client_roots = load_root_store(file)?;
                let built = server_config_result(
                    build_with_client_auth(client_roots, server_certs, server_key),
                )?;
                Ok(TlsServerConfig { built: Arc::new(built), mtls: true })
            },
            None => {
                let built = rustls_result(build_without_client_auth(server_certs, server_key))?;
                Ok(TlsServerConfig { built: Arc::new(built), mtls: false })
            },
        }
    }

    /// Whether clients are required to authenticate themselves.
    pub fn mtls(&self) -> (mtls: bool)
        ensures
            mtls == (self.setup().client_anchors is Some),
    {
        proof {
            use_type_invariant(self);
        }
        self.mtls
    }

    /// Starts the server side of a TLS session.
    pub(crate) fn start_session(&self) -> (result: Result<ServerSession, rustls::Error>)
        ensures
            result is Ok,
            result matches Ok(session) ==> session.config() == self.built(),
    {
        start_server_session(&self.built)
    }
}

/// A server that is set up asks clients for a certificate exactly if there are CA
/// certificates, and then trusts what these hold. The CA certificates change
/// nothing of what it presents itself.
pub proof fn law_server_is_set_up_from_its_files(
    cert: FileContents,
    key: FileContents,
    ca_cert: Option<FileContents>,
)
    ensures
        server_setup(cert, key, ca_cert) matches Ok(setup) ==> {
            &&& crate::pem::certificates_in(cert) == Ok::<_, pem::Error>(setup.chain)
            &&& crate::pem::private_key_in(key) == Ok::<_, pem::Error>(setup.key)
            &&& setup.client_anchors is Some <==> ca_cert is Some
            &&& ca_cert matches Some(file) ==> crate::roots::anchors_in(file) == Ok::<
                _,
                pem::Error,
            >(setup.client_anchors->0)
            &&& server_setup(cert, key, None) == Ok::<_, pem::Error>(
                ServerSetup { client_anchors: None, ..setup },
            )
        },
{
}

/// What the files of a server set it up with is decided by the first fault among them:
/// in the certificate chain, then in the private key, then, if there are any, in the CA
/// certificates. Without a fault it is what the files hold.
pub proof fn law_the_first_fault_decides(
    cert: FileContents,
    key: FileContents,
    ca_cert: Option<FileContents>,
)
    ensures
        ({
            let chain = crate::pem::certificates_in(cert);
            let secret = crate::pem::private_key_in(key);
            let setup = server_setup(cert, key, ca_cert);
            &&& chain is Err ==> setup == Err::<ServerSetup, pem::Error>(chain->Err_0)
            &&& chain is Ok && secret is Err ==> setup == Err::<ServerSetup, pem::Error>(
                secret->Err_0,
            )
            &&& chain is Ok && secret is Ok && ca_cert is None ==> setup == Ok::<_, pem::Error>(
                ServerSetup { chain: chain->Ok_0, key: secret->Ok_0, client_anchors: None },
            )
            &&& ca_cert matches Some(file) ==> chain is Ok && secret is Ok ==> {
                let anchors = crate::roots::anchors_in(file);
                &&& anchors is Err ==> setup == Err::<ServerSetup, pem::Error>(anchors->Err_0)
                &&& anchors is Ok ==> setup == Ok::<_, pem::Error>(
                    ServerSetup {
                        chain: chain->Ok_0,
                        key: secret->Ok_0,
                        client_anchors: Some(anchors->Ok_0),
                    },
                )
            }
        }),
{
}

/// A server without CA certificates whose files load is told what rustls answers for
/// exactly what they hold, the whole certificate chain and the private key in its own
/// encoding. It is refused only if that is the answer, and with that error; so a chain
/// and a key that rustls accepts always give a configuration, the one that rustls made.
pub proof fn law_a_server_is_told_what_rustls_answers(
    cert: FileContents,
    key: FileContents,
    result: Result<TlsServerConfig, MigratableError>,
)
    requires
        call_ensures(TlsServerConfig::new, (cert, key, None), result),
        crate::pem::certificates_in(cert) is Ok,
        crate::pem::private_key_in(key) is Ok,
    ensures
        exists|
            chain: Vec<Vec<u8>>,
            server_key: PrivateKey,
            answer: Result<BuiltServerConfig, rustls::Error>,
        | #[trigger]
            rustls_answered(chain, server_key, answer) && {
                &&& crate::pem::certificates_in(cert) == Ok::<_, pem::Error>(
                    chain@.map_values(|der: Vec<u8>| der@),
                )
                &&& crate::pem::private_key_in(key) == Ok::<_, pem::Error>(
                    (server_key.format, server_key.der@),
                )
                &&& answer matches Ok(built) ==> (result matches Ok(config) && config.built()
                    == built)
                &&& answer matches Err(refusal) ==> result == Err::<
                    TlsServerConfig,
                    MigratableError,
                >(MigratableError::Tls(TlsError::RustlsError(refusal)))
            },
        result matches Ok(config) ==> {
            &&& crate::pem::certificates_in(cert) == Ok::<_, pem::Error>(config.setup().chain)
            &&& crate::pem::private_key_in(key) == Ok::<_, pem::Error>(config.setup().key)
            &&& config.setup().client_anchors is None
        },
{
    law_the_first_fault_decides(cert, key, None);
    let (chain, server_key) = choose|chain: Vec<Vec<u8>>, server_key: PrivateKey| #[trigger]
        call_ensures(load_cert_chain, (cert,), Ok(chain)) && #[trigger]
        call_ensures(load_private_key, (key,), Ok(server_key)) && exists|
            answer: Result<BuiltServerConfig, rustls::Error>,
        | #[trigger]
            rustls_answered(chain, server_key, answer) && passed_on(answer, result);
    let answer = choose|answer: Result<BuiltServerConfig, rustls::Error>| #[trigger]
        rustls_answered(chain, server_key, answer) && passed_on(answer, result);
    assert(rustls_answered(chain, server_key, answer));
}

/// A server with CA certificates whose files load is told what rustls answers for
/// exactly what they hold: the trust anchors of the CA certificates, the whole
/// certificate chain and the private key in its own encoding. It is refused only if
/// that is the answer, and with that error. It is refused for its verifier exactly if
/// there are no trust anchors.
pub proof fn law_a_server_with_clients_is_told_what_rustls_answers(
    cert: FileContents,
    key: FileContents,
    file: FileContents,
    result: Result<TlsServerConfig, MigratableError>,
)
    requires
        call_ensures(TlsServerConfig::new, (cert, key, Some(file)), result),
        crate::pem::certificates_in(cert) is Ok,
        crate::pem::private_key_in(key) is Ok,
        crate::roots::anchors_in(file) is Ok,
    ensures
        exists|
            roots: RootCertStore,
            chain: Vec<Vec<u8>>,
            server_key: PrivateKey,
            answer: Result<BuiltServerConfig, ServerConfigError>,
        | #[trigger]
            rustls_answered_for_clients(roots, chain, server_key, answer) && {
                &&& crate::roots::anchors_in(file) == Ok::<_, pem::Error>(
                    crate::roots::trust_anchors(roots),
                )
                &&& crate::pem::certificates_in(cert) == Ok::<_, pem::Error>(
                    chain@.map_values(|der: Vec<u8>| der@),
                )
                &&& crate::pem::private_key_in(key) == Ok::<_, pem::Error>(
                    (server_key.format, server_key.der@),
                )
                &&& answer matches Ok(built) ==> (result matches Ok(config) && config.built()
                    == built)
                &&& answer matches Err(ServerConfigError::Config(refusal)) ==> result == Err::<
                    TlsServerConfig,
                    MigratableError,
                >(MigratableError::Tls(TlsError::RustlsError(refusal)))
                &&& answer matches Err(ServerConfigError::Verifier(refusal)) ==> result == Err::<
                    TlsServerConfig,
                    MigratableError,
                >(MigratableError::Tls(TlsError::RustlsVerifierBuilderError(refusal)))
            },
        result matches Err(MigratableError::Tls(TlsError::RustlsVerifierBuilderError(_)))
            <==> crate::roots::anchors_in(file)->Ok_0.len() == 0,
        result matches Ok(config) ==> {
            &&& crate::pem::certificates_in(cert) == Ok::<_, pem::Error>(config.setup().chain)
            &&& crate::pem::private_key_in(key) == Ok::<_, pem::Error>(config.setup().key)
            &&& config.setup().client_anchors matches Some(anchors)
                && crate::roots::anchors_in(file) == Ok::<_, pem::Error>(anchors)
        },
{
    law_the_first_fault_decides(cert, key, Some(file));
    let (chain, server_key) = choose|chain: Vec<Vec<u8>>, server_key: PrivateKey| #[trigger]
        call_ensures(load_cert_chain, (cert,), Ok(chain)) && #[trigger]
        call_ensures(load_private_key, (key,), Ok(server_key)) && exists|
            roots: RootCertStore,
            answer: Result<BuiltServerConfig, ServerConfigError>,
        | #[trigger]
            rustls_answered_for_clients(roots, chain, server_key, answer) && call_ensures(
                load_root_store,
                (file,),
                Ok(roots),
            ) && passed_on_for_clients(answer, result);
    let (roots, answer) = choose|
        roots: RootCertStore,
        answer: Result<BuiltServerConfig, ServerConfigError>,
    | #[trigger]
        rustls_answered_for_clients(roots, chain, server_key, answer) && call_ensures(
            load_root_store,
            (file,),
            Ok(roots),
        ) && passed_on_for_clients(answer, result);
    assert(rustls_answered_for_clients(roots, chain, server_key, answer));
}

/// A server is refused before rustls is asked only for a fault in its files: the first
/// of a certificate chain, a private key and CA certificates that do not load.
pub proof fn law_a_server_is_refused_for_its_first_fault(
    cert: FileContents,
    key: FileContents,
    ca_cert: Option<FileContents>,
    result: Result<TlsServerConfig, MigratableError>,
)
    requires
        call_ensures(TlsServerConfig::new, (cert, key, ca_cert), result),
    ensures
        ({
            let chain = crate::pem::certificates_in(cert);
            let secret = crate::pem::private_key_in(key);
            &&& chain is Err ==> result == Err::<TlsServerConfig, MigratableError>(
                MigratableError::Tls(TlsError::RustlsPemError(chain->Err_0)),
            )
            &&& chain is Ok && secret is Err ==> result == Err::<TlsServerConfig, MigratableError>(
                MigratableError::Tls(TlsError::RustlsPemError(secret->Err_0)),
            )
            &&& ca_cert matches Some(file) ==> chain is Ok && secret is Ok && (
            crate::roots::anchors_in(file) is Err) ==> result == Err::<
                TlsServerConfig,
                MigratableError,
            >(
                MigratableError::Tls(
                    TlsError::RustlsPemError(crate::roots::anchors_in(file)->Err_0),
                ),
            )
            &&& result matches Err(MigratableError::Tls(TlsError::RustlsPemError(_))) ==> chain is Err
                || secret is Err || (ca_cert matches Some(file) && crate::roots::anchors_in(
                file,
            ) is Err)
        }),
{
    law_the_first_fault_decides(cert, key, ca_cert);
}

/// Whatever rustls answers is its answer.
proof fn lemma_answers()
    ensures
        forall|chain: Vec<Vec<u8>>, key: PrivateKey, answer: Result<BuiltServerConfig, rustls::Error>|
            #[trigger]
            call_ensures(build_without_client_auth, (chain, key), answer) ==> rustls_answered(
                chain,
                key,
                answer,
            ),
        forall|
            roots: RootCertStore,
            chain: Vec<Vec<u8>>,
            key: PrivateKey,
            answer: Result<BuiltServerConfig, ServerConfigError>,
        | #[trigger]
            call_ensures(build_with_client_auth, (roots, chain, key), answer)
                ==> rustls_answered_for_clients(roots, chain, key, answer),
{
}

/// What rustls is taken to have answered is what it did answer.
pub(crate) proof fn law_answers_come_from_rustls(
    roots: RootCertStore,
    chain: Vec<Vec<u8>>,
    key: PrivateKey,
    answer: Result<BuiltServerConfig, rustls::Error>,
    answer_for_clients: Result<BuiltServerConfig, ServerConfigError>,
)
    ensures
        rustls_answered(chain, key, answer) ==> call_ensures(
            build_without_client_auth,
            (chain, key),
            answer,
        ),
        rustls_answered_for_clients(roots, chain, key, answer_for_clients) ==> call_ensures(
            build_with_client_auth,
            (roots, chain, key),
            answer_for_clients,
        ),
{
}

} // verus!
