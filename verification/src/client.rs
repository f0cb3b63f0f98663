//! What a client is set up from.

use rustls::pki_types::pem;
use rustls::RootCertStore;
use vstd::prelude::*;

use crate::auth::{client_auth_config, ClientAuthConfig};
use crate::client_session::{
    build_with_client_auth, build_without_client_auth, BuiltClientConfig, Credentials,
};
use crate::error::{MigratableError, TlsError};
use crate::pem::{load_cert_chain, load_private_key, FileContents, PrivateKey};
use crate::roots::{load_root_store, Anchor};

verus! {

/// The files that a client is set up from.
pub struct ClientFiles {
    /// The CA certificates.
    pub ca_cert: FileContents,
    /// The certificate chain, if there is such a file.
    pub cert: Option<FileContents>,
    /// The private key, if there is such a file.
    pub key: Option<FileContents>,
}

impl ClientFiles {
    /// Whether the client authenticates itself too, for mutual TLS.
    pub fn mtls(&self) -> (mtls: bool)
        ensures
            mtls == (self.cert is Some && self.key is Some),
    {
        self.cert.is_some() && self.key.is_some()
    }
}

/// What becomes of the files of a client.
pub enum ClientPlan {
    /// One of the files does not load, for this reason.
    NotLoaded(pem::Error),
    /// Of the certificate chain and the private key, one is missing.
    Incomplete,
    /// They set the client up with these trust anchors and credentials.
    Ready(Seq<Anchor>, Option<Credentials>),
}

/// What becomes of the files of a client. The CA certificates are loaded first.
/// If there is both a certificate chain and a private key, they are loaded next,
/// in this order.
pub open spec fn client_plan(files: ClientFiles) -> ClientPlan {
    match (crate::roots::anchors_in(files.ca_cert), files.cert, files.key) {
        (Err(error), _, _) => ClientPlan::NotLoaded(error),
        (Ok(anchors), None, None) => ClientPlan::Ready(anchors, None),
        (Ok(anchors), Some(cert), Some(key)) => match (
            crate::pem::certificates_in(cert),
            crate::pem::private_key_in(key),
        ) {
            (Err(error), _) => ClientPlan::NotLoaded(error),
            (Ok(_), Err(error)) => ClientPlan::NotLoaded(error),
            (Ok(chain), Ok(key)) => ClientPlan::Ready(anchors, Some(Credentials { chain, key })),
        },
        _ => ClientPlan::Incomplete,
    }
}

/// Files of which this becomes, in the directory `cert_dir`, are refused with
/// `error`.
pub open spec fn refused(plan: ClientPlan, cert_dir: Seq<u8>, error: MigratableError) -> bool {
    match plan {
        ClientPlan::NotLoaded(reason) => error == crate::error::pem_failure(reason),
        ClientPlan::Incomplete => error matches MigratableError::Tls(
            TlsError::IncompleteClientAuthConfig { cert_path, key_path },
        ) && cert_path@ == crate::auth::client_cert_path(cert_dir) && key_path@
            == crate::auth::client_key_path(cert_dir),
        ClientPlan::Ready(_, _) => false,
    }
}

/// `built` is what rustls may make of these trust anchors and credentials: a
/// configuration with exactly these or, if there are credentials, an error.
pub open spec fn built_from(
    built: Result<BuiltClientConfig, rustls::Error>,
    anchors: Seq<Anchor>,
    credentials: Option<Credentials>,
) -> bool {
    match built {
        Ok(config) => config.anchors() == anchors && config.credentials() == credentials,
        Err(_) => credentials is Some,
    }
}

/// `answer` is what rustls answered when it was asked for the configuration of a
/// client that trusts `roots` and presents `chain` and `key`.
pub closed spec fn rustls_answered(
    roots: RootCertStore,
    chain: Vec<Vec<u8>>,
    key: PrivateKey,
    answer: Result<BuiltClientConfig, rustls::Error>,
) -> bool {
    call_ensures(build_with_client_auth, (roots, chain, key), answer)
}

/// `config` is what rustls made when it was asked for the configuration of a client
/// that trusts `roots` and does not authenticate itself.
pub closed spec fn rustls_made(roots: RootCertStore, config: BuiltClientConfig) -> bool {
    call_ensures(build_without_client_auth, (roots,), config)
}

/// The configuration of a client with these files in the directory `cert_dir`.
///
/// The outer result is decided by the files, the inner one is what rustls makes of
/// what they hold.
pub fn client_config(cert_dir: &[u8], files: ClientFiles) -> (result: Result<
    Result<BuiltClientConfig, rustls::Error>,
    MigratableError,
>)
    ensures
        match (client_plan(files), result) {
            (ClientPlan::Ready(anchors, credentials), Ok(built)) => built_from(
                built,
                anchors,
                credentials,
            ),
            (plan, Err(error)) => refused(plan, cert_dir@, error),
            (_, Ok(_)) => false,
        },
        match result {
            Ok(built) => exists|roots: RootCertStore| #[trigger]
                call_ensures(load_root_store, (files.ca_cert,), Ok(roots)) && match (
                    files.cert,
                    files.key,
                ) {
                    (None, None) => built matches Ok(config) && rustls_made(roots, config),
                    (Some(cert), Some(key_file)) => exists|chain: Vec<Vec<u8>>, key: PrivateKey|
                        #[trigger]
                        call_ensures(load_cert_chain, (cert,), Ok(chain)) && #[trigger]
                        call_ensures(load_private_key, (key_file,), Ok(key)) && rustls_answered(
                            roots,
                            chain,
                            key,
                            built,
                        ),
                    _ => false,
                },
            Err(error) => {
                ||| call_ensures(load_root_store, (files.ca_cert,), Err(error))
                ||| call_ensures(
                    client_auth_config,
                    (cert_dir, files.cert is Some, files.key is Some),
                    Err(error),
                )
                ||| files.cert matches Some(cert) && call_ensures(
                    load_cert_chain,
                    (cert,),
                    Err(error),
                )
                ||| files.key matches Some(key) && call_ensures(
                    load_private_key,
                    (key,),
                    Err(error),
                )
            },
        },
{
    let root_store = load_root_store(files.ca_cert)?;
    let auth = client_auth_config(cert_dir, files.cert.is_some(), files.key.is_some())?;
    match auth {
        ClientAuthConfig::MutualTls { .. } => {
            let client_certs = load_cert_chain(files.cert.unwrap())?;
            let client_key = load_private_key(files.key.unwrap())?;
            Ok(build_with_client_auth(root_store, client_certs, client_key))
        },
        ClientAuthConfig::NormalTls => Ok(Ok(build_without_client_auth(root_store))),
    }
}

/// A client authenticates itself exactly if it has both a certificate chain and a
/// private key, and then with what these files hold. It always trusts the CA
/// certificates, and nothing else.
pub proof fn law_client_is_set_up_from_its_files(files: ClientFiles)
    ensures
        client_plan(files) matches ClientPlan::Ready(anchors, credentials) ==> {
            &&& crate::roots::anchors_in(files.ca_cert) == Ok::<_, pem::Error>(anchors)
            &&& credentials is Some <==> files.cert is Some && files.key is Some
            &&& credentials is None <==> files.cert is None && files.key is None
            &&& credentials matches Some(presented) ==> {
                &&& crate::pem::certificates_in(files.cert->0) == Ok::<_, pem::Error>(
                    presented.chain,
                )
                &&& crate::pem::private_key_in(files.key->0) == Ok::<_, pem::Error>(presented.key)
            }
        },
{
}

/// A certificate chain without a private key, or a private key without a
/// certificate chain, is never ignored: no client is set up from such files.
pub proof fn law_partial_credentials_are_refused(files: ClientFiles)
    requires
        files.cert is Some != files.key is Some,
    ensures
        !(client_plan(files) is Ready),
        crate::roots::anchors_in(files.ca_cert) is Ok ==> client_plan(files) is Incomplete,
{
}

/// What becomes of the files of a client is decided by the first fault among them: in
/// the CA certificates, then in having only one of a certificate chain and a private
/// key, then in the certificate chain, then in the private key. Without a fault the
/// client is ready, with what the files hold.
pub proof fn law_the_first_fault_decides(files: ClientFiles)
    ensures
        crate::roots::anchors_in(files.ca_cert) matches Err(error) ==> client_plan(files)
            == ClientPlan::NotLoaded(error),
        crate::roots::anchors_in(files.ca_cert) matches Ok(anchors) ==> {
            &&& files.cert is None && files.key is None ==> client_plan(files)
                == ClientPlan::Ready(anchors, None)
            &&& files.cert is Some != files.key is Some ==> client_plan(files)
                == ClientPlan::Incomplete
            &&& files.cert is Some && files.key is Some ==> {
                let chain = crate::pem::certificates_in(files.cert->0);
                let key = crate::pem::private_key_in(files.key->0);
                &&& chain is Err ==> client_plan(files) == ClientPlan::NotLoaded(chain->Err_0)
                &&& chain is Ok && key is Err ==> client_plan(files) == ClientPlan::NotLoaded(
                    key->Err_0,
                )
                &&& chain is Ok && key is Ok ==> client_plan(files) == ClientPlan::Ready(
                    anchors,
                    Some(Credentials { chain: chain->Ok_0, key: key->Ok_0 }),
                )
            }
        },
{
}

/// A client whose files load is told what rustls answers for exactly what they hold:
/// the trust anchors of the CA certificates, the whole certificate chain and the
/// private key in its own encoding. It is refused by rustls only if that is the
/// answer, and with that error; so credentials that rustls accepts always give a
/// configuration. A client without credentials is never refused by rustls.
pub proof fn law_a_client_is_told_what_rustls_answers(
    cert_dir: &[u8],
    files: ClientFiles,
    built: Result<BuiltClientConfig, rustls::Error>,
)
    requires
        call_ensures(client_config, (cert_dir, files), Ok(built)),
    ensures
        files.cert is Some <==> files.key is Some,
        files.cert is None ==> built is Ok,
        files.cert matches Some(cert) ==> files.key matches Some(key_file) ==> exists|
            roots: RootCertStore,
            chain: Vec<Vec<u8>>,
            key: PrivateKey,
        | #[trigger]
            rustls_answered(roots, chain, key, built) && {
                &&& crate::roots::anchors_in(files.ca_cert) == Ok::<_, pem::Error>(
                    crate::roots::trust_anchors(roots),
                )
                &&& crate::pem::certificates_in(cert) == Ok::<_, pem::Error>(
                    chain@.map_values(|der: Vec<u8>| der@),
                )
                &&& crate::pem::private_key_in(key_file) == Ok::<_, pem::Error>(
                    (key.format, key.der@),
                )
            },
        files.cert is None ==> exists|roots: RootCertStore| #[trigger]
            rustls_made(roots, built->Ok_0) && crate::roots::anchors_in(files.ca_cert) == Ok::<
                _,
                pem::Error,
            >(crate::roots::trust_anchors(roots)),
        built matches Ok(config) ==> {
            &&& crate::roots::anchors_in(files.ca_cert) == Ok::<_, pem::Error>(config.anchors())
            &&& config.credentials() is Some <==> files.cert is Some
            &&& config.credentials() matches Some(presented) ==> {
                &&& crate::pem::certificates_in(files.cert->0) == Ok::<_, pem::Error>(
                    presented.chain,
                )
                &&& crate::pem::private_key_in(files.key->0) == Ok::<_, pem::Error>(presented.key)
            }
        },
{
    law_the_first_fault_decides(files);
}

/// If rustls never refuses the trust anchors, the certificate chain and the private
/// key that the files of a client hold, the client gets its configuration.
pub proof fn law_credentials_that_rustls_accepts_are_never_refused(
    cert_dir: &[u8],
    files: ClientFiles,
    result: Result<Result<BuiltClientConfig, rustls::Error>, MigratableError>,
)
    requires
        call_ensures(client_config, (cert_dir, files), result),
        crate::roots::anchors_in(files.ca_cert) is Ok,
        files.cert matches Some(cert) && crate::pem::certificates_in(cert) is Ok,
        files.key matches Some(key_file) && crate::pem::private_key_in(key_file) is Ok,
        forall|
            roots: RootCertStore,
            chain: Vec<Vec<u8>>,
            key: PrivateKey,
            refusal: rustls::Error,
        |
            crate::roots::trust_anchors(roots) == crate::roots::anchors_in(files.ca_cert)->Ok_0
                && chain@.map_values(|der: Vec<u8>| der@) == crate::pem::certificates_in(
                files.cert->0,
            )->Ok_0 && (key.format, key.der@) == crate::pem::private_key_in(files.key->0)->Ok_0
                ==> !#[trigger] rustls_answered(roots, chain, key, Err(refusal)),
    ensures
        result matches Ok(built) && built is Ok,
{
    law_the_first_fault_decides(files);
    if let Ok(built) = result {
        law_a_client_is_told_what_rustls_answers(cert_dir, files, built);
        if let Err(refusal) = built {
            let (roots, chain, key) = choose|
                roots: RootCertStore,
                chain: Vec<Vec<u8>>,
                key: PrivateKey,
            | #[trigger]
                rustls_answered(roots, chain, key, built) && crate::roots::trust_anchors(roots)
                    == crate::roots::anchors_in(files.ca_cert)->Ok_0 && chain@.map_values(
                    |der: Vec<u8>| der@,
                ) == crate::pem::certificates_in(files.cert->0)->Ok_0 && (key.format, key.der@)
                    == crate::pem::private_key_in(files.key->0)->Ok_0;
            assert(rustls_answered(roots, chain, key, Err(refusal)));
        }
    }
}

/// A client is refused before rustls is asked only for a fault in its files: the first
/// of a CA file that does not load, credentials of which one is missing, a certificate
/// chain that does not load and a private key that does not load.
pub proof fn law_a_client_is_refused_for_its_first_fault(
    cert_dir: &[u8],
    files: ClientFiles,
    result: Result<Result<BuiltClientConfig, rustls::Error>, MigratableError>,
)
    requires
        call_ensures(client_config, (cert_dir, files), result),
    ensures
        ({
            let anchors = crate::roots::anchors_in(files.ca_cert);
            let one_is_missing = files.cert is Some != files.key is Some;
            let both = files.cert is Some && files.key is Some;
            let chain = crate::pem::certificates_in(files.cert->0);
            let key = crate::pem::private_key_in(files.key->0);
            &&& result is Err <==> anchors is Err || one_is_missing || both && (chain is Err || key
                is Err)
            &&& anchors is Err ==> result->Err_0 == MigratableError::Tls(
                TlsError::RustlsPemError(anchors->Err_0),
            )
            &&& anchors is Ok && one_is_missing ==> (
            result->Err_0 matches MigratableError::Tls(
                TlsError::IncompleteClientAuthConfig { cert_path, key_path },
            ) && cert_path@ == crate::auth::joined(
                cert_dir@,
                vstd::utf8::encode_utf8("client-cert.pem"@),
            ) && key_path@ == crate::auth::joined(
                cert_dir@,
                vstd::utf8::encode_utf8("client-key.pem"@),
            ))
            &&& anchors is Ok && both && chain is Err ==> result->Err_0 == MigratableError::Tls(
                TlsError::RustlsPemError(chain->Err_0),
            )
            &&& anchors is Ok && both && chain is Ok && key is Err ==> result->Err_0
                == MigratableError::Tls(TlsError::RustlsPemError(key->Err_0))
        }),
{
    law_the_first_fault_decides(files);
}

/// What rustls is taken to have answered is what it did answer.
pub(crate) proof fn law_answers_come_from_rustls(
    roots: RootCertStore,
    chain: Vec<Vec<u8>>,
    key: PrivateKey,
    answer: Result<BuiltClientConfig, rustls::Error>,
    config: BuiltClientConfig,
)
    ensures
        rustls_answered(roots, chain, key, answer) ==> call_ensures(
            build_with_client_auth,
            (roots, chain, key),
            answer,
        ),
        rustls_made(roots, config) ==> call_ensures(build_without_client_auth, (roots,), config),
{
}

} // verus!
