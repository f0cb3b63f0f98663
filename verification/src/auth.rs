//! Where the credentials of a migration endpoint are kept, and how a client
//! authenticates itself.

use vstd::prelude::*;

use crate::error::{MigratableError, TlsError};

verus! {

/// The CA certificates that the peer's certificate must chain to.
pub const CA_CERT_FILE: &'static str = "ca-cert.pem";

/// The certificate chain that a client presents.
pub const CLIENT_CERT_FILE: &'static str = "client-cert.pem";

/// The private key of [`CLIENT_CERT_FILE`].
pub const CLIENT_KEY_FILE: &'static str = "client-key.pem";

/// The certificate chain that a server presents.
pub const SERVER_CERT_FILE: &'static str = "server-cert.pem";

/// The private key of [`SERVER_CERT_FILE`].
pub const SERVER_KEY_FILE: &'static str = "server-key.pem";

/// The byte that separates the components of a path.
pub const SEPARATOR: u8 = 0x2f;

/// The path of `name` as seen from the directory `dir`. An absolute `name`
/// stands for itself; otherwise it follows `dir`, with one separator in between
/// unless `dir` is empty or ends with one.
pub open spec fn joined(dir: Seq<u8>, name: Seq<u8>) -> Seq<u8> {
    if name.len() > 0 && name[0] == SEPARATOR {
        name
    } else if dir.len() > 0 && dir.last() != SEPARATOR {
        dir.push(SEPARATOR) + name
    } else {
        dir + name
    }
}

/// The path of the file `name` in the directory `dir`.
pub fn join_path(dir: &[u8], name: &str) -> (path: Vec<u8>)
    ensures
        path@ == joined(dir@, vstd::utf8::encode_utf8(name@)),
{
    let name = name.as_bytes();
    let mut path: Vec<u8> = Vec::new();
    if name.len() > 0 && name[0] == SEPARATOR {
        path.extend_from_slice(name);
        return path;
    }
    path.extend_from_slice(dir);
    if dir.len() > 0 && dir[dir.len() - 1] != SEPARATOR {
        path.push(SEPARATOR);
    }
    path.extend_from_slice(name);
    path
}

/// Where a client keeps its certificate chain.
pub open spec fn client_cert_path(cert_dir: Seq<u8>) -> Seq<u8> {
    joined(cert_dir, vstd::utf8::encode_utf8(CLIENT_CERT_FILE@))
}

/// Where a client keeps its private key.
pub open spec fn client_key_path(cert_dir: Seq<u8>) -> Seq<u8> {
    joined(cert_dir, vstd::utf8::encode_utf8(CLIENT_KEY_FILE@))
}

/// How a client authenticates itself.
#[derive(Debug, PartialEq, Eq)]
pub enum ClientAuthConfig {
    /// With the certificate chain and the private key in these files.
    MutualTls { cert_path: Vec<u8>, key_path: Vec<u8> },
    /// Not at all.
    NormalTls,
}

/// Decides how a client with the credential directory `cert_dir` authenticates
/// itself, where `cert_is_file` and `key_is_file` say whether its certificate
/// chain and its private key exist as files.
///
/// The client authenticates itself if it has both, and does not if it has
/// neither. With only one of them the configuration is incomplete.
pub fn client_auth_config(cert_dir: &[u8], cert_is_file: bool, key_is_file: bool) -> (result: Result<
    ClientAuthConfig,
    MigratableError,
>)
    ensures
        match result {
            Ok(ClientAuthConfig::MutualTls { cert_path, key_path }) => {
                &&& cert_is_file && key_is_file
                &&& cert_path@ == client_cert_path(cert_dir@)
                &&& key_path@ == client_key_path(cert_dir@)
            },
            Ok(ClientAuthConfig::NormalTls) => !cert_is_file && !key_is_file,
            Err(MigratableError::Tls(TlsError::IncompleteClientAuthConfig {
                cert_path,
                key_path,
            })) => {
                &&& cert_is_file != key_is_file
                &&& cert_path@ == client_cert_path(cert_dir@)
                &&& key_path@ == client_key_path(cert_dir@)
            },
            Err(_) => false,
        },
{
    let cert_path = join_path(cert_dir, CLIENT_CERT_FILE);
    let key_path = join_path(cert_dir, CLIENT_KEY_FILE);
    match (cert_is_file, key_is_file) {
        (true, true) => Ok(ClientAuthConfig::MutualTls { cert_path, key_path }),
        (false, false) => Ok(ClientAuthConfig::NormalTls),
        _ => Err(
            MigratableError::Tls(TlsError::IncompleteClientAuthConfig { cert_path, key_path }),
        ),
    }
}

/// A name in a directory is found under the directory, then one separator, then the
/// name. The separator is not doubled where the directory ends with one, and there
/// is none where there is no directory. An absolute name stands for itself.
pub proof fn law_a_name_follows_its_directory(dir: Seq<u8>, name: Seq<u8>)
    ensures
        name.len() > 0 && name[0] == 0x2f ==> joined(dir, name) == name,
        !(name.len() > 0 && name[0] == 0x2f) ==> {
            &&& dir.len() == 0 ==> joined(dir, name) == name
            &&& dir.len() > 0 && dir[dir.len() - 1] == 0x2f ==> {
                &&& joined(dir, name).len() == dir.len() + name.len()
                &&& joined(dir, name).take(dir.len() as int) == dir
                &&& joined(dir, name).skip(dir.len() as int) == name
            }
            &&& dir.len() > 0 && dir[dir.len() - 1] != 0x2f ==> {
                &&& joined(dir, name).len() == dir.len() + 1 + name.len()
                &&& joined(dir, name).take(dir.len() as int) == dir
                &&& joined(dir, name)[dir.len() as int] == 0x2f
                &&& joined(dir, name).skip(dir.len() as int + 1) == name
            }
        },
{
}

/// Every path that [`join_path`] returns is the name after its directory: of a
/// relative name, what stands before it is the directory and a separator, be it
/// that of the directory or one of its own.
pub proof fn law_a_joined_path_is_the_name_after_its_directory(
    dir: &[u8],
    name: &str,
    path: Vec<u8>,
)
    requires
        call_ensures(join_path, (dir, name), path),
    ensures
        ({
            let file = vstd::utf8::encode_utf8(name@);
            let start = path@.len() - file.len();
            &&& start >= 0
            &&& path@.skip(start) == file
            &&& file.len() > 0 && file[0] == 0x2f ==> start == 0
            &&& !(file.len() > 0 && file[0] == 0x2f) ==> {
                &&& dir@.len() == 0 ==> start == 0
                &&& dir@.len() > 0 ==> {
                    &&& start > 0
                    &&& path@[start - 1] == 0x2f
                    &&& dir@[dir@.len() - 1] == 0x2f ==> path@.take(start) == dir@
                    &&& dir@[dir@.len() - 1] != 0x2f ==> path@.take(start - 1) == dir@
                }
            }
        }),
{
    let file = vstd::utf8::encode_utf8(name@);
    law_a_name_follows_its_directory(dir@, file);
    let start = path@.len() - file.len();
    assert(path@.skip(start) =~= file);
}

/// The certificate chain and the private key of a client are looked for in its
/// directory, under their names. It authenticates itself with both exactly if both
/// are files, and not at all exactly if neither is. If one is missing, it is refused,
/// and told where both were looked for.
pub proof fn law_a_client_needs_both_or_neither(
    cert_dir: &[u8],
    cert_is_file: bool,
    key_is_file: bool,
    result: Result<ClientAuthConfig, MigratableError>,
)
    requires
        call_ensures(client_auth_config, (cert_dir, cert_is_file, key_is_file), result),
    ensures
        result is Ok <==> cert_is_file == key_is_file,
        result matches Ok(config) ==> (config is NormalTls <==> !cert_is_file),
        result matches Ok(ClientAuthConfig::MutualTls { cert_path, key_path }) ==> {
            &&& cert_path@ == joined(cert_dir@, vstd::utf8::encode_utf8("client-cert.pem"@))
            &&& key_path@ == joined(cert_dir@, vstd::utf8::encode_utf8("client-key.pem"@))
        },
        result matches Err(error) ==> (error matches MigratableError::Tls(
            TlsError::IncompleteClientAuthConfig { cert_path, key_path },
        ) && cert_path@ == joined(cert_dir@, vstd::utf8::encode_utf8("client-cert.pem"@))
            && key_path@ == joined(cert_dir@, vstd::utf8::encode_utf8("client-key.pem"@))),
{
}

/// The files of a migration endpoint have these names.
pub proof fn law_credentials_have_their_names()
    ensures
        CA_CERT_FILE@ == "ca-cert.pem"@,
        CLIENT_CERT_FILE@ == "client-cert.pem"@,
        CLIENT_KEY_FILE@ == "client-key.pem"@,
        SERVER_CERT_FILE@ == "server-cert.pem"@,
        SERVER_KEY_FILE@ == "server-key.pem"@,
        SEPARATOR == 0x2f,
{
}

} // verus!
