//! Certificate chains and private keys in PEM files.

use rustls::pki_types::pem;
use rustls::pki_types::pem::PemObject;
use rustls::pki_types::{CertificateDer, PrivateKeyDer};
use vstd::prelude::*;

use crate::error::{pem_result, MigratableError, TlsError};

verus! {

/// What reading a PEM file gave: its bytes, or the error that rustls reports for
/// a PEM file that cannot be read.
pub type FileContents = Result<Vec<u8>, pem::Error>;

/// The contents of byte strings.
pub open spec fn contents(strings: Seq<Vec<u8>>) -> Seq<Seq<u8>> {
    strings.map_values(|string: Vec<u8>| string@)
}

/// The contents of sections that can be read, and the errors of those that
/// cannot.
pub open spec fn section_contents(sections: Seq<Result<Vec<u8>, pem::Error>>) -> Seq<
    Result<Seq<u8>, pem::Error>,
> {
    sections.map_values(
        |section: Result<Vec<u8>, pem::Error>|
            match section {
                Ok(der) => Ok(der@),
                Err(error) => Err(error),
            },
    )
}

/// The certificate sections of PEM text in the order in which rustls finds them:
/// the DER encoding of the certificate for a section that can be read, and the
/// error that rustls reports for one that cannot.
pub uninterp spec fn pem_certificates(text: Seq<u8>) -> Seq<Result<Seq<u8>, pem::Error>>;

/// The first private key section of PEM text as rustls reads it: the encoding of
/// the key that its label names and the DER encoding itself, or the error that
/// rustls reports if there is no such section or if it cannot be read.
pub uninterp spec fn pem_private_key(text: Seq<u8>) -> Result<(KeyFormat, Seq<u8>), pem::Error>;

/// The text that a line has to start with to open a section: `-----BEGIN `.
pub open spec fn section_start() -> Seq<u8> {
    seq![0x2du8, 0x2d, 0x2d, 0x2d, 0x2d, 0x42, 0x45, 0x47, 0x49, 0x4e, 0x20]
}

/// The text that a line has to start with to open a certificate section:
/// `-----BEGIN CERTIFICATE`.
pub open spec fn certificate_start() -> Seq<u8> {
    section_start() + seq![
        0x43u8,
        0x45,
        0x52,
        0x54,
        0x49,
        0x46,
        0x49,
        0x43,
        0x41,
        0x54,
        0x45,
    ]
}

/// `part` stands somewhere in `text`.
pub open spec fn occurs(part: Seq<u8>, text: Seq<u8>) -> bool {
    exists|i: int| 0 <= i <= text.len() && part.is_prefix_of(#[trigger] text.skip(i))
}

/// `text` consists of whole lines: it is empty or ends with a line feed.
pub open spec fn whole_lines(text: Seq<u8>) -> bool {
    text.len() > 0 ==> text.last() == 0x0a
}

/// The first `k` of these sections can be read.
pub open spec fn readable<T>(sections: Seq<Result<T, pem::Error>>, k: int) -> bool {
    forall|i: int| 0 <= i < k ==> (#[trigger] sections[i]) is Ok
}

/// The index of the first section that cannot be read, if there is one.
pub open spec fn first_unreadable<T>(sections: Seq<Result<T, pem::Error>>) -> int {
    choose|k: int|
        0 <= k < sections.len() && readable(sections, k) && (#[trigger] sections[k]) is Err
}

/// The certificates of all sections, or the error of the first section that
/// cannot be read.
pub open spec fn all_certificates(sections: Seq<Result<Seq<u8>, pem::Error>>) -> Result<
    Seq<Seq<u8>>,
    pem::Error,
> {
    if readable(sections, sections.len() as int) {
        Ok(sections.map_values(|section: Result<Seq<u8>, pem::Error>| section->Ok_0))
    } else {
        Err(sections[first_unreadable(sections)]->Err_0)
    }
}

/// The certificates in a PEM file, or why it does not load.
pub open spec fn certificates_in(file: FileContents) -> Result<Seq<Seq<u8>>, pem::Error> {
    match file {
        Ok(text) => all_certificates(pem_certificates(text@)),
        Err(error) => Err(error),
    }
}

/// The private key in a PEM file, or why it does not load.
pub open spec fn private_key_in(file: FileContents) -> Result<
    (KeyFormat, Seq<u8>),
    pem::Error,
> {
    match file {
        Ok(text) => pem_private_key(text@),
        Err(error) => Err(error),
    }
}

/// The encodings of private keys.
#[derive(Clone, Copy, Debug, PartialEq, Eq, Structural)]
pub enum KeyFormat {
    /// An RSA private key, labelled `RSA PRIVATE KEY`.
    Pkcs1,
    /// An elliptic curve private key, labelled `EC PRIVATE KEY`.
    Sec1,
    /// A PKCS#8 private key, labelled `PRIVATE KEY`.
    Pkcs8,
}

/// A DER-encoded private key.
pub struct PrivateKey {
    pub format: KeyFormat,
    pub der: Vec<u8>,
}

impl View for PrivateKey {
    type V = (KeyFormat, Seq<u8>);

    open spec fn view(&self) -> (KeyFormat, Seq<u8>) {
        (self.format, self.der@)
    }
}

/// Finds the certificate sections of PEM text.
///
/// Trusted: calls `CertificateDer::pem_reader_iter`, the iterator behind
/// `pem_file_iter`, on text in memory, and lists what it yields, each certificate
/// by its DER encoding. What it yields is a function of the text alone. It reads
/// the text line by line. It finds nothing where no line opens a section, and no
/// certificate where none opens a certificate section. After whole lines in which
/// it could read every section, it goes on with what follows as it does with a new
/// text.
#[verifier::external_body]
fn certificate_sections(text: &[u8]) -> (sections: Vec<Result<Vec<u8>, pem::Error>>)
    ensures
        section_contents(sections@) == pem_certificates(text@),
        !occurs(section_start(), text@) ==> sections@.len() == 0,
        !occurs(certificate_start(), text@) ==> forall|i: int|
            0 <= i < sections@.len() ==> (#[trigger] sections@[i]) is Err,
        forall|a: Seq<u8>, b: Seq<u8>|
            text@ == #[trigger] (a + b) && whole_lines(a) && readable(
                pem_certificates(a),
                pem_certificates(a).len() as int,
            ) ==> section_contents(sections@) == pem_certificates(a) + pem_certificates(b),
{
    CertificateDer::pem_reader_iter(text)
        .map(|section| section.map(|der| der.as_ref().to_vec()))
        .collect()
}

/// Finds the first private key section of PEM text.
///
/// Trusted: calls `PrivateKeyDer::from_pem_reader`, which is `from_pem_file` on
/// text in memory, and takes the key apart into its encoding and its bytes. What
/// it returns is a function of the text alone. It reads the text line by line, finds
/// nothing where no line opens a section, and goes no further than the key that it
/// returns. rustls reserves the right to add encodings; it has none but these three.
#[verifier::external_body]
fn first_private_key(text: &[u8]) -> (key: Result<PrivateKey, pem::Error>)
    ensures
        (match key {
            Ok(key) => Ok(key@),
            Err(error) => Err(error),
        }) == pem_private_key(text@),
        !occurs(section_start(), text@) ==> key is Err,
        forall|a: Seq<u8>, b: Seq<u8>|
            text@ == #[trigger] (a + b) && whole_lines(a) && pem_private_key(a) is Ok ==> (
            match key {
                Ok(key) => Ok(key@),
                Err(error) => Err(error),
            }) == pem_private_key(a),
{
    match PrivateKeyDer::from_pem_reader(text)? {
        PrivateKeyDer::Pkcs1(key) => Ok(
            PrivateKey { format: KeyFormat::Pkcs1, der: key.secret_pkcs1_der().to_vec() },
        ),
        PrivateKeyDer::Sec1(key) => Ok(
            PrivateKey { format: KeyFormat::Sec1, der: key.secret_sec1_der().to_vec() },
        ),
        PrivateKeyDer::Pkcs8(key) => Ok(
            PrivateKey { format: KeyFormat::Pkcs8, der: key.secret_pkcs8_der().to_vec() },
        ),
        _ => Err(pem::Error::NoItemsFound),
    }
}

/// The certificates of all sections, in order, or the error of the first section
/// that could not be read.
pub fn collect_certificates(sections: Vec<Result<Vec<u8>, pem::Error>>) -> (result: Result<
    Vec<Vec<u8>>,
    MigratableError,
>)
    ensures
        match all_certificates(section_contents(sections@)) {
            Ok(certs) => result matches Ok(chain) && contents(chain@) == certs,
            Err(error) => result == Err::<Vec<Vec<u8>>, MigratableError>(
                crate::error::pem_failure(error),
            ),
        },
{
    let ghost all = sections@;
    let ghost found = section_contents(all);
    let mut certs: Vec<Vec<u8>> = Vec::new();
    for section in iter: sections
        invariant
            iter.seq() == all,
            found == section_contents(all),
            certs@.len() == iter.index(),
            forall|i: int|
                0 <= i < certs@.len() ==> #[trigger] found[i] == Ok::<Seq<u8>, pem::Error>(
                    certs@[i]@,
                ),
    {
        let ghost k = certs@.len() as int;
        assert(all[k] == section);
        match pem_result(section) {
            Ok(cert) => certs.push(cert),
            Err(error) => {
                proof {
                    assert(readable(found, k));
                    assert(found[k] is Err);
                    let first = first_unreadable(found);
                    assert(first == k);
                }
                return Err(error);
            },
        }
    }
    assert(readable(found, found.len() as int));
    assert(contents(certs@) =~= all_certificates(found)->Ok_0);
    Ok(certs)
}

/// Loads a certificate chain to present during the TLS handshake.
///
/// A text without sections is an empty chain, and so is one without certificate
/// sections if it loads. Of two texts that both load, the first of whole lines,
/// the one followed by the other loads as the one chain followed by the other.
pub fn load_cert_chain(file: FileContents) -> (result: Result<Vec<Vec<u8>>, MigratableError>)
    ensures
        match certificates_in(file) {
            Ok(certs) => result matches Ok(chain) && contents(chain@) == certs,
            Err(error) => result == Err::<Vec<Vec<u8>>, MigratableError>(
                crate::error::pem_failure(error),
            ),
        },
        file matches Ok(text) ==> !occurs(section_start(), text@) ==> (result matches Ok(chain)
            && contents(chain@) == Seq::<Seq<u8>>::empty()),
        file matches Ok(text) ==> !occurs(certificate_start(), text@) ==> (result matches Ok(chain)
            ==> contents(chain@) == Seq::<Seq<u8>>::empty()),
        file matches Ok(text) ==> forall|a: Seq<u8>, b: Seq<u8>|
            text@ == #[trigger] (a + b) && whole_lines(a) && all_certificates(
                pem_certificates(a),
            ) is Ok && all_certificates(pem_certificates(b)) is Ok ==> (result matches Ok(chain)
                && contents(chain@) == all_certificates(pem_certificates(a))->Ok_0
                + all_certificates(pem_certificates(b))->Ok_0),
{
    let text = pem_result(file)?;
    let sections = certificate_sections(text.as_slice());
    proof {
        let found = section_contents(sections@);
        assert(forall|i: int| 0 <= i < found.len() ==> (found[i] is Err <==> sections@[i] is Err));
        if !occurs(section_start(), text@) {
            assert(all_certificates(found)->Ok_0 =~= Seq::empty());
        }
        if !occurs(certificate_start(), text@) && all_certificates(found) is Ok {
            assert(found.len() > 0 ==> found[0] is Ok);
            assert(all_certificates(found)->Ok_0 =~= Seq::empty());
        }
        assert forall|a: Seq<u8>, b: Seq<u8>|
            text@ == #[trigger] (a + b) && whole_lines(a) && all_certificates(
                pem_certificates(a),
            ) is Ok && all_certificates(
                pem_certificates(b),
            ) is Ok implies certificates_in(file) == Ok::<Seq<Seq<u8>>, pem::Error>(
            all_certificates(pem_certificates(a))->Ok_0 + all_certificates(
                pem_certificates(b),
            )->Ok_0,
        ) by {
            law_joined_sections_are_a_joined_chain(pem_certificates(a), pem_certificates(b));
        }
    }
    collect_certificates(sections)
}

/// Loads the private key that proves ownership of the presented certificate
/// chain.
///
/// A text without sections has no key. Where whole lines hold a key, whatever
/// follows them leaves that key as it is.
pub fn load_private_key(file: FileContents) -> (result: Result<PrivateKey, MigratableError>)
    ensures
        match private_key_in(file) {
            Ok(secret) => result matches Ok(key) && key@ == secret,
            Err(error) => result == Err::<PrivateKey, MigratableError>(
                crate::error::pem_failure(error),
            ),
        },
        file matches Ok(text) ==> !occurs(section_start(), text@) ==> result is Err,
        file matches Ok(text) ==> forall|a: Seq<u8>, b: Seq<u8>|
            text@ == #[trigger] (a + b) && whole_lines(a) && pem_private_key(a) is Ok ==> (
            result matches Ok(key) && key@ == pem_private_key(a)->Ok_0),
{
    let text = pem_result(file)?;
    pem_result(first_private_key(text.as_slice()))
}

/// PEM text loads exactly if every certificate section in it can be read. If one
/// cannot, the error is that of the first such section.
pub proof fn law_the_first_failure_is_reported(sections: Seq<Result<Seq<u8>, pem::Error>>)
    ensures
        all_certificates(sections) is Ok <==> forall|i: int|
            0 <= i < sections.len() ==> (#[trigger] sections[i]) is Ok,
        all_certificates(sections) matches Err(error) ==> exists|k: int|
            0 <= k < sections.len() && readable(sections, k) && #[trigger] sections[k] == Err::<
                Seq<u8>,
                pem::Error,
            >(error),
        all_certificates(sections) matches Ok(certs) ==> certs.len() == sections.len() && forall|
            i: int,
        |
            0 <= i < certs.len() ==> sections[i] == Ok::<Seq<u8>, pem::Error>(#[trigger] certs[i]),
{
    if !readable(sections, sections.len() as int) {
        lemma_first_unreadable(sections, sections.len() as int);
        let k = first_unreadable(sections);
        assert(sections[k] is Err);
    }
}

/// No certificate is dropped, moved or merged with an equal one: sections that all
/// can be read, followed by others that all can be read, are the one chain followed
/// by the other.
pub proof fn law_joined_sections_are_a_joined_chain(
    a: Seq<Result<Seq<u8>, pem::Error>>,
    b: Seq<Result<Seq<u8>, pem::Error>>,
)
    requires
        all_certificates(a) is Ok,
        all_certificates(b) is Ok,
    ensures
        all_certificates(a + b) == Ok::<Seq<Seq<u8>>, pem::Error>(
            all_certificates(a)->Ok_0 + all_certificates(b)->Ok_0,
        ),
{
    assert forall|i: int| 0 <= i < (a + b).len() implies (#[trigger] (a + b)[i]) is Ok by {
        if i < a.len() {
            assert(a[i] is Ok);
        } else {
            assert(b[i - a.len()] is Ok);
        }
    }
    assert(all_certificates(a + b)->Ok_0 =~= all_certificates(a)->Ok_0 + all_certificates(
        b,
    )->Ok_0);
}

proof fn lemma_first_unreadable<T>(sections: Seq<Result<T, pem::Error>>, n: int)
    requires
        0 <= n <= sections.len(),
        !readable(sections, n),
    ensures
        exists|k: int| 0 <= k < n && readable(sections, k) && (#[trigger] sections[k]) is Err,
    decreases n,
{
    if readable(sections, n - 1) {
        assert(sections[n - 1] is Err);
    } else {
        lemma_first_unreadable(sections, n - 1);
    }
}

/// A chain that is collected from sections holds what each of them holds, at the
/// place of that section, and nothing else. It is collected exactly if all sections
/// could be read; the error is otherwise that of the first that could not.
pub proof fn law_a_chain_is_all_its_sections(
    sections: Vec<Result<Vec<u8>, pem::Error>>,
    result: Result<Vec<Vec<u8>>, MigratableError>,
)
    requires
        call_ensures(collect_certificates, (sections,), result),
    ensures
        result is Ok <==> forall|i: int|
            0 <= i < sections@.len() ==> (#[trigger] sections@[i]) is Ok,
        result matches Ok(chain) ==> chain@.len() == sections@.len() && forall|i: int|
            0 <= i < chain@.len() ==> (#[trigger] sections@[i])->Ok_0@ == chain@[i]@,
        result matches Err(error) ==> exists|k: int|
            0 <= k < sections@.len() && (forall|j: int|
                0 <= j < k ==> (#[trigger] sections@[j]) is Ok) && (
            #[trigger] sections@[k]) is Err && error == MigratableError::Tls(
                TlsError::RustlsPemError(sections@[k]->Err_0),
            ),
{
    let found = section_contents(sections@);
    law_the_first_failure_is_reported(found);
    assert(forall|i: int|
        0 <= i < sections@.len() ==> (#[trigger] found[i] is Ok <==> sections@[i] is Ok));
    if let Ok(chain) = result {
        let certs = contents(chain@);
        assert(certs.len() == found.len());
        assert forall|i: int| 0 <= i < chain@.len() implies (#[trigger] sections@[i])->Ok_0@
            == chain@[i]@ by {
            assert(found[i] == Ok::<Seq<u8>, pem::Error>(certs[i]));
        }
        assert forall|i: int| 0 <= i < sections@.len() implies (#[trigger] sections@[i]) is Ok by {
            assert(found[i] is Ok);
        }
    } else {
        let error = all_certificates(found)->Err_0;
        let k = choose|k: int|
            0 <= k < found.len() && readable(found, k) && #[trigger] found[k] == Err::<
                Seq<u8>,
                pem::Error,
            >(error);
        assert(sections@[k] is Err);
        assert forall|j: int| 0 <= j < k implies (#[trigger] sections@[j]) is Ok by {
            assert(found[j] is Ok);
        }
    }
}

/// A file loads as the chain of all certificates in its text, each once and in the
/// order of the text, exactly if it can be read and so can every section. Otherwise
/// the error is that of reading the file, or that of the first section that cannot
/// be read.
pub proof fn law_a_file_loads_as_all_its_certificates(
    file: FileContents,
    result: Result<Vec<Vec<u8>>, MigratableError>,
)
    requires
        call_ensures(load_cert_chain, (file,), result),
    ensures
        file matches Err(error) ==> result == Err::<Vec<Vec<u8>>, MigratableError>(
            MigratableError::Tls(TlsError::RustlsPemError(error)),
        ),
        file matches Ok(text) ==> {
            let found = pem_certificates(text@);
            &&& result is Ok <==> forall|i: int|
                0 <= i < found.len() ==> (#[trigger] found[i]) is Ok
            &&& result matches Ok(chain) ==> chain@.len() == found.len() && forall|i: int|
                0 <= i < chain@.len() ==> #[trigger] found[i] == Ok::<Seq<u8>, pem::Error>(
                    chain@[i]@,
                )
            &&& result matches Err(error) ==> exists|k: int|
                0 <= k < found.len() && (forall|j: int|
                    0 <= j < k ==> (#[trigger] found[j]) is Ok) && (
                #[trigger] found[k]) is Err && error == MigratableError::Tls(
                    TlsError::RustlsPemError(found[k]->Err_0),
                )
        },
{
    if let Ok(text) = file {
        let found = pem_certificates(text@);
        law_the_first_failure_is_reported(found);
        if let Ok(chain) = result {
            let certs = contents(chain@);
            assert forall|i: int| 0 <= i < chain@.len() implies #[trigger] found[i] == Ok::<
                Seq<u8>,
                pem::Error,
            >(chain@[i]@) by {
                assert(certs[i] == chain@[i]@);
            }
        }
    }
}

/// The certificates in a file are those in its text, each once and in the order of
/// the text. There is an error exactly if the file, or a section of its text, cannot
/// be read, and it is the first that comes up.
pub proof fn law_the_certificates_of_a_file_are_those_of_its_text(file: FileContents)
    ensures
        file matches Err(error) ==> certificates_in(file) == Err::<Seq<Seq<u8>>, pem::Error>(error),
        file matches Ok(text) ==> {
            let found = pem_certificates(text@);
            &&& certificates_in(file) is Ok <==> forall|i: int|
                0 <= i < found.len() ==> (#[trigger] found[i]) is Ok
            &&& certificates_in(file) matches Ok(certs) ==> certs.len() == found.len() && forall|
                i: int,
            |
                0 <= i < certs.len() ==> #[trigger] found[i] == Ok::<Seq<u8>, pem::Error>(certs[i])
            &&& certificates_in(file) matches Err(error) ==> exists|k: int|
                0 <= k < found.len() && (forall|j: int|
                    0 <= j < k ==> (#[trigger] found[j]) is Ok) && #[trigger] found[k] == Err::<
                    Seq<u8>,
                    pem::Error,
                >(error)
        },
{
    if let Ok(text) = file {
        law_the_first_failure_is_reported(pem_certificates(text@));
    }
}

/// The key of a file is the key that rustls finds in its text, with its encoding and
/// its bytes, whatever that encoding is. Where rustls finds none, its error is
/// reported, and so is that of a file that cannot be read.
pub proof fn law_a_file_loads_as_its_key(
    file: FileContents,
    result: Result<PrivateKey, MigratableError>,
)
    requires
        call_ensures(load_private_key, (file,), result),
    ensures
        file matches Err(error) ==> result == Err::<PrivateKey, MigratableError>(
            MigratableError::Tls(TlsError::RustlsPemError(error)),
        ),
        file matches Ok(text) ==> match (pem_private_key(text@), result) {
            (Ok(found), Ok(key)) => key.format == found.0 && key.der@ == found.1,
            (Err(reason), Err(error)) => error == MigratableError::Tls(
                TlsError::RustlsPemError(reason),
            ),
            _ => false,
        },
        match (private_key_in(file), result) {
            (Ok(found), Ok(key)) => key.format == found.0 && key.der@ == found.1,
            (Err(reason), Err(error)) => error == MigratableError::Tls(
                TlsError::RustlsPemError(reason),
            ),
            _ => false,
        },
{
}

} // verus!
