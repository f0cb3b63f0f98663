//! Root stores: the trust anchors that a peer's certificate chain is verified
//! against.

use rustls::pki_types::{pem, CertificateDer};
use rustls::RootCertStore;
use vstd::prelude::*;

use crate::error::{MigratableError, TlsError};
use crate::pem::{load_cert_chain, FileContents};

verus! {

/// A trust anchor: the DER encodings of its subject, of its public key and, if
/// there are any, of its name constraints.
pub type Anchor = (Seq<u8>, Seq<u8>, Option<Seq<u8>>);

/// A root store of rustls, a collection of trust anchors.
#[verifier::external_type_specification]
#[verifier::external_body]
pub struct ExRootCertStore(RootCertStore);

/// The trust anchors that a root store holds, in order.
pub uninterp spec fn trust_anchors(store: RootCertStore) -> Seq<Anchor>;

/// The trust anchor that rustls extracts from a DER-encoded certificate, with
/// `webpki::anchor_from_trusted_cert`, or `None` if it cannot parse the
/// certificate.
pub uninterp spec fn trust_anchor(cert: Seq<u8>) -> Option<Anchor>;

/// The trust anchors that could be extracted, in order.
pub open spec fn extracted(anchors: Seq<Option<Anchor>>) -> Seq<Anchor>
    decreases anchors.len(),
{
    if anchors.len() == 0 {
        Seq::empty()
    } else {
        let before = extracted(anchors.drop_last());
        match anchors.last() {
            Some(anchor) => before.push(anchor),
            None => before,
        }
    }
}

/// The trust anchors of those certificates that can be parsed, in order.
pub open spec fn anchors_of(certs: Seq<Seq<u8>>) -> Seq<Anchor> {
    extracted(certs.map_values(|cert: Seq<u8>| trust_anchor(cert)))
}

/// The trust anchors in a PEM file, or why it does not load.
pub open spec fn anchors_in(file: FileContents) -> Result<Seq<Anchor>, pem::Error> {
    match crate::pem::certificates_in(file) {
        Ok(certs) => Ok(anchors_of(certs)),
        Err(error) => Err(error),
    }
}

/// Trusted: `RootCertStore::empty` makes a root store without trust anchors.
pub assume_specification[ RootCertStore::empty ]() -> (store: RootCertStore)
    ensures
        trust_anchors(store) == Seq::<Anchor>::empty(),
;

/// Adds to a root store the trust anchors of all certificates that can be
/// parsed. Returns how many certificates were added and how many were ignored.
///
/// Trusted: calls `RootCertStore::add_parsable_certificates`, which goes through
/// the certificates in order, appends the trust anchor of each that it can parse
/// and passes over the others.
#[verifier::external_body]
fn add_parsable_certificates(store: &mut RootCertStore, certs: Vec<Vec<u8>>) -> (counts: (
    usize,
    usize,
))
    ensures
        trust_anchors(*final(store)) == trust_anchors(*old(store)) + extracted(
            certs@.map_values(|cert: Vec<u8>| trust_anchor(cert@)),
        ),
        counts.0 == extracted(certs@.map_values(|cert: Vec<u8>| trust_anchor(cert@))).len(),
        counts.0 + counts.1 == certs@.len(),
{
    store.add_parsable_certificates(certs.into_iter().map(CertificateDer::from))
}

/// Loads trusted CA certificates into a root store, that is the set of trust
/// anchors used to verify the peer's certificate chain.
///
/// A file that is no PEM file is refused; a certificate in it that cannot be
/// parsed is passed over.
pub fn load_root_store(file: FileContents) -> (result: Result<RootCertStore, MigratableError>)
    ensures
        match anchors_in(file) {
            Ok(anchors) => result matches Ok(store) && trust_anchors(store) == anchors,
            Err(error) => result == Err::<RootCertStore, MigratableError>(
                crate::error::pem_failure(error),
            ),
        },
{
    let mut store = RootCertStore::empty();
    let certs = load_cert_chain(file)?;
    proof {
        let found = crate::pem::contents(certs@);
        assert(certs@.map_values(|cert: Vec<u8>| trust_anchor(cert@)) =~= found.map_values(
            |cert: Seq<u8>| trust_anchor(cert),
        ));
    }
    let _counts = add_parsable_certificates(&mut store, certs);
    Ok(store)
}

/// A root store trusts exactly the trust anchors of those certificates that can
/// be parsed, and has no more of them than there are certificates.
pub proof fn law_anchors_are_those_of_the_certificates(certs: Seq<Seq<u8>>, anchor: Anchor)
    ensures
        anchors_of(certs).contains(anchor) <==> exists|i: int|
            0 <= i < certs.len() && trust_anchor(#[trigger] certs[i]) == Some(anchor),
        anchors_of(certs).len() <= certs.len(),
{
    let found = certs.map_values(|cert: Seq<u8>| trust_anchor(cert));
    lemma_extracted(found, anchor);
    if anchors_of(certs).contains(anchor) {
        let i = choose|i: int| 0 <= i < found.len() && #[trigger] found[i] == Some(anchor);
        assert(trust_anchor(certs[i]) == Some(anchor));
    }
    if exists|i: int| 0 <= i < certs.len() && trust_anchor(#[trigger] certs[i]) == Some(anchor) {
        let i = choose|i: int|
            0 <= i < certs.len() && trust_anchor(#[trigger] certs[i]) == Some(anchor);
        assert(found[i] == Some(anchor));
    }
}

/// A PEM file of CA certificates loads exactly if it loads as a certificate
/// chain.
pub proof fn law_roots_load_as_a_chain_does(file: FileContents)
    ensures
        anchors_in(file) is Ok <==> crate::pem::certificates_in(file) is Ok,
{
}

proof fn lemma_extracted(anchors: Seq<Option<Anchor>>, anchor: Anchor)
    ensures
        extracted(anchors).contains(anchor) <==> exists|i: int|
            0 <= i < anchors.len() && #[trigger] anchors[i] == Some(anchor),
        extracted(anchors).len() <= anchors.len(),
    decreases anchors.len(),
{
    if anchors.len() > 0 {
        let before = anchors.drop_last();
        lemma_extracted(before, anchor);
        let last = anchors.len() - 1;
        assert(forall|i: int| 0 <= i < last ==> before[i] == anchors[i]);
        let rest = extracted(before);
        if let Some(added) = anchors[last] {
            let all = rest.push(added);
            assert(all[all.len() - 1] == added);
            assert(forall|i: int| 0 <= i < rest.len() ==> all[i] == rest[i]);
            if rest.contains(anchor) {
                let i = choose|i: int| 0 <= i < rest.len() && rest[i] == anchor;
                assert(all[i] == anchor);
            }
            if all.contains(anchor) && added != anchor {
                let i = choose|i: int| 0 <= i < all.len() && all[i] == anchor;
                assert(rest[i] == anchor);
            }
        }
    }
}

/// The trust anchors of certificates are those of every certificate that can be
/// parsed, in the order of the certificates: none is left out, added or merged with
/// an equal one.
pub proof fn law_no_certificate_that_parses_is_left_out(certs: Seq<Seq<u8>>)
    ensures
        anchors_of(certs) == certs.map_values(|cert: Seq<u8>| trust_anchor(cert)).filter(
            |found: Option<Anchor>| found is Some,
        ).map_values(|found: Option<Anchor>| found->0),
        anchors_of(certs).len() == certs.filter(|cert: Seq<u8>| trust_anchor(cert) is Some).len(),
    decreases certs.len(),
{
    reveal(Seq::filter);
    let found = certs.map_values(|cert: Seq<u8>| trust_anchor(cert));
    let parses = |anchor: Option<Anchor>| anchor is Some;
    let anchor = |anchor: Option<Anchor>| anchor->0;
    if certs.len() > 0 {
        let before = certs.drop_last();
        law_no_certificate_that_parses_is_left_out(before);
        let found_before = before.map_values(|cert: Seq<u8>| trust_anchor(cert));
        assert(found.drop_last() =~= found_before);
        assert(found.last() == trust_anchor(certs.last()));
        if found.last() is Some {
            assert(found.filter(parses).map_values(anchor) =~= found_before.filter(
                parses,
            ).map_values(anchor).push(found.last()->0));
        }
    } else {
        assert(found.filter(parses).map_values(anchor) =~= Seq::empty());
    }
}

/// The trust anchors in a file are those of every certificate in its text that can
/// be parsed, in the order of the text. There is an error exactly if the file does
/// not load as a chain, and it is the same one.
pub proof fn law_the_anchors_of_a_file_are_those_of_its_text(file: FileContents)
    ensures
        match (crate::pem::certificates_in(file), anchors_in(file)) {
            (Ok(certs), Ok(anchors)) => anchors == certs.map_values(
                |cert: Seq<u8>| trust_anchor(cert),
            ).filter(|found: Option<Anchor>| found is Some).map_values(
                |found: Option<Anchor>| found->0,
            ),
            (Err(reason), Err(error)) => error == reason,
            _ => false,
        },
{
    if let Ok(certs) = crate::pem::certificates_in(file) {
        law_no_certificate_that_parses_is_left_out(certs);
    }
}

/// The root store of a file that loads holds the trust anchor of every certificate in
/// the file that can be parsed, and no other: exactly as many as there are such
/// certificates, in their order. The file loads exactly if it can be read and so can
/// every section of its text. Otherwise the error is that of reading the file, or that
/// of the first section that cannot be read.
pub proof fn law_a_root_store_trusts_every_certificate_in_its_file(
    file: FileContents,
    result: Result<RootCertStore, MigratableError>,
)
    requires
        call_ensures(load_root_store, (file,), result),
    ensures
        file matches Err(error) ==> result == Err::<RootCertStore, MigratableError>(
            MigratableError::Tls(TlsError::RustlsPemError(error)),
        ),
        file matches Ok(text) ==> {
            let sections = crate::pem::pem_certificates(text@);
            let found = sections.map_values(
                |section: Result<Seq<u8>, pem::Error>| trust_anchor(section->Ok_0),
            );
            &&& result is Ok <==> forall|i: int|
                0 <= i < sections.len() ==> (#[trigger] sections[i]) is Ok
            &&& result matches Ok(store) ==> {
                &&& trust_anchors(store) == found.filter(
                    |anchor: Option<Anchor>| anchor is Some,
                ).map_values(|anchor: Option<Anchor>| anchor->0)
                &&& trust_anchors(store).len() == found.filter(
                    |anchor: Option<Anchor>| anchor is Some,
                ).len()
                &&& forall|i: int|
                    0 <= i < sections.len() ==> (trust_anchor(
                        (#[trigger] sections[i])->Ok_0,
                    ) matches Some(anchor) ==> trust_anchors(store).contains(anchor))
                &&& forall|anchor: Anchor| #[trigger]
                    trust_anchors(store).contains(anchor) ==> exists|i: int|
                        0 <= i < sections.len() && trust_anchor((#[trigger] sections[i])->Ok_0)
                            == Some(anchor)
            }
            &&& result matches Err(error) ==> exists|k: int|
                0 <= k < sections.len() && (forall|j: int|
                    0 <= j < k ==> (#[trigger] sections[j]) is Ok) && (
                #[trigger] sections[k]) is Err && error == MigratableError::Tls(
                    TlsError::RustlsPemError(sections[k]->Err_0),
                )
        },
{
    crate::pem::law_the_certificates_of_a_file_are_those_of_its_text(file);
    law_the_anchors_of_a_file_are_those_of_its_text(file);
    if let Ok(text) = file {
        if let Ok(store) = result {
            let sections = crate::pem::pem_certificates(text@);
            let certs = crate::pem::certificates_in(file)->Ok_0;
            let found = sections.map_values(
                |section: Result<Seq<u8>, pem::Error>| trust_anchor(section->Ok_0),
            );
            assert forall|i: int| 0 <= i < certs.len() implies sections[i]->Ok_0
                == #[trigger] certs[i] by {
                assert(sections[i] is Ok);
            }
            assert(certs.map_values(|cert: Seq<u8>| trust_anchor(cert)) =~= found);
            assert forall|i: int| 0 <= i < sections.len() implies (trust_anchor(
                (#[trigger] sections[i])->Ok_0,
            ) matches Some(anchor) ==> trust_anchors(store).contains(anchor)) by {
                if let Some(anchor) = trust_anchor(sections[i]->Ok_0) {
                    assert(trust_anchor(certs[i]) == Some(anchor));
                    law_anchors_are_those_of_the_certificates(certs, anchor);
                }
            }
            assert forall|anchor: Anchor| #[trigger]
                trust_anchors(store).contains(anchor) implies exists|i: int|
                0 <= i < sections.len() && trust_anchor((#[trigger] sections[i])->Ok_0) == Some(
                    anchor,
                ) by {
                law_anchors_are_those_of_the_certificates(certs, anchor);
                let i = choose|i: int|
                    0 <= i < certs.len() && trust_anchor(#[trigger] certs[i]) == Some(anchor);
                assert(sections[i]->Ok_0 == certs[i]);
            }
        }
    }
}

} // verus!
