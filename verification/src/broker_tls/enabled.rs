//! The broker built with TLS support: any URL is accepted, daemons may be
//! pinned to their exact leaf certificates.
use vstd::prelude::*;

verus! {

/// Every broker URL is supported in this build.
pub fn ensure_broker_url_supported(url: &str) -> (res: Result<(), String>)
    ensures
        res is Ok,
{
    Ok(())
}

/// Every `https://` target is supported in this build.
pub fn ensure_https_target_supported(target: &str) -> (res: Result<(), String>)
    ensures
        res is Ok,
{
    Ok(())
}

/// The outcome of installing the process's TLS crypto provider, given
/// whether one was installed before, whether installing succeeded, and
/// whether one is installed afterwards (another thread may have won).
pub fn crypto_provider_outcome(installed_before: bool, install_ok: bool, installed_after: bool) -> (res: Result<(), String>)
    ensures
        match res {
            Ok(_) => installed_before || install_ok || installed_after,
            Err(e) => !(installed_before || install_ok || installed_after)
                && e@ == "failed to install rustls ring crypto provider"@,
        },
{
    if installed_before || install_ok || installed_after {
        Ok(())
    } else {
        Err(String::from_str("failed to install rustls ring crypto provider"))
    }
}

/// The DER bytes of each certificate in the PEM text `pem`, in order, or
/// the reader's error message.
pub uninterp spec fn pem_certificates(pem: Seq<u8>) -> Result<Seq<Seq<u8>>, Seq<char>>;

/// Calls `rustls_pemfile::certs` on `pem` and collects the certificates'
/// DER bytes; what it returns is named by `pem_certificates`. PEM sections
/// other than certificates are skipped by that function; the PEM grammar is
/// not stated here.
#[verifier::external_body]
fn read_pem_certificates(pem: &[u8]) -> (res: Result<Vec<Vec<u8>>, String>)
    ensures
        match pem_certificates(pem@) {
            Ok(ders) => res matches Ok(v) && v@.len() == ders.len()
                && forall|i: int| 0 <= i < ders.len() ==> #[trigger] v@[i]@ == ders[i],
            Err(m) => res matches Err(e) && e@ == m,
        },
{
    let mut reader = std::io::Cursor::new(pem);
    match rustls_pemfile::certs(&mut reader).collect::<Result<Vec<_>, _>>() {
        Ok(certs) => Ok(certs.into_iter().map(|cert| cert.as_ref().to_vec()).collect()),
        Err(err) => Err(err.to_string()),
    }
}

/// The leaf certificates a target is pinned to, from its PEM file.
pub fn load_pinned_certs(pem: &[u8]) -> (res: Result<Vec<Vec<u8>>, String>)
    ensures
        match pem_certificates(pem@) {
            Ok(ders) => res matches Ok(v) && v@.len() == ders.len()
                && forall|i: int| 0 <= i < ders.len() ==> #[trigger] v@[i]@ == ders[i],
            Err(m) => res matches Err(e) && e@ == m,
        },
{
    read_pem_certificates(pem)
}

/// A pinning verifier needs at least one pinned certificate.
pub fn check_pinned_certs_present(pinned_leaf_certs: &Vec<Vec<u8>>) -> (res: Result<(), String>)
    ensures
        match res {
            Ok(_) => pinned_leaf_certs@.len() > 0,
            Err(e) => pinned_leaf_certs@.len() == 0
                && e@ == "pinned_server_cert_pem must contain at least one certificate"@,
        },
{
    if pinned_leaf_certs.len() == 0 {
        return Err(String::from_str("pinned_server_cert_pem must contain at least one certificate"));
    }
    Ok(())
}

fn bytes_eq(a: &Vec<u8>, b: &[u8]) -> (res: bool)
    ensures
        res == (a@ == b@),
{
    if a.len() != b.len() {
        return false;
    }
    let mut i: usize = 0;
    while i < a.len()
        invariant
            a@.len() == b@.len(),
            i <= a@.len(),
            forall|j: int| 0 <= j < i ==> a@[j] == b@[j],
        decreases a@.len() - i,
    {
        if a[i] != b[i] {
            return false;
        }
        i = i + 1;
    }
    assert(a@ =~= b@);
    true
}

/// After the chain checks out, the server's leaf certificate must be one of
/// the pinned ones, byte for byte.
pub fn check_pinned_leaf(pinned_leaf_certs: &Vec<Vec<u8>>, end_entity: &[u8]) -> (res: Result<(), String>)
    ensures
        match res {
            Ok(_) => exists|i: int| 0 <= i < pinned_leaf_certs@.len() && (#[trigger] pinned_leaf_certs@[i])@ == end_entity@,
            Err(e) => (forall|i: int| 0 <= i < pinned_leaf_certs@.len() ==> (#[trigger] pinned_leaf_certs@[i])@ != end_entity@)
                && e@ == "pinned server certificate mismatch"@,
        },
{
    let mut i: usize = 0;
    while i < pinned_leaf_certs.len()
        invariant
            i <= pinned_leaf_certs@.len(),
            forall|j: int| 0 <= j < i ==> (#[trigger] pinned_leaf_certs@[j])@ != end_entity@,
        decreases pinned_leaf_certs@.len() - i,
    {
        if bytes_eq(&pinned_leaf_certs[i], end_entity) {
            return Ok(());
        }
        i = i + 1;
    }
    Err(String::from_str("pinned server certificate mismatch"))
}

} // verus!
