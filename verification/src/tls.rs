//! TLS startup material: PEM-encoded certificate chain and private key,
//! decoded to plain DER bytes. The key file may hold PKCS#8 or RSA-specific
//! PEM, tried in that order; zero usable keys is a fatal startup error. The
//! runtime reads the two files and turns the selected bytes back into its
//! own certificate and key types.

use vstd::prelude::*;

verus! {

/// Which PEM encoding the selected private key came from.
#[derive(Clone, Copy, PartialEq, Eq, Structural, Debug)]
pub enum KeyKind {
    Pkcs8,
    Rsa,
}

/// Why TLS startup material could not be assembled.
#[derive(Clone, Copy, PartialEq, Eq, Structural, Debug)]
pub enum TlsError {
    NoUsableKey,
}

/// TLS material as plain DER bytes: the certificate chain in file order, and
/// the selected private key.
pub struct TlsMaterial {
    pub certs: Vec<Vec<u8>>,
    pub key: Vec<u8>,
    pub key_kind: KeyKind,
}

/// The DER certificates that PEM decoding yields from these bytes, in file
/// order (the CERTIFICATE sections that decode; anything else is skipped).
pub uninterp spec fn pem_certs_of(pem: Seq<u8>) -> Seq<Seq<u8>>;

/// The PKCS#8 private keys that PEM decoding yields from these bytes, in
/// file order.
pub uninterp spec fn pem_pkcs8_keys_of(pem: Seq<u8>) -> Seq<Seq<u8>>;

/// The RSA (PKCS#1) private keys that PEM decoding yields from these bytes,
/// in file order.
pub uninterp spec fn pem_rsa_keys_of(pem: Seq<u8>) -> Seq<Seq<u8>>;

/// Relies on rustls_pemfile::certs: decodes every CERTIFICATE section of the
/// input to DER, in order, skipping other sections and undecodable ones; the
/// result is a function of the bytes alone.
#[verifier::external_body]
fn parse_certs(pem: &Vec<u8>) -> (r: Vec<Vec<u8>>)
    ensures
        r@.len() == pem_certs_of(pem@).len(),
        forall|i: int| 0 <= i < r@.len() ==> r@[i]@ == pem_certs_of(pem@)[i],
{
    rustls_pemfile::certs(&mut pem.as_slice())
        .flatten()
        .map(|c| c.as_ref().to_vec())
        .collect()
}

/// Relies on rustls_pemfile::pkcs8_private_keys: decodes every PRIVATE KEY
/// section of the input to DER, in order, skipping other sections and
/// undecodable ones; the result is a function of the bytes alone.
#[verifier::external_body]
fn parse_pkcs8_keys(pem: &Vec<u8>) -> (r: Vec<Vec<u8>>)
    ensures
        r@.len() == pem_pkcs8_keys_of(pem@).len(),
        forall|i: int| 0 <= i < r@.len() ==> r@[i]@ == pem_pkcs8_keys_of(pem@)[i],
{
    rustls_pemfile::pkcs8_private_keys(&mut pem.as_slice())
        .flatten()
        .map(|k| k.secret_pkcs8_der().to_vec())
        .collect()
}

/// Relies on rustls_pemfile::rsa_private_keys: decodes every RSA PRIVATE KEY
/// section of the input to DER, in order, skipping other sections and
/// undecodable ones; the result is a function of the bytes alone.
#[verifier::external_body]
fn parse_rsa_keys(pem: &Vec<u8>) -> (r: Vec<Vec<u8>>)
    ensures
        r@.len() == pem_rsa_keys_of(pem@).len(),
        forall|i: int| 0 <= i < r@.len() ==> r@[i]@ == pem_rsa_keys_of(pem@)[i],
{
    rustls_pemfile::rsa_private_keys(&mut pem.as_slice())
        .flatten()
        .map(|k| k.secret_pkcs1_der().to_vec())
        .collect()
}

/// Assembles the TLS startup material from the two PEM files' bytes: the
/// whole certificate chain, and the first PKCS#8 private key, falling back
/// to the first RSA private key; with no usable key in either encoding the
/// startup fails.
pub fn load_tls_material(cert_pem: &Vec<u8>, key_pem: &Vec<u8>) -> (r: Result<TlsMaterial, TlsError>)
    ensures
        (r is Ok) == (pem_pkcs8_keys_of(key_pem@).len() > 0 || pem_rsa_keys_of(key_pem@).len() > 0),
        r matches Ok(m) ==> {
            &&& m.certs@.len() == pem_certs_of(cert_pem@).len()
            &&& (forall|i: int| 0 <= i < m.certs@.len() ==> m.certs@[i]@ == pem_certs_of(cert_pem@)[i])
            &&& (pem_pkcs8_keys_of(key_pem@).len() > 0 ==> m.key_kind == KeyKind::Pkcs8
                && m.key@ == pem_pkcs8_keys_of(key_pem@)[0])
            &&& (pem_pkcs8_keys_of(key_pem@).len() == 0 ==> m.key_kind == KeyKind::Rsa
                && m.key@ == pem_rsa_keys_of(key_pem@)[0])
        },
        r matches Err(e) ==> e == TlsError::NoUsableKey,
{
    let certs = parse_certs(cert_pem);
    let mut keys = parse_pkcs8_keys(key_pem);
    if keys.len() > 0 {
        let key = keys.remove(0);
        Ok(TlsMaterial { certs, key, key_kind: KeyKind::Pkcs8 })
    } else {
        let mut rkeys = parse_rsa_keys(key_pem);
        if rkeys.len() > 0 {
            let key = rkeys.remove(0);
            Ok(TlsMaterial { certs, key, key_kind: KeyKind::Rsa })
        } else {
            Err(TlsError::NoUsableKey)
        }
    }
}

} // verus!
