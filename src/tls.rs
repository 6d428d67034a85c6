use vstd::prelude::*;

verus! {

/// The DER certificates that a PEM text holds, in order, or `None` where the
/// text is malformed.
pub uninterp spec fn pem_certificates_of(pem: Seq<u8>) -> Option<Seq<Seq<u8>>>;

/// The DER PKCS#8 private keys that a PEM text holds, in order, or `None`
/// where the text is malformed.
pub uninterp spec fn pem_pkcs8_keys_of(pem: Seq<u8>) -> Option<Seq<Seq<u8>>>;

/// Relies on rustls_pemfile::certs: reads every certificate section of a PEM
/// text and skips other sections; reading from bytes fails only on malformed text.
#[verifier::external_body]
fn pem_certificates(pem: &[u8]) -> (r: Option<Vec<Vec<u8>>>)
    ensures
        r is None <==> pem_certificates_of(pem@) is None,
        r matches Some(v) ==> pem_certificates_of(pem@) == Some(v.deep_view()),
{
    let mut reader: &[u8] = pem;
    rustls_pemfile::certs(&mut reader).ok()
}

/// Relies on rustls_pemfile::pkcs8_private_keys: reads every PKCS#8 key section
/// of a PEM text and skips other sections; reading from bytes fails only on
/// malformed text.
#[verifier::external_body]
fn pem_pkcs8_keys(pem: &[u8]) -> (r: Option<Vec<Vec<u8>>>)
    ensures
        r is None <==> pem_pkcs8_keys_of(pem@) is None,
        r matches Some(v) ==> pem_pkcs8_keys_of(pem@) == Some(v.deep_view()),
{
    let mut reader: &[u8] = pem;
    rustls_pemfile::pkcs8_private_keys(&mut reader).ok()
}

/// The certificate chain and private key that the encrypted listener serves with.
pub struct TlsMaterial {
    pub certificates: Vec<Vec<u8>>,
    pub key: Vec<u8>,
}

/// Why the encrypted listener cannot be set up.
pub enum TlsError {
    /// The certificate file is not well-formed PEM.
    CertificatesMalformed,
    /// The key file is not well-formed PEM.
    KeyMalformed,
    /// The key file holds no PKCS#8 private key.
    NoKey,
}

/// Picks the chain and the key from what the two PEM files held: the whole
/// chain and the first key.
pub fn select_tls_material(
    certificates: Option<Vec<Vec<u8>>>,
    keys: Option<Vec<Vec<u8>>>,
) -> (r: Result<TlsMaterial, TlsError>)
    ensures
        match (certificates, keys) {
            (None, _) => r matches Err(TlsError::CertificatesMalformed),
            (Some(_), None) => r matches Err(TlsError::KeyMalformed),
            (Some(c), Some(k)) => if k@.len() == 0 {
                r matches Err(TlsError::NoKey)
            } else {
                r matches Ok(m) && m.certificates.deep_view() == c.deep_view() && m.key@ == k@[0]@
            },
        },
{
    match certificates {
        None => Err(TlsError::CertificatesMalformed),
        Some(chain) => match keys {
            None => Err(TlsError::KeyMalformed),
            Some(mut found) => {
                if found.len() == 0 {
                    Err(TlsError::NoKey)
                } else {
                    let key = found.remove(0);
                    Ok(TlsMaterial { certificates: chain, key })
                }
            },
        },
    }
}

/// Reads the certificate chain and the first PKCS#8 key out of the two PEM files.
pub fn tls_material(cert_pem: &[u8], key_pem: &[u8]) -> (r: Result<TlsMaterial, TlsError>)
    ensures
        match (pem_certificates_of(cert_pem@), pem_pkcs8_keys_of(key_pem@)) {
            (None, _) => r matches Err(TlsError::CertificatesMalformed),
            (Some(_), None) => r matches Err(TlsError::KeyMalformed),
            (Some(c), Some(k)) => if k.len() == 0 {
                r matches Err(TlsError::NoKey)
            } else {
                r matches Ok(m) && m.certificates.deep_view() == c && m.key@ == k[0]
            },
        },
{
    let certificates = pem_certificates(cert_pem);
    let keys = pem_pkcs8_keys(key_pem);
    select_tls_material(certificates, keys)
}

} // verus!
