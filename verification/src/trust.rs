//! The trust anchors of a request: the certificates of a CA file, which the
//! crate `reqwest` parses.

use crate::error::ConfigError;
use crate::text::{chars_of, range_is};
use vstd::prelude::*;

verus! {

/// A certificate as `reqwest` holds it. Nothing is known of its content.
#[verifier::external_type_specification]
#[verifier::external_body]
pub struct ExCertificate(reqwest::Certificate);

/// The error of `reqwest`. Nothing is known of its content.
#[verifier::external_type_specification]
#[verifier::external_body]
pub struct ExReqwestError(reqwest::Error);

/// `reqwest::Certificate::from_der` parses one DER encoded certificate.
/// Whether it accepts the bytes is its own affair: nothing is claimed of the
/// result.
pub assume_specification[ reqwest::Certificate::from_der ](der: &[u8]) -> (r: Result<
    reqwest::Certificate,
    reqwest::Error,
>)
;

/// `reqwest::Certificate::from_pem_bundle` parses a PEM bundle into its
/// certificates, of which there may be none. Whether it accepts the bytes is
/// its own affair: nothing is claimed of the result.
pub assume_specification[ reqwest::Certificate::from_pem_bundle ](pem_bundle: &[u8]) -> (r:
    Result<Vec<reqwest::Certificate>, reqwest::Error>)
;

/// How the content of a CA file is encoded.
#[derive(Clone, Copy, Debug, PartialEq, Eq, Structural)]
pub enum CertFormat {
    /// A single DER encoded certificate.
    Der,
    /// A PEM bundle of any number of certificates.
    PemBundle,
}

/// The ending that marks a DER file.
pub open spec fn der_ending() -> Seq<char> {
    seq!['.', 'd', 'e', 'r']
}

/// The format that a CA file's name stands for: DER where the name ends in
/// `.der`, else a PEM bundle.
pub open spec fn format_of(name: Seq<char>) -> CertFormat {
    if name.len() >= 4 && name.skip(name.len() - 4) == der_ending() {
        CertFormat::Der
    } else {
        CertFormat::PemBundle
    }
}

/// Tells the format of a CA file by its name.
pub fn cert_format(name: &str) -> (format: CertFormat)
    ensures
        format == format_of(name@),
{
    let v = chars_of(name);
    let n = v.len();
    if n < 4 {
        return CertFormat::PemBundle;
    }
    let ending: [char; 4] = ['.', 'd', 'e', 'r'];
    proof {
        assert(ending@ =~= der_ending());
        assert(v@.subrange(n - 4, n as int) =~= v@.skip(n - 4));
    }
    if range_is(&v, n - 4, n, ending.as_slice()) {
        CertFormat::Der
    } else {
        CertFormat::PemBundle
    }
}

/// The trust anchors that a parsed DER file gives: its one certificate, or a
/// configuration error where it was not accepted.
pub fn anchors_from_der(parsed: Result<reqwest::Certificate, reqwest::Error>) -> (r: Result<
    Vec<reqwest::Certificate>,
    ConfigError,
>)
    ensures
        parsed is Ok ==> r is Ok && r->Ok_0@ == seq![parsed->Ok_0],
        parsed is Err ==> r == Err::<Vec<reqwest::Certificate>, ConfigError>(
            ConfigError::InvalidDerCertificate,
        ),
{
    match parsed {
        Ok(cert) => {
            let mut anchors: Vec<reqwest::Certificate> = Vec::new();
            anchors.push(cert);
            proof {
                assert(anchors@ =~= seq![cert]);
            }
            Ok(anchors)
        },
        Err(_) => Err(ConfigError::InvalidDerCertificate),
    }
}

/// The trust anchors that a parsed PEM bundle gives: all its certificates in
/// their order, or a configuration error where it was not accepted.
pub fn anchors_from_bundle(parsed: Result<Vec<reqwest::Certificate>, reqwest::Error>) -> (r:
    Result<Vec<reqwest::Certificate>, ConfigError>)
    ensures
        parsed is Ok ==> r == Ok::<Vec<reqwest::Certificate>, ConfigError>(parsed->Ok_0),
        parsed is Err ==> r == Err::<Vec<reqwest::Certificate>, ConfigError>(
            ConfigError::InvalidPemBundle,
        ),
{
    match parsed {
        Ok(certs) => Ok(certs),
        Err(_) => Err(ConfigError::InvalidPemBundle),
    }
}

/// Loads the trust anchors from the content of the CA file `name`. A file
/// whose name ends in `.der` is parsed as one DER certificate, any other as a
/// PEM bundle. The parser decides whether the content is accepted; where it
/// is not, the error says which format was expected.
pub fn load_trust_anchors(name: &str, data: &[u8]) -> (r: Result<
    Vec<reqwest::Certificate>,
    ConfigError,
>)
    ensures
        format_of(name@) == CertFormat::Der ==> match r {
            Ok(anchors) => anchors@.len() == 1,
            Err(e) => e == ConfigError::InvalidDerCertificate,
        },
        format_of(name@) == CertFormat::PemBundle ==> (r is Err ==> r->Err_0
            == ConfigError::InvalidPemBundle),
{
    match cert_format(name) {
        CertFormat::Der => anchors_from_der(reqwest::Certificate::from_der(data)),
        CertFormat::PemBundle => anchors_from_bundle(
            reqwest::Certificate::from_pem_bundle(data),
        ),
    }
}

} // verus!
