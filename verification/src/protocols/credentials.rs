//! The TLS identity an endpoint presents: an ephemeral self-signed
//! certificate, made anew for each server start and each outbound
//! connection. Peers do not verify it; it serves to encrypt the channel.

use vstd::prelude::*;

verus! {

/// The name every certificate is issued to, and the name a client must
/// ask for when it connects.
pub open spec fn common_name() -> Seq<char> {
    "AirWin"@
}

/// A private key with a certificate for it, each in DER and in PEM. The
/// key is one: its PEM text holds its DER bytes. The certificate is
/// signed once for the DER form and once more for the PEM form, over
/// the same key and names, so the two forms need not hold the same
/// bytes; either of them goes with the key.
#[derive(Debug)]
pub struct TlsIdentity {
    /// A certificate for the key, DER-encoded.
    pub certificate: Vec<u8>,
    /// The private key, as PKCS#8 in DER.
    pub private_key: Vec<u8>,
    /// A certificate for the key, in PEM.
    pub certificate_pem: String,
    /// The private key in PEM.
    pub private_key_pem: String,
}

impl TlsIdentity {
    /// None of the four forms is empty.
    pub open spec fn is_filled(&self) -> bool {
        &&& self.certificate@.len() > 0
        &&& self.private_key@.len() > 0
        &&& self.certificate_pem@.len() > 0
        &&& self.private_key_pem@.len() > 0
    }
}

/// Key generation or signing failed; without a certificate the endpoint
/// cannot serve or connect.
#[derive(Debug)]
pub struct CertificateError {
    pub reason: String,
}

/// Every character is below U+0080.
pub open spec fn is_ascii_name(name: Seq<char>) -> bool {
    forall|i: int| 0 <= i < name.len() ==> (#[trigger] name[i] as u32) < 128
}

/// `rcgen`: a certificate for `common_name`, as subject alternative name
/// and as common name, with the given organization and country, over a
/// freshly generated key pair and signed with it. The errors of `rcgen`
/// are given by their messages. Success is not promised. Of an identity
/// that is made, none of the four forms is empty: the certificate is a
/// DER sequence, the key is the PKCS#8 document that was generated, and
/// each PEM text has its armour lines. The name must be ASCII: `rcgen`
/// writes the alternative name as an IA5 string and stops the program on
/// any other character.
#[verifier::external_body]
pub(crate) fn generate_self_signed(common_name: &str, organization: &str, country: &str) -> (generated:
    Result<TlsIdentity, String>)
    requires
        is_ascii_name(common_name@),
    ensures
        generated matches Ok(made) ==> made.is_filled(),
{
    let mut params = rcgen::CertificateParams::new(vec![common_name.to_string()]);
    params.distinguished_name = rcgen::DistinguishedName::new();
    params.distinguished_name.push(rcgen::DnType::CommonName, common_name);
    params.distinguished_name.push(rcgen::DnType::OrganizationName, organization);
    params.distinguished_name.push(rcgen::DnType::CountryName, country);
    let cert = rcgen::Certificate::from_params(params).map_err(|e| e.to_string())?;
    let certificate_pem = cert.serialize_pem().map_err(|e| e.to_string())?;
    let certificate = cert.serialize_der().map_err(|e| e.to_string())?;
    let private_key = cert.serialize_private_key_der();
    let private_key_pem = cert.serialize_private_key_pem();
    Ok(TlsIdentity { certificate, private_key, certificate_pem, private_key_pem })
}

/// The identity for the outcome of generating a certificate: the
/// identity that was generated, or the failure as a certificate error.
pub fn identity_from(generated: Result<TlsIdentity, String>) -> (identity: Result<
    TlsIdentity,
    CertificateError,
>)
    ensures
        match generated {
            Ok(made) => identity == Ok::<TlsIdentity, CertificateError>(made),
            Err(why) => identity matches Err(e) && e.reason@ == why@,
        },
{
    match generated {
        Ok(made) => Ok(made),
        Err(why) => Err(CertificateError { reason: why }),
    }
}

/// The names every certificate is issued under: the common name, which
/// is also the alternative name, the organization and the country.
pub fn certificate_subject() -> (subject: (&'static str, &'static str, &'static str))
    ensures
        subject.0@ == common_name(),
        subject.1@ == "AirWin"@,
        subject.2@ == "US"@,
        is_ascii_name(subject.0@),
{
    proof {
        reveal_strlit("AirWin");
    }
    ("AirWin", "AirWin", "US")
}

/// Issues a fresh identity under the names of `certificate_subject`. It
/// fails only when key generation or signing fails. An identity that is
/// issued holds a certificate and a key, each in both forms.
pub fn generate_certificate() -> (identity: Result<TlsIdentity, CertificateError>)
    ensures
        identity matches Ok(issued) ==> issued.is_filled(),
{
    let subject = certificate_subject();
    identity_from(generate_self_signed(subject.0, subject.1, subject.2))
}

} // verus!
