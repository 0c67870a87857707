use vstd::prelude::*;
use vstd::string::StringExecFns;

verus! {

#[verifier::external_type_specification]
#[verifier::external_body]
pub struct ExKeyPair(rcgen::KeyPair);

#[verifier::external_type_specification]
#[verifier::external_body]
pub struct ExCertificate(rcgen::Certificate);

#[verifier::external_type_specification]
#[verifier::external_body]
pub struct ExRcgenError(rcgen::Error);

/// The certificate-authority profile the relay mints its root from: a
/// common name naming the relay's own authority, the two signing key
/// usages, and the unconstrained-authority flag.
pub struct CaProfile {
    pub common_name: String,
    pub can_sign_certificates: bool,
    pub can_sign_crls: bool,
    pub unconstrained_authority: bool,
}

/// The one profile the relay's root is ever minted under: its own common
/// name, certificate signing, CRL signing, an unconstrained authority.
pub open spec fn is_root_profile(p: CaProfile) -> bool {
    &&& p.common_name@ == "<HTTP-MITM-PROXY CA>"@
    &&& p.can_sign_certificates
    &&& p.can_sign_crls
    &&& p.unconstrained_authority
}

/// Builds the canonical root profile.
pub fn root_ca_profile() -> (p: CaProfile)
    ensures
        is_root_profile(p),
{
    CaProfile {
        common_name: String::from_str("<HTTP-MITM-PROXY CA>"),
        can_sign_certificates: true,
        can_sign_crls: true,
        unconstrained_authority: true,
    }
}

/// Which fatal startup failure occurred.  Any of them ends the process
/// before any connection is accepted; none has a recovery path.
#[derive(Clone, Copy, PartialEq, Eq, Structural, Debug)]
pub enum FatalError {
    KeygenFailed,
    SelfSignFailed,
    BindFailed,
}

/// Relies on rcgen::KeyPair::generate: a fresh random ECDSA P-256 key
/// pair, or an error.  The outcome is random; nothing is promised of it.
#[verifier::external_body]
fn generate_key_pair() -> Result<rcgen::KeyPair, rcgen::Error> {
    rcgen::KeyPair::generate()
}

/// Relies on rcgen::CertificateParams::self_signed.  The requires pins the
/// profile, so the parameters built here encode exactly that profile: its
/// common name, the certificate- and CRL-signing key usages, and an
/// unconstrained certificate authority.  Signing uses randomness; nothing
/// is promised of the outcome.
#[verifier::external_body]
fn self_sign_root(profile: &CaProfile, key: &rcgen::KeyPair) -> Result<
    rcgen::Certificate,
    rcgen::Error,
>
    requires
        is_root_profile(*profile),
{
    let mut params = rcgen::CertificateParams::default();
    params.distinguished_name = rcgen::DistinguishedName::new();
    params.distinguished_name.push(
        rcgen::DnType::CommonName,
        rcgen::DnValue::Utf8String(profile.common_name.clone()),
    );
    params.key_usages = vec![
        rcgen::KeyUsagePurpose::KeyCertSign,
        rcgen::KeyUsagePurpose::CrlSign,
    ];
    params.is_ca = rcgen::IsCa::Ca(rcgen::BasicConstraints::Unconstrained);
    params.self_signed(key)
}

/// The process-lifetime root material: the self-signed certificate, its
/// key pair, and the profile it was minted under.  Generated once per
/// start, never persisted.
pub struct RootMaterial {
    pub profile: CaProfile,
    pub certificate: rcgen::Certificate,
    pub key_pair: rcgen::KeyPair,
}

/// Generates the root key pair and self-signs the root certificate under
/// the canonical relay profile.  Either step failing is fatal, and the
/// error names the step that failed; on success the material carries the
/// canonical profile.
pub fn make_root_cert() -> (r: Result<RootMaterial, FatalError>)
    ensures
        r matches Ok(m) ==> is_root_profile(m.profile),
        r matches Err(e) ==> (e == FatalError::KeygenFailed || e == FatalError::SelfSignFailed),
{
    let profile = root_ca_profile();
    let key_pair = match generate_key_pair() {
        Ok(k) => k,
        Err(_) => { return Err(FatalError::KeygenFailed) },
    };
    let certificate = match self_sign_root(&profile, &key_pair) {
        Ok(c) => c,
        Err(_) => { return Err(FatalError::SelfSignFailed) },
    };
    Ok(RootMaterial { profile, certificate, key_pair })
}

} // verus!
