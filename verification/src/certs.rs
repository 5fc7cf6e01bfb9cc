//! Certificate trust material and the hardware report checks that lean on
//! it: strict ordered chain validation, report signature verification, and
//! the cross-check of leaf-certificate extension fields against the fields
//! the report claims.

use openssl::bn::BigNum;
use openssl::ecdsa::EcdsaSig;
use openssl::x509::X509;
use std::borrow::Cow;
use vstd::prelude::*;
use x509_parser::prelude::FromDer;

use crate::codec::{
    decode_extension_octets, decode_small_int, signed_region, spec_decode_extension_octets,
    spec_decode_small_int, spec_signed_region,
};
use crate::errors::{ProcessorFamily, VerifyError};
use crate::evidence::{bytes_match, AttestationReport};

verus! {

/// Whether the public key of the certificate `parent_der` verifies the
/// signature on the certificate `child_der`; a function of the two DER
/// byte strings alone. Decided only by the trusted wrapper below.
pub uninterp spec fn spec_cert_link_ok(child_der: Seq<u8>, parent_der: Seq<u8>) -> bool;

/// Relies on openssl's X509::verify, with X509::from_der and
/// X509::public_key converting the arguments: whether `parent_der`'s public
/// key verifies the signature on `child_der`. A certificate that does not
/// parse, a key that cannot be extracted, or a failed verification all
/// count as not verifying.
#[verifier::external_body]
fn cert_link_verifies(child_der: &Vec<u8>, parent_der: &Vec<u8>) -> (r: bool)
    ensures
        r == spec_cert_link_ok(child_der@, parent_der@),
{
    let child = X509::from_der(child_der).ok();
    let key = X509::from_der(parent_der).ok().and_then(|p| p.public_key().ok());
    match (child, key) {
        (Some(c), Some(k)) => matches!(c.verify(&k), Ok(true)),
        _ => false,
    }
}

/// Whether the ECDSA signature with big-endian components `sig_r`, `sig_s`
/// verifies over `data` under the public key of the certificate
/// `cert_der`; a function of the four byte strings alone. Decided only by
/// the trusted wrapper below.
pub uninterp spec fn spec_report_sig_ok(
    sig_r: Seq<u8>,
    sig_s: Seq<u8>,
    data: Seq<u8>,
    cert_der: Seq<u8>,
) -> bool;

/// Relies on openssl's EcdsaSig::verify, with X509::from_der,
/// X509::public_key, PKey::ec_key, BigNum::from_slice and
/// EcdsaSig::from_private_components converting the arguments: whether the
/// signature (`sig_r`, `sig_s`) verifies over `data` under the public key
/// of `cert_der`. Any conversion failure counts as not verifying, as does
/// a component or data larger than the bindings' signed 32-bit length
/// limit, which is rejected here rather than reaching their length
/// assertions.
#[verifier::external_body]
fn ecdsa_sig_verifies(sig_r: &Vec<u8>, sig_s: &Vec<u8>, data: &Vec<u8>, cert_der: &Vec<u8>) -> (r:
    bool)
    ensures
        r == spec_report_sig_ok(sig_r@, sig_s@, data@, cert_der@),
{
    let limit = i32::MAX as usize;
    if sig_r.len() > limit || sig_s.len() > limit || data.len() > limit {
        return false;
    }
    let rs = BigNum::from_slice(sig_r).ok().zip(BigNum::from_slice(sig_s).ok());
    let sig = rs.and_then(|(r, s)| EcdsaSig::from_private_components(r, s).ok());
    let key = X509::from_der(cert_der).ok().and_then(|c| c.public_key().ok());
    match (sig, key.and_then(|k| k.ec_key().ok())) {
        (Some(sig), Some(key)) => matches!(sig.verify(data, &key), Ok(true)),
        _ => false,
    }
}

/// The value of the unique extension of `cert_der` with the object
/// identifier whose encoded arcs are `oid`: `None` when the certificate
/// does not parse or the extension appears more than once, `Some(None)`
/// when it is absent, `Some(Some(value))` otherwise. A function of the two
/// byte strings alone; read only by the trusted wrapper below.
pub uninterp spec fn spec_cert_ext_value(cert_der: Seq<u8>, oid: Seq<u8>) -> Option<
    Option<Seq<u8>>,
>;

/// Relies on x509-parser's X509Certificate::from_der and
/// TbsCertificate::get_extension_unique, with asn1-rs's Oid::new converting
/// the identifier's encoded arc bytes: the value of the unique extension
/// with that identifier, as `spec_cert_ext_value` describes it.
#[verifier::external_body]
fn cert_extension_value(cert_der: &Vec<u8>, oid: &Vec<u8>) -> (r: Option<Option<Vec<u8>>>)
    ensures
        ({
            let s = spec_cert_ext_value(cert_der@, oid@);
            match r {
                Some(Some(v)) => s == Some(Some(v@)),
                Some(None) => s == Some(Option::<Seq<u8>>::None),
                None => s is None,
            }
        }),
{
    let cert = match x509_parser::certificate::X509Certificate::from_der(cert_der.as_slice()) {
        Ok((_, c)) => c,
        Err(_) => return None,
    };
    let ident = x509_parser::asn1_rs::Oid::new(Cow::Borrowed(oid.as_slice()));
    match cert.tbs_certificate.get_extension_unique(&ident) {
        Ok(Some(ext)) => Some(Some(ext.value.to_vec())),
        Ok(None) => Some(None),
        Err(_) => None,
    }
}

/// The DER encodings of the certificates a PEM text holds, in stack
/// order, or `None` when the text cannot be parsed as a certificate stack
/// or a certificate cannot be re-encoded; a function of the PEM bytes
/// alone. Read only by the trusted wrapper below, which also counts a text
/// larger than the bindings' signed 32-bit length limit as unparseable.
pub uninterp spec fn spec_pem_cert_ders(pem: Seq<u8>) -> Option<Seq<Seq<u8>>>;

/// Relies on openssl's X509::stack_from_pem and X509::to_der: the parsed
/// certificates of a PEM text, each as its DER encoding, in stack order.
/// A text too large for the bindings' signed 32-bit length is rejected
/// here rather than reaching their length assertion.
#[verifier::external_body]
fn pem_stack_ders(pem: &Vec<u8>) -> (r: Option<Vec<Vec<u8>>>)
    ensures
        ({
            let s = spec_pem_cert_ders(pem@);
            match r {
                Some(ders) => s == Some(ders.deep_view()),
                None => s is None,
            }
        }),
{
    if pem.len() > i32::MAX as usize {
        return None;
    }
    let certs = X509::stack_from_pem(pem).ok()?;
    certs.iter().map(|c| c.to_der().ok()).collect()
}

/// One processor family's bundled trust anchors: the intermediate signing
/// certificate and the self-signed root, as DER bytes.
pub struct TrustBundle {
    pub ask_der: Vec<u8>,
    pub ark_der: Vec<u8>,
}

/// The bundled trust anchors of every supported processor family.
pub struct TrustStore {
    pub genoa: TrustBundle,
    pub milan: TrustBundle,
}

impl TrustStore {
    /// The spec-level anchor bundle of one family.
    pub open spec fn spec_bundle(&self, family: ProcessorFamily) -> TrustBundle {
        match family {
            ProcessorFamily::Genoa => self.genoa,
            ProcessorFamily::Milan => self.milan,
        }
    }

    /// The anchor bundle of one family.
    pub fn bundle(&self, family: ProcessorFamily) -> (b: &TrustBundle)
        ensures
            *b == self.spec_bundle(family),
    {
        match family {
            ProcessorFamily::Genoa => &self.genoa,
            ProcessorFamily::Milan => &self.milan,
        }
    }
}

/// Loads one family's trust material from a PEM text that must hold the
/// intermediate signing certificate first and the self-signed root second.
/// Exactly two certificates are required: a two-certificate stack always
/// loads, as exactly those two certificates in that order; any other
/// count, or a text that does not parse, is malformed trust material.
pub fn load_cert_chain(pem: &Vec<u8>, family: ProcessorFamily) -> (r: Result<
    TrustBundle,
    VerifyError,
>)
    ensures
        ({
            let ds = spec_pem_cert_ders(pem@);
            match r {
                Ok(bundle) => ds matches Some(v) && v.len() == 2 && bundle.ask_der@ == v[0]
                    && bundle.ark_der@ == v[1],
                Err(e) => e == VerifyError::CertificateChainInvalid(family) && !(ds matches Some(v)
                    && v.len() == 2),
            }
        }),
{
    let mut certs = match pem_stack_ders(pem) {
        Some(certs) => certs,
        None => {
            return Err(VerifyError::CertificateChainInvalid(family));
        },
    };
    if certs.len() != 2 {
        return Err(VerifyError::CertificateChainInvalid(family));
    }
    let ark_der = match certs.pop() {
        Some(der) => der,
        None => {
            return Err(VerifyError::CertificateChainInvalid(family));
        },
    };
    let ask_der = match certs.pop() {
        Some(der) => der,
        None => {
            return Err(VerifyError::CertificateChainInvalid(family));
        },
    };
    Ok(TrustBundle { ask_der, ark_der })
}

/// A leaf certificate chains to a family's anchors when every link holds:
/// the root's self-signature, the root over the intermediate, and the
/// intermediate over the leaf.
pub open spec fn spec_chain_ok(vcek_der: Seq<u8>, bundle: TrustBundle) -> bool {
    &&& spec_cert_link_ok(bundle.ark_der@, bundle.ark_der@)
    &&& spec_cert_link_ok(bundle.ask_der@, bundle.ark_der@)
    &&& spec_cert_link_ok(vcek_der, bundle.ask_der@)
}

/// Strict, ordered chain validation: root self-signature first, then root
/// over intermediate, then intermediate over leaf; each link is checked
/// independently and the first failing link invalidates the report.
pub fn verify_cert_chain(vcek_der: &Vec<u8>, bundle: &TrustBundle, family: ProcessorFamily) -> (r:
    Result<(), VerifyError>)
    ensures
        r is Ok <==> spec_chain_ok(vcek_der@, *bundle),
        r is Err ==> r == Err::<(), VerifyError>(VerifyError::CertificateChainInvalid(family)),
{
    if !cert_link_verifies(&bundle.ark_der, &bundle.ark_der) {
        return Err(VerifyError::CertificateChainInvalid(family));
    }
    if !cert_link_verifies(&bundle.ask_der, &bundle.ark_der) {
        return Err(VerifyError::CertificateChainInvalid(family));
    }
    if !cert_link_verifies(vcek_der, &bundle.ask_der) {
        return Err(VerifyError::CertificateChainInvalid(family));
    }
    Ok(())
}

/// The encoded arcs of the hardware-id extension identifier.
pub open spec fn spec_hw_id_oid() -> Seq<u8> {
    seq![0x2bu8, 0x06, 0x01, 0x04, 0x01, 0x9c, 0x78, 0x01, 0x04]
}

/// The encoded arcs of the four firmware-version extension identifiers:
/// bootloader, tee, snp, microcode.
pub open spec fn spec_spl_oid(last: u8) -> Seq<u8> {
    seq![0x2bu8, 0x06, 0x01, 0x04, 0x01, 0x9c, 0x78, 0x01, 0x03, last]
}

/// The hardware-id extension identifier, as encoded arcs.
pub fn hw_id_oid() -> (r: Vec<u8>)
    ensures
        r@ == spec_hw_id_oid(),
{
    let mut v: Vec<u8> = Vec::new();
    v.push(0x2b);
    v.push(0x06);
    v.push(0x01);
    v.push(0x04);
    v.push(0x01);
    v.push(0x9c);
    v.push(0x78);
    v.push(0x01);
    v.push(0x04);
    assert(v@ =~= spec_hw_id_oid());
    v
}

/// A firmware-version extension identifier, as encoded arcs.
pub fn spl_oid(last: u8) -> (r: Vec<u8>)
    ensures
        r@ == spec_spl_oid(last),
{
    let mut v: Vec<u8> = Vec::new();
    v.push(0x2b);
    v.push(0x06);
    v.push(0x01);
    v.push(0x04);
    v.push(0x01);
    v.push(0x9c);
    v.push(0x78);
    v.push(0x01);
    v.push(0x03);
    v.push(last);
    assert(v@ =~= spec_spl_oid(last));
    v
}

/// What the hardware-id extension of a leaf certificate decodes to when it
/// is present, unique, and holds `n` raw bytes in either historical
/// encoding.
pub open spec fn spec_get_oid_octets(cert_der: Seq<u8>, oid: Seq<u8>, n: nat) -> Option<Seq<u8>> {
    match spec_cert_ext_value(cert_der, oid) {
        Some(Some(value)) => spec_decode_extension_octets(value, n),
        _ => None,
    }
}

/// Reads an `n`-byte extension value from a leaf certificate, accepting
/// either the raw fixed-width or the DER-wrapped historical encoding.
pub fn get_oid_octets(cert_der: &Vec<u8>, oid: &Vec<u8>, n: usize) -> (r: Option<Vec<u8>>)
    ensures
        ({
            let s = spec_get_oid_octets(cert_der@, oid@, n as nat);
            match r {
                Some(v) => s == Some(v@),
                None => s is None,
            }
        }),
{
    match cert_extension_value(cert_der, oid) {
        Some(Some(value)) => decode_extension_octets(&value, n),
        _ => None,
    }
}

/// What a firmware-version extension of a leaf certificate decodes to when
/// it is present, unique, and holds a one-byte DER INTEGER.
pub open spec fn spec_get_oid_int(cert_der: Seq<u8>, oid: Seq<u8>) -> Option<u8> {
    match spec_cert_ext_value(cert_der, oid) {
        Some(Some(value)) => spec_decode_small_int(value),
        _ => None,
    }
}

/// Reads a one-byte integer extension value from a leaf certificate.
pub fn get_oid_int(cert_der: &Vec<u8>, oid: &Vec<u8>) -> (r: Option<u8>)
    ensures
        r == spec_get_oid_int(cert_der@, oid@),
{
    match cert_extension_value(cert_der, oid) {
        Some(Some(value)) => decode_small_int(&value),
        _ => None,
    }
}

/// The cross-check of a leaf certificate against the report it vouches
/// for: the certificate's hardware-id extension must decode to the
/// report's chip id, and its four firmware-version extensions to the
/// report's corresponding components.
pub open spec fn spec_report_cert_fields_ok(r: AttestationReport, cert_der: Seq<u8>) -> bool {
    &&& spec_get_oid_octets(cert_der, spec_hw_id_oid(), 64) == Some(r.chip_id@)
    &&& spec_get_oid_int(cert_der, spec_spl_oid(1)) == Some(r.reported_tcb.bootloader)
    &&& spec_get_oid_int(cert_der, spec_spl_oid(2)) == Some(r.reported_tcb.tee)
    &&& spec_get_oid_int(cert_der, spec_spl_oid(3)) == Some(r.reported_tcb.snp)
    &&& spec_get_oid_int(cert_der, spec_spl_oid(8)) == Some(r.reported_tcb.microcode)
}

/// Cross-checks the leaf certificate's extension fields against the
/// report's claimed chip id and firmware versions.
pub fn check_report_cert_fields(r: &AttestationReport, cert_der: &Vec<u8>) -> (ok: bool)
    ensures
        ok == spec_report_cert_fields_ok(*r, cert_der@),
{
    let hw = hw_id_oid();
    match get_oid_octets(cert_der, &hw, 64) {
        Some(value) => {
            if !bytes_match(r.chip_id.as_slice(), &value) {
                return false;
            }
        },
        None => {
            return false;
        },
    }
    let bl = spl_oid(1);
    if get_oid_int(cert_der, &bl) != Some(r.reported_tcb.bootloader) {
        return false;
    }
    let tee = spl_oid(2);
    if get_oid_int(cert_der, &tee) != Some(r.reported_tcb.tee) {
        return false;
    }
    let snp = spl_oid(3);
    if get_oid_int(cert_der, &snp) != Some(r.reported_tcb.snp) {
        return false;
    }
    let ucode = spl_oid(8);
    if get_oid_int(cert_der, &ucode) != Some(r.reported_tcb.microcode) {
        return false;
    }
    true
}

/// Everything a leaf certificate must establish for a report, short of the
/// chain to the trust anchors: the embedded signature verifies over the
/// report's signed region under the certificate's key, and the
/// certificate's extension fields match the report.
pub open spec fn spec_report_verified_by(r: AttestationReport, cert_der: Seq<u8>) -> bool {
    &&& spec_report_sig_ok(r.signature.r@, r.signature.s@, spec_signed_region(r), cert_der)
    &&& spec_report_cert_fields_ok(r, cert_der)
}

/// Verifies the report's embedded signature over its serialized signed
/// region, under the public key of the given leaf certificate.
pub fn verify_report_sig(r: &AttestationReport, cert_der: &Vec<u8>) -> (ok: bool)
    ensures
        ok == spec_report_sig_ok(
            r.signature.r@,
            r.signature.s@,
            spec_signed_region(*r),
            cert_der@,
        ),
{
    let data = signed_region(r);
    ecdsa_sig_verifies(&r.signature.r, &r.signature.s, &data, cert_der)
}

} // verus!
