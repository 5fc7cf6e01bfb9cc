//! The wire evidence model: reports, role tags, and the evidence envelope.

use vstd::prelude::*;

use crate::errors::Role;

verus! {

/// Requester public key material; its modulus and exponent are bound into
/// the session digest together with the nonce.
pub struct TeePubKey {
    pub k_mod: String,
    pub k_exp: String,
}

/// The four single-byte firmware/TCB version components a report claims.
#[derive(Clone, Copy, Debug, PartialEq, Eq, Structural)]
pub struct TcbVersions {
    pub bootloader: u8,
    pub tee: u8,
    pub snp: u8,
    pub microcode: u8,
}

/// An ECDSA signature as its two components, big-endian unsigned bytes.
pub struct SignatureComponents {
    pub r: Vec<u8>,
    pub s: Vec<u8>,
}

/// A hardware attestation report. The binding field (`report_data`) is
/// 64 bytes wide, but only its low 48 bytes are ever compared; the
/// remaining 16 are unchecked by design.
pub struct AttestationReport {
    pub guest_svn: u32,
    pub measurement: [u8; 48],
    pub report_data: [u8; 64],
    pub chip_id: [u8; 64],
    pub reported_tcb: TcbVersions,
    pub signature: SignatureComponents,
}

/// One report together with the role tag it claims to speak for.
pub struct AttReport {
    pub attester: String,
    pub attestation_report: AttestationReport,
}

/// The evidence envelope: an ordered sequence of reports plus an optional
/// delegation token.
pub struct RAEvidence {
    pub attestation_reports: Vec<AttReport>,
    pub crp_token: Option<String>,
}

/// The role named by a tag, if it is one of the supported tags.
pub open spec fn spec_role_of(tag: Seq<char>) -> Option<Role> {
    if tag == "controller"@ {
        Some(Role::Controller)
    } else if tag == "metadata"@ {
        Some(Role::Metadata)
    } else if tag == "workload"@ {
        Some(Role::Workload)
    } else {
        None
    }
}

/// Parses a role tag; any unsupported tag yields `None`.
pub fn role_of(tag: &String) -> (r: Option<Role>)
    ensures
        r == spec_role_of(tag@),
{
    if *tag == String::from_str("controller") {
        Some(Role::Controller)
    } else if *tag == String::from_str("metadata") {
        Some(Role::Metadata)
    } else if *tag == String::from_str("workload") {
        Some(Role::Workload)
    } else {
        None
    }
}

/// The low 48 bytes of a report's binding field: the only part that is
/// ever compared against a digest.
pub open spec fn spec_binding48(r: AttestationReport) -> Seq<u8> {
    r.report_data@.subrange(0, 48)
}

/// Whether the low 48 bytes of the report's binding field equal `digest`.
pub fn binding_matches(report: &AttestationReport, digest: &Vec<u8>) -> (b: bool)
    requires
        digest@.len() == 48,
    ensures
        b == (spec_binding48(*report) == digest@),
{
    let mut i: usize = 0;
    while i < 48
        invariant
            0 <= i <= 48,
            digest@.len() == 48,
            forall|j: int| 0 <= j < i ==> report.report_data@[j] == digest@[j],
        decreases 48 - i,
    {
        if report.report_data[i] != digest[i] {
            assert(spec_binding48(*report)[i as int] != digest@[i as int]);
            return false;
        }
        i += 1;
    }
    assert(spec_binding48(*report) =~= digest@);
    true
}

/// Whether a byte slice and a byte vector hold the same bytes.
pub fn bytes_match(a: &[u8], v: &Vec<u8>) -> (b: bool)
    ensures
        b == (a@ == v@),
{
    if a.len() != v.len() {
        return false;
    }
    let n = a.len();
    let mut i: usize = 0;
    while i < n
        invariant
            0 <= i <= n,
            n == a@.len(),
            n == v@.len(),
            forall|j: int| 0 <= j < i ==> a@[j] == v@[j],
        decreases n - i,
    {
        if a[i] != v[i] {
            return false;
        }
        i += 1;
    }
    assert(a@ =~= v@);
    true
}

/// Whether a 48-byte measurement field equals the given reference digest.
pub fn measurement_matches(measurement: &[u8; 48], reference: &Vec<u8>) -> (b: bool)
    ensures
        b == (measurement@ == reference@),
{
    bytes_match(measurement.as_slice(), reference)
}

} // verus!
