//! The hardware-path verifier strategy: every report's signature is
//! independently verified against a vendor leaf certificate before any of
//! its fields are trusted. The processor family is not self-declared; each
//! known family's trust chain is attempted in a fixed priority order,
//! always moving to the *next* family on failure, until one succeeds or
//! all are exhausted.
//!
//! Retrieving a leaf certificate is a network call, the one external
//! suspension point; it is driven from outside through `SignatureStep`:
//! the verifier names the URL to fetch, the caller hands back what the
//! endpoint returned, and every decision in between is made — and verified
//! — here.

use vstd::prelude::*;

use crate::certs::{
    check_report_cert_fields, spec_chain_ok, spec_report_cert_fields_ok, spec_report_sig_ok,
    spec_report_verified_by, verify_cert_chain, verify_report_sig, TrustStore,
};
use crate::chain::{chain_assess, spec_chain_assess, ChainOutcome};
use crate::codec::spec_signed_region;
use crate::errors::{ProcessorFamily, Role, VerifyError};
use crate::evidence::{AttestationReport, RAEvidence, TeePubKey};
use crate::hashing::{session_binding_digest, spec_session_digest};
use crate::kds::{kds_url, spec_kds_url};

verus! {

/// The hardware-path verifier strategy, holding the bundled trust anchors
/// of every supported processor family.
pub struct Snp {
    pub store: TrustStore,
}

/// What one certificate fetch produced: the DER body of a success
/// response, or nothing for any non-success outcome.
pub enum FetchOutcome {
    Retrieved(Vec<u8>),
    Unavailable,
}

/// The next move in one report's signature check: fetch the named leaf
/// certificate, accept the report under the given family, or reject it.
pub enum SignatureStep {
    FetchCertificate { family: ProcessorFamily, url: String },
    Accepted { family: ProcessorFamily },
    Rejected { error: VerifyError },
}

/// A `SignatureStep` stripped of its URL text, for stating decisions.
pub enum SigDecision {
    TryNext(ProcessorFamily),
    Accept(ProcessorFamily),
    Reject(VerifyError),
}

/// The family tried first.
pub open spec fn spec_first_family() -> ProcessorFamily {
    ProcessorFamily::Genoa
}

/// The family tried after a failure of the given one; a failure never
/// retries the same family.
pub open spec fn spec_next_family(family: ProcessorFamily) -> Option<ProcessorFamily> {
    match family {
        ProcessorFamily::Genoa => Some(ProcessorFamily::Milan),
        ProcessorFamily::Milan => None,
    }
}

/// After a failed attempt: move to the next family, or — once every family
/// is exhausted — surface this last failure alone.
pub open spec fn spec_fallback(family: ProcessorFamily, error: VerifyError) -> SigDecision {
    match spec_next_family(family) {
        Some(next) => SigDecision::TryNext(next),
        None => SigDecision::Reject(error),
    }
}

/// The decision taken for one family's fetch outcome: a missing
/// certificate or a failed signature or chain falls through to the next
/// family; a verified chain whose extension fields contradict the report
/// rejects the report outright; otherwise the report is accepted.
pub open spec fn spec_signature_decision(
    r: AttestationReport,
    role: Role,
    store: TrustStore,
    family: ProcessorFamily,
    outcome: FetchOutcome,
) -> SigDecision {
    match outcome {
        FetchOutcome::Unavailable => spec_fallback(
            family,
            VerifyError::CertificateRetrievalFailed(family),
        ),
        FetchOutcome::Retrieved(der) => {
            if !spec_report_sig_ok(r.signature.r@, r.signature.s@, spec_signed_region(r), der@) {
                spec_fallback(family, VerifyError::SignatureInvalid(role))
            } else if !spec_chain_ok(der@, store.spec_bundle(family)) {
                spec_fallback(family, VerifyError::CertificateChainInvalid(family))
            } else if !spec_report_cert_fields_ok(r, der@) {
                SigDecision::Reject(VerifyError::CertificateChainInvalid(family))
            } else {
                SigDecision::Accept(family)
            }
        },
    }
}

/// Whether an executable step carries exactly the given decision, with the
/// URL of a fetch step pointing at the right endpoint for the report.
pub open spec fn spec_step_matches(s: SignatureStep, d: SigDecision, r: AttestationReport) -> bool {
    match s {
        SignatureStep::FetchCertificate { family, url } => d == SigDecision::TryNext(family) && url@
            == spec_kds_url(family, r),
        SignatureStep::Accepted { family } => d == SigDecision::Accept(family),
        SignatureStep::Rejected { error } => d == SigDecision::Reject(error),
    }
}

impl Snp {
    /// A hardware-path verifier over the given trust anchors.
    pub fn new(store: TrustStore) -> (s: Self)
        ensures
            s.store == store,
    {
        Snp { store }
    }

    /// The structural and binding assessment of an envelope against the
    /// session digest: the chain rules shared with the emulated path.
    /// On the hardware path every report's signature must additionally be
    /// verified through the fetch steps below before the outcome is acted
    /// on.
    pub fn assess(&self, nonce: &str, ev: &RAEvidence, tee_pubkey: &TeePubKey) -> (r: Result<
        ChainOutcome,
        VerifyError,
    >)
        ensures
            r == spec_chain_assess(
                *ev,
                spec_session_digest(nonce@, tee_pubkey.k_mod@, tee_pubkey.k_exp@),
            ),
    {
        let digest = session_binding_digest(nonce, tee_pubkey);
        chain_assess(ev, &digest)
    }

    /// Begins one report's signature check: fetch the first family's leaf
    /// certificate.
    pub fn begin_report_signature_check(&self, r: &AttestationReport) -> (s: SignatureStep)
        ensures
            spec_step_matches(s, SigDecision::TryNext(spec_first_family()), *r),
    {
        SignatureStep::FetchCertificate {
            family: ProcessorFamily::Genoa,
            url: kds_url(ProcessorFamily::Genoa, r),
        }
    }

    /// The step after a failed family attempt: the next family's fetch, or
    /// the final rejection carrying this last failure alone.
    fn fallback_step(&self, r: &AttestationReport, family: ProcessorFamily, error: VerifyError) -> (s:
        SignatureStep)
        ensures
            spec_step_matches(s, spec_fallback(family, error), *r),
    {
        match family {
            ProcessorFamily::Genoa => SignatureStep::FetchCertificate {
                family: ProcessorFamily::Milan,
                url: kds_url(ProcessorFamily::Milan, r),
            },
            ProcessorFamily::Milan => SignatureStep::Rejected { error },
        }
    }

    /// Runs one step of a report's signature check against what the
    /// key-distribution endpoint returned for `family`, deciding exactly
    /// as `spec_signature_decision` describes: verify the embedded
    /// signature over the serialized signed region under the fetched
    /// certificate's key, validate the full chain to the family's anchors,
    /// then cross-check the certificate's extension fields against the
    /// report.
    pub fn verify_report_signature(
        &self,
        r: &AttestationReport,
        role: Role,
        family: ProcessorFamily,
        outcome: &FetchOutcome,
    ) -> (s: SignatureStep)
        ensures
            spec_step_matches(s, spec_signature_decision(*r, role, self.store, family, *outcome), *r),
    {
        match outcome {
            FetchOutcome::Unavailable => self.fallback_step(
                r,
                family,
                VerifyError::CertificateRetrievalFailed(family),
            ),
            FetchOutcome::Retrieved(der) => {
                if !verify_report_sig(r, der) {
                    return self.fallback_step(r, family, VerifyError::SignatureInvalid(role));
                }
                let bundle = self.store.bundle(family);
                match verify_cert_chain(der, bundle, family) {
                    Err(e) => self.fallback_step(r, family, e),
                    Ok(()) => {
                        if !check_report_cert_fields(r, der) {
                            SignatureStep::Rejected {
                                error: VerifyError::CertificateChainInvalid(family),
                            }
                        } else {
                            SignatureStep::Accepted { family }
                        }
                    },
                }
            },
        }
    }
}

/// Cross-family fallback: when the first family's certificate cannot be
/// retrieved but the second family's certificate fully verifies the
/// report, the check moves to the second family and accepts there — the
/// first family's failure never surfaces.
pub proof fn lemma_cross_family_fallback(
    r: AttestationReport,
    role: Role,
    store: TrustStore,
    der: Vec<u8>,
)
    requires
        spec_report_verified_by(r, der@),
        spec_chain_ok(der@, store.spec_bundle(ProcessorFamily::Milan)),
    ensures
        spec_signature_decision(r, role, store, ProcessorFamily::Genoa, FetchOutcome::Unavailable)
            == SigDecision::TryNext(ProcessorFamily::Milan),
        spec_signature_decision(
            r,
            role,
            store,
            ProcessorFamily::Milan,
            FetchOutcome::Retrieved(der),
        ) == SigDecision::Accept(ProcessorFamily::Milan),
{
}


/// A failure never retries the same family: whenever a step asks for
/// another fetch, it is for the family next in the fixed priority order
/// after the one that just failed.
pub proof fn lemma_never_same_family(
    r: AttestationReport,
    role: Role,
    store: TrustStore,
    family: ProcessorFamily,
    outcome: FetchOutcome,
)
    ensures
        spec_signature_decision(r, role, store, family, outcome) matches SigDecision::TryNext(next)
            ==> Some(next) == spec_next_family(family),
{
}

/// Failed lookups for both families surface one single combined failure:
/// the first failure only moves the check along, and the last failure
/// alone is reported.
pub proof fn lemma_both_families_fail(r: AttestationReport, role: Role, store: TrustStore)
    ensures
        spec_signature_decision(r, role, store, ProcessorFamily::Genoa, FetchOutcome::Unavailable)
            == SigDecision::TryNext(ProcessorFamily::Milan),
        spec_signature_decision(r, role, store, ProcessorFamily::Milan, FetchOutcome::Unavailable)
            == SigDecision::Reject(
            VerifyError::CertificateRetrievalFailed(ProcessorFamily::Milan),
        ),
{
}

} // verus!
