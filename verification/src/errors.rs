//! Role tags, processor families, and the error taxonomy of the engine.

use vstd::prelude::*;

verus! {

/// The tier a report speaks for inside an evidence envelope.
#[derive(Clone, Copy, Debug, PartialEq, Eq, Structural)]
pub enum Role {
    Controller,
    Metadata,
    Workload,
}

/// The processor families with bundled trust anchors, in the fixed
/// priority order in which leaf-certificate retrieval is attempted.
#[derive(Clone, Copy, Debug, PartialEq, Eq, Structural)]
pub enum ProcessorFamily {
    Genoa,
    Milan,
}

/// Why an evaluation failed. Every check is fail-fast: the first failing
/// check decides the error, and no partial claims are ever produced.
#[derive(Clone, Copy, Debug, PartialEq, Eq, Structural)]
pub enum VerifyError {
    /// Empty or ill-shaped report chain, wrong first-tier role, or an
    /// unsupported role tag.
    MalformedEvidence,
    /// A binding field does not match the digest expected at that tier.
    BindingMismatch(Role),
    /// Signature verification (or, on the emulated path, the reference
    /// measurement comparison standing in for it) failed for a tier.
    SignatureInvalid(Role),
    /// A certificate chain link failed, an extension field did not match
    /// the report, or bundled trust material is malformed.
    CertificateChainInvalid(ProcessorFamily),
    /// The key-distribution endpoint returned no certificate.
    CertificateRetrievalFailed(ProcessorFamily),
    /// Delegation-token verification failed.
    DelegationFailed,
    /// The hardware path for this tier is not implemented.
    UnsupportedPath(Role),
}

impl ProcessorFamily {
    /// The family name as it appears in key-distribution URLs.
    pub fn name(&self) -> (r: &'static str)
        ensures
            *self is Genoa ==> r@ == "Genoa"@,
            *self is Milan ==> r@ == "Milan"@,
    {
        match self {
            ProcessorFamily::Genoa => "Genoa",
            ProcessorFamily::Milan => "Milan",
        }
    }
}

} // verus!
