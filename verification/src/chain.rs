//! Report-chain validation: the structural and binding rules every
//! evidence envelope must satisfy, shared by both verifier strategies.
//!
//! The rules: the chain is non-empty and headed by a controller report.
//! Without a delegation token the chain is exactly one report, bound
//! directly to the session digest. With a token the controller is bound to
//! SHA-384 of the token, and exactly one further report of role metadata
//! or workload is bound directly to the session digest — delegation is
//! exactly one hop deep. Any other shape is malformed.

use vstd::prelude::*;

use crate::claims::{
    default_controller_payload, parse_tee_evidence, spec_default_controller_resources, Claims,
};
use crate::errors::{Role, VerifyError};
use crate::evidence::{binding_matches, role_of, spec_binding48, spec_role_of, RAEvidence};
use crate::hashing::{expected_hash, spec_text_digest};

verus! {

/// What a structurally valid chain asks for next: a single self-attested
/// controller stands on its own; a delegated chain still needs its token
/// verified by the external delegation-token verifier.
pub enum ChainOutcome {
    SelfAttested,
    Delegated { token: String, second_role: Role },
}

/// What one evaluation call decides: finished claims for a self-attested
/// controller, or a chain that passed every local check and now awaits the
/// external delegation-token verifier.
pub enum Evaluation {
    Complete(Claims),
    AwaitDelegation { token: String, second_role: Role },
}

/// Concludes a fully checked chain: a self-attested controller receives
/// the default controller claims at once; a delegated chain hands its
/// token on to the external delegation-token verifier.
pub fn conclude_chain_outcome(ev: &RAEvidence, outcome: ChainOutcome) -> (r: Evaluation)
    ensures
        match outcome {
            ChainOutcome::SelfAttested => r matches Evaluation::Complete(c)
                && c.authorized_res.deep_view() == spec_default_controller_resources(),
            ChainOutcome::Delegated { token, second_role } => r == (Evaluation::AwaitDelegation {
                token,
                second_role,
            }),
        },
{
    match outcome {
        ChainOutcome::SelfAttested => {
            let payload = default_controller_payload();
            Evaluation::Complete(parse_tee_evidence(ev, &payload))
        },
        ChainOutcome::Delegated { token, second_role } => Evaluation::AwaitDelegation {
            token,
            second_role,
        },
    }
}

/// The chain assessment of an envelope against a session digest: either
/// the outcome of a well-shaped, well-bound chain, or the first failing
/// rule's error.
pub open spec fn spec_chain_assess(ev: RAEvidence, digest: Seq<u8>) -> Result<
    ChainOutcome,
    VerifyError,
> {
    let reports = ev.attestation_reports@;
    if reports.len() == 0 {
        Err(VerifyError::MalformedEvidence)
    } else if spec_role_of(reports[0].attester@) != Some(Role::Controller) {
        Err(VerifyError::MalformedEvidence)
    } else {
        let controller = reports[0].attestation_report;
        match ev.crp_token {
            None => {
                if reports.len() > 1 {
                    Err(VerifyError::MalformedEvidence)
                } else if spec_binding48(controller) != digest {
                    Err(VerifyError::BindingMismatch(Role::Controller))
                } else {
                    Ok(ChainOutcome::SelfAttested)
                }
            },
            Some(token) => {
                if spec_binding48(controller) != spec_text_digest(token@) {
                    Err(VerifyError::BindingMismatch(Role::Controller))
                } else if reports.len() != 2 {
                    Err(VerifyError::MalformedEvidence)
                } else {
                    match spec_role_of(reports[1].attester@) {
                        Some(Role::Metadata) => {
                            if spec_binding48(reports[1].attestation_report) != digest {
                                Err(VerifyError::BindingMismatch(Role::Metadata))
                            } else {
                                Ok(ChainOutcome::Delegated { token, second_role: Role::Metadata })
                            }
                        },
                        Some(Role::Workload) => {
                            if spec_binding48(reports[1].attestation_report) != digest {
                                Err(VerifyError::BindingMismatch(Role::Workload))
                            } else {
                                Ok(ChainOutcome::Delegated { token, second_role: Role::Workload })
                            }
                        },
                        _ => Err(VerifyError::MalformedEvidence),
                    }
                }
            },
        }
    }
}

/// Validates the shape and bindings of an evidence envelope against the
/// session digest.
pub fn chain_assess(ev: &RAEvidence, digest: &Vec<u8>) -> (r: Result<ChainOutcome, VerifyError>)
    requires
        digest@.len() == 48,
    ensures
        r == spec_chain_assess(*ev, digest@),
{
    if ev.attestation_reports.len() == 0 {
        return Err(VerifyError::MalformedEvidence);
    }
    if role_of(&ev.attestation_reports[0].attester) != Some(Role::Controller) {
        return Err(VerifyError::MalformedEvidence);
    }
    let controller = &ev.attestation_reports[0].attestation_report;
    match &ev.crp_token {
        None => {
            if ev.attestation_reports.len() > 1 {
                Err(VerifyError::MalformedEvidence)
            } else if !binding_matches(controller, digest) {
                Err(VerifyError::BindingMismatch(Role::Controller))
            } else {
                Ok(ChainOutcome::SelfAttested)
            }
        },
        Some(token) => {
            let token_digest = expected_hash(token.as_str());
            if !binding_matches(controller, &token_digest) {
                return Err(VerifyError::BindingMismatch(Role::Controller));
            }
            if ev.attestation_reports.len() != 2 {
                return Err(VerifyError::MalformedEvidence);
            }
            let second = &ev.attestation_reports[1];
            match role_of(&second.attester) {
                Some(Role::Metadata) => {
                    if !binding_matches(&second.attestation_report, digest) {
                        Err(VerifyError::BindingMismatch(Role::Metadata))
                    } else {
                        Ok(
                            ChainOutcome::Delegated {
                                token: token.clone(),
                                second_role: Role::Metadata,
                            },
                        )
                    }
                },
                Some(Role::Workload) => {
                    if !binding_matches(&second.attestation_report, digest) {
                        Err(VerifyError::BindingMismatch(Role::Workload))
                    } else {
                        Ok(
                            ChainOutcome::Delegated {
                                token: token.clone(),
                                second_role: Role::Workload,
                            },
                        )
                    }
                },
                _ => Err(VerifyError::MalformedEvidence),
            }
        },
    }
}

/// Evidence with an empty report sequence is always malformed, whatever
/// the digest or token.
pub proof fn lemma_empty_chain_malformed(ev: RAEvidence, digest: Seq<u8>)
    requires
        ev.attestation_reports@.len() == 0,
    ensures
        spec_chain_assess(ev, digest) == Err::<ChainOutcome, VerifyError>(
            VerifyError::MalformedEvidence,
        ),
{
}

/// Evidence whose first report does not carry the controller role tag is
/// always malformed, whatever the digest or token.
pub proof fn lemma_first_not_controller_malformed(ev: RAEvidence, digest: Seq<u8>)
    requires
        ev.attestation_reports@.len() > 0,
        spec_role_of(ev.attestation_reports@[0].attester@) != Some(Role::Controller),
    ensures
        spec_chain_assess(ev, digest) == Err::<ChainOutcome, VerifyError>(
            VerifyError::MalformedEvidence,
        ),
{
}

/// With a delegation token present, the controller's binding field must
/// equal SHA-384 of the token: any other binding — in particular the one
/// obtained by altering the token — is a binding mismatch at the
/// controller tier.
pub proof fn lemma_token_binding_required(ev: RAEvidence, digest: Seq<u8>, token: String)
    requires
        ev.attestation_reports@.len() > 0,
        spec_role_of(ev.attestation_reports@[0].attester@) == Some(Role::Controller),
        ev.crp_token == Some(token),
        spec_binding48(ev.attestation_reports@[0].attestation_report) != spec_text_digest(token@),
    ensures
        spec_chain_assess(ev, digest) == Err::<ChainOutcome, VerifyError>(
            VerifyError::BindingMismatch(Role::Controller),
        ),
{
}

} // verus!
