//! The emulated-path verifier strategy: signature checks are replaced by
//! equality checks of each report's measurement against a reference
//! identity supplied through configuration, selected per role.

use vstd::prelude::*;

use crate::claims::{
    default_controller_payload, parse_tee_evidence, spec_default_controller_resources,
};
use crate::chain::{spec_chain_assess, ChainOutcome, Evaluation};
use crate::errors::{Role, VerifyError};
use crate::evidence::{
    binding_matches, measurement_matches, role_of, spec_binding48, spec_role_of, RAEvidence,
    TeePubKey,
};
use crate::hashing::{expected_hash, session_binding_digest, spec_session_digest, spec_text_digest};

verus! {

/// The guest security-version number that marks a second-tier workload
/// report as emulated even when the process-wide emulation flag is off.
pub const EMULATED_GUEST_SVN: u32 = 0xffff_ffff;

/// Configuration for the emulated path: the emulation-mode toggle and the
/// named reference identities, one per role.
pub struct EmulatedConfig {
    pub emulated: bool,
    pub controller_id: String,
    pub metadata_id: String,
    pub workload_id: String,
}

impl Default for EmulatedConfig {
    /// The fixed fallback reference identities, with emulation off.
    fn default() -> (c: Self)
        ensures
            !c.emulated,
            c.controller_id@ == "cc_cfs_controller_2024"@,
            c.metadata_id@ == "cc_cfs_metadata_2024"@,
            c.workload_id@ == "cc_cfs_workload_2024"@,
    {
        EmulatedConfig {
            emulated: false,
            controller_id: String::from_str("cc_cfs_controller_2024"),
            metadata_id: String::from_str("cc_cfs_metadata_2024"),
            workload_id: String::from_str("cc_cfs_workload_2024"),
        }
    }
}

/// The emulated-path verifier strategy.
pub struct Challenge {
    pub config: EmulatedConfig,
}

/// The reference measurement a role must carry on the emulated path.
pub open spec fn spec_reference_measurement(cfg: EmulatedConfig, role: Role) -> Seq<u8> {
    match role {
        Role::Controller => spec_text_digest(cfg.controller_id@),
        Role::Metadata => spec_text_digest(cfg.metadata_id@),
        Role::Workload => spec_text_digest(cfg.workload_id@),
    }
}

/// The full decision of the emulated path over an envelope: the chain
/// rules of `spec_chain_assess`, with each tier additionally required to
/// carry its reference measurement, and with the tiers gated by the
/// emulation mode. The hardware path for a non-emulated tier is not
/// implemented and is rejected as unsupported rather than guessed at.
pub open spec fn spec_challenge_assess(ev: RAEvidence, digest: Seq<u8>, cfg: EmulatedConfig) -> Result<
    ChainOutcome,
    VerifyError,
> {
    let reports = ev.attestation_reports@;
    if reports.len() == 0 {
        Err(VerifyError::MalformedEvidence)
    } else if spec_role_of(reports[0].attester@) != Some(Role::Controller) {
        Err(VerifyError::MalformedEvidence)
    } else if !cfg.emulated {
        Err(VerifyError::UnsupportedPath(Role::Controller))
    } else if reports[0].attestation_report.measurement@ != spec_reference_measurement(
        cfg,
        Role::Controller,
    ) {
        Err(VerifyError::SignatureInvalid(Role::Controller))
    } else {
        let controller = reports[0].attestation_report;
        match ev.crp_token {
            None => {
                if reports.len() > 1 {
                    Err(VerifyError::MalformedEvidence)
                } else if spec_binding48(controller) != digest {
                    Err(VerifyError::BindingMismatch(Role::Controller))
                } else {
                    Ok(ChainOutcome::SelfAttested)
                }
            },
            Some(token) => {
                if spec_binding48(controller) != spec_text_digest(token@) {
                    Err(VerifyError::BindingMismatch(Role::Controller))
                } else if reports.len() != 2 {
                    Err(VerifyError::MalformedEvidence)
                } else {
                    match spec_role_of(reports[1].attester@) {
                        Some(Role::Metadata) => spec_second_tier_assess(
                            ev,
                            digest,
                            cfg,
                            token,
                            Role::Metadata,
                            cfg.emulated,
                        ),
                        Some(Role::Workload) => spec_second_tier_assess(
                            ev,
                            digest,
                            cfg,
                            token,
                            Role::Workload,
                            cfg.emulated || reports[1].attestation_report.guest_svn
                                == EMULATED_GUEST_SVN,
                        ),
                        _ => Err(VerifyError::MalformedEvidence),
                    }
                }
            },
        }
    }
}

/// The emulated-path rules for the second tier of a delegated chain: the
/// tier must be allowed to use reference-identity matching, carry its
/// role's reference measurement, and bind directly to the session digest.
pub open spec fn spec_second_tier_assess(
    ev: RAEvidence,
    digest: Seq<u8>,
    cfg: EmulatedConfig,
    token: String,
    role: Role,
    emulation_allowed: bool,
) -> Result<ChainOutcome, VerifyError> {
    let second = ev.attestation_reports@[1].attestation_report;
    if !emulation_allowed {
        Err(VerifyError::UnsupportedPath(role))
    } else if second.measurement@ != spec_reference_measurement(cfg, role) {
        Err(VerifyError::SignatureInvalid(role))
    } else if spec_binding48(second) != digest {
        Err(VerifyError::BindingMismatch(role))
    } else {
        Ok(ChainOutcome::Delegated { token, second_role: role })
    }
}

impl Challenge {
    /// A verifier with an explicit emulated-path configuration.
    pub fn new(config: EmulatedConfig) -> (s: Self)
        ensures
            s.config == config,
    {
        Challenge { config }
    }

    /// Evaluates an evidence envelope against a session nonce and requester
    /// key on the emulated path. All-or-nothing: the result is claims for a
    /// valid self-attested controller, a request for external delegation
    /// verification for a valid two-tier chain, or the first failing
    /// check's error — exactly as `spec_challenge_assess` decides.
    pub fn evaluate(&self, nonce: &str, ev: &RAEvidence, tee_pubkey: &TeePubKey) -> (r: Result<
        Evaluation,
        VerifyError,
    >)
        ensures
            ({
                let assess = spec_challenge_assess(
                    *ev,
                    spec_session_digest(nonce@, tee_pubkey.k_mod@, tee_pubkey.k_exp@),
                    self.config,
                );
                match r {
                    Err(e) => assess == Err::<ChainOutcome, VerifyError>(e),
                    Ok(Evaluation::Complete(c)) => assess == Ok::<ChainOutcome, VerifyError>(
                        ChainOutcome::SelfAttested,
                    ) && c.authorized_res.deep_view() == spec_default_controller_resources(),
                    Ok(Evaluation::AwaitDelegation { token, second_role }) => assess == Ok::<
                        ChainOutcome,
                        VerifyError,
                    >(ChainOutcome::Delegated { token, second_role }),
                }
            }),
    {
        let digest = session_binding_digest(nonce, tee_pubkey);
        if ev.attestation_reports.len() == 0 {
            return Err(VerifyError::MalformedEvidence);
        }
        if role_of(&ev.attestation_reports[0].attester) != Some(Role::Controller) {
            return Err(VerifyError::MalformedEvidence);
        }
        if !self.config.emulated {
            return Err(VerifyError::UnsupportedPath(Role::Controller));
        }
        let controller = &ev.attestation_reports[0].attestation_report;
        let controller_reference = expected_hash(self.config.controller_id.as_str());
        if !measurement_matches(&controller.measurement, &controller_reference) {
            return Err(VerifyError::SignatureInvalid(Role::Controller));
        }
        match &ev.crp_token {
            None => {
                if ev.attestation_reports.len() > 1 {
                    Err(VerifyError::MalformedEvidence)
                } else if !binding_matches(controller, &digest) {
                    Err(VerifyError::BindingMismatch(Role::Controller))
                } else {
                    let payload = default_controller_payload();
                    Ok(Evaluation::Complete(parse_tee_evidence(ev, &payload)))
                }
            },
            Some(token) => {
                let token_digest = expected_hash(token.as_str());
                if !binding_matches(controller, &token_digest) {
                    return Err(VerifyError::BindingMismatch(Role::Controller));
                }
                if ev.attestation_reports.len() != 2 {
                    return Err(VerifyError::MalformedEvidence);
                }
                let second = &ev.attestation_reports[1];
                match role_of(&second.attester) {
                    Some(Role::Metadata) => self.check_second_tier(
                        ev,
                        &digest,
                        token,
                        Role::Metadata,
                        self.config.emulated,
                    ),
                    Some(Role::Workload) => self.check_second_tier(
                        ev,
                        &digest,
                        token,
                        Role::Workload,
                        self.config.emulated || second.attestation_report.guest_svn
                            == EMULATED_GUEST_SVN,
                    ),
                    _ => Err(VerifyError::MalformedEvidence),
                }
            },
        }
    }

    /// Checks the second tier of a delegated chain on the emulated path:
    /// the tier must be allowed to emulate, match its reference
    /// measurement, and bind directly to the session digest.
    fn check_second_tier(
        &self,
        ev: &RAEvidence,
        digest: &Vec<u8>,
        token: &String,
        role: Role,
        emulation_allowed: bool,
    ) -> (r: Result<Evaluation, VerifyError>)
        requires
            ev.attestation_reports@.len() == 2,
            digest@.len() == 48,
        ensures
            ({
                let assess = spec_second_tier_assess(
                    *ev,
                    digest@,
                    self.config,
                    *token,
                    role,
                    emulation_allowed,
                );
                match r {
                    Err(e) => assess == Err::<ChainOutcome, VerifyError>(e),
                    Ok(Evaluation::AwaitDelegation { token: t, second_role }) => assess == Ok::<
                        ChainOutcome,
                        VerifyError,
                    >(ChainOutcome::Delegated { token: t, second_role }),
                    Ok(Evaluation::Complete(_)) => false,
                }
            }),
    {
        let second = &ev.attestation_reports[1].attestation_report;
        if !emulation_allowed {
            return Err(VerifyError::UnsupportedPath(role));
        }
        let reference = match role {
            Role::Controller => expected_hash(self.config.controller_id.as_str()),
            Role::Metadata => expected_hash(self.config.metadata_id.as_str()),
            Role::Workload => expected_hash(self.config.workload_id.as_str()),
        };
        if !measurement_matches(&second.measurement, &reference) {
            return Err(VerifyError::SignatureInvalid(role));
        }
        if !binding_matches(second, digest) {
            return Err(VerifyError::BindingMismatch(role));
        }
        Ok(Evaluation::AwaitDelegation { token: token.clone(), second_role: role })
    }
}

/// Valid single-tier evidence bound directly to the session digest is
/// accepted, with nothing further owed: an emulated controller whose
/// measurement matches its reference identity, alone in the chain, with no
/// token, and bound to the digest, always assesses to self-attestation —
/// and the evaluation then returns the default controller claims.
pub proof fn lemma_single_tier_success(ev: RAEvidence, digest: Seq<u8>, cfg: EmulatedConfig)
    requires
        cfg.emulated,
        ev.attestation_reports@.len() == 1,
        spec_role_of(ev.attestation_reports@[0].attester@) == Some(Role::Controller),
        ev.attestation_reports@[0].attestation_report.measurement@ == spec_reference_measurement(
            cfg,
            Role::Controller,
        ),
        ev.crp_token is None,
        spec_binding48(ev.attestation_reports@[0].attestation_report) == digest,
    ensures
        spec_challenge_assess(ev, digest, cfg) == Ok::<ChainOutcome, VerifyError>(
            ChainOutcome::SelfAttested,
        ),
{
}

/// Evidence with an empty report sequence always fails as malformed,
/// whatever the digest, token, or configuration.
pub proof fn lemma_challenge_empty_malformed(ev: RAEvidence, digest: Seq<u8>, cfg: EmulatedConfig)
    requires
        ev.attestation_reports@.len() == 0,
    ensures
        spec_challenge_assess(ev, digest, cfg) == Err::<ChainOutcome, VerifyError>(
            VerifyError::MalformedEvidence,
        ),
{
}

/// Evidence whose first report does not carry the controller role tag
/// always fails as malformed, whatever the digest, token, or
/// configuration.
pub proof fn lemma_challenge_first_not_controller(
    ev: RAEvidence,
    digest: Seq<u8>,
    cfg: EmulatedConfig,
)
    requires
        ev.attestation_reports@.len() > 0,
        spec_role_of(ev.attestation_reports@[0].attester@) != Some(Role::Controller),
    ensures
        spec_challenge_assess(ev, digest, cfg) == Err::<ChainOutcome, VerifyError>(
            VerifyError::MalformedEvidence,
        ),
{
}

/// With a delegation token present, an otherwise-valid controller whose
/// binding field is anything but SHA-384 of that token — in particular the
/// binding left behind after the token is altered — is a binding mismatch
/// at the controller tier.
pub proof fn lemma_challenge_token_binding(
    ev: RAEvidence,
    digest: Seq<u8>,
    cfg: EmulatedConfig,
    token: String,
)
    requires
        cfg.emulated,
        ev.attestation_reports@.len() > 0,
        spec_role_of(ev.attestation_reports@[0].attester@) == Some(Role::Controller),
        ev.attestation_reports@[0].attestation_report.measurement@ == spec_reference_measurement(
            cfg,
            Role::Controller,
        ),
        ev.crp_token == Some(token),
        spec_binding48(ev.attestation_reports@[0].attestation_report) != spec_text_digest(token@),
    ensures
        spec_challenge_assess(ev, digest, cfg) == Err::<ChainOutcome, VerifyError>(
            VerifyError::BindingMismatch(Role::Controller),
        ),
{
}

/// With emulation on and every present tier carrying its reference
/// measurement, the emulated path decides exactly as the shared chain
/// rules do: it adds no acceptance and loses none.
pub proof fn lemma_challenge_refines_chain(ev: RAEvidence, digest: Seq<u8>, cfg: EmulatedConfig)
    requires
        cfg.emulated,
        ev.attestation_reports@.len() > 0 ==> ev.attestation_reports@[0].attestation_report.measurement@
            == spec_reference_measurement(cfg, Role::Controller),
        ev.attestation_reports@.len() == 2 && spec_role_of(ev.attestation_reports@[1].attester@)
            == Some(Role::Metadata) ==> ev.attestation_reports@[1].attestation_report.measurement@
            == spec_reference_measurement(cfg, Role::Metadata),
        ev.attestation_reports@.len() == 2 && spec_role_of(ev.attestation_reports@[1].attester@)
            == Some(Role::Workload) ==> ev.attestation_reports@[1].attestation_report.measurement@
            == spec_reference_measurement(cfg, Role::Workload),
    ensures
        spec_challenge_assess(ev, digest, cfg) == spec_chain_assess(ev, digest),
{
}


} // verus!
