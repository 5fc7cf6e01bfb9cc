//! The verified trust payload and the caller-facing claims document.

use vstd::prelude::*;

use crate::evidence::RAEvidence;

verus! {

/// The runtime tag carried by a trust payload produced for a bare
/// controller report.
pub const RUNTIME_TEE: &'static str = "tee";

/// The trust payload produced once chain, signature, and delegation checks
/// all succeed: a runtime tag, the authorized-resource set, and runtime-bound
/// resource values. It is consumed once, to build the claims document.
pub struct CRPTPayload {
    pub runtime: String,
    pub authorized_res: Vec<String>,
    pub runtime_res: Vec<(String, String)>,
}

/// The caller-facing claims document; its sole field is the
/// authorized-resource set.
pub struct Claims {
    pub authorized_res: Vec<String>,
}

/// The fixed default authorization set granted to a bare, self-attested
/// controller report.
pub open spec fn spec_default_controller_resources() -> Seq<Seq<char>> {
    seq!["default/controller/attestation"@]
}

/// The default authorization set for a bare controller report.
pub fn default_authed_res_for_controller() -> (r: Vec<String>)
    ensures
        r.deep_view() == spec_default_controller_resources(),
{
    let mut v: Vec<String> = Vec::new();
    v.push(String::from_str("default/controller/attestation"));
    assert(v.deep_view() =~= spec_default_controller_resources());
    v
}

/// The default trust payload for a self-attested controller: the fixed
/// default resource set, and no runtime-bound resources.
pub fn default_controller_payload() -> (p: CRPTPayload)
    ensures
        p.runtime@ == RUNTIME_TEE@,
        p.authorized_res.deep_view() == spec_default_controller_resources(),
        p.runtime_res@.len() == 0,
{
    CRPTPayload {
        runtime: String::from_str(RUNTIME_TEE),
        authorized_res: default_authed_res_for_controller(),
        runtime_res: Vec::new(),
    }
}

/// The authorized-resource set of a payload, as its own vector.
pub fn authed_res(crpt_payload: &CRPTPayload) -> (r: Vec<String>)
    ensures
        r.deep_view() == crpt_payload.authorized_res.deep_view(),
{
    let mut v: Vec<String> = Vec::new();
    let n = crpt_payload.authorized_res.len();
    let mut i: usize = 0;
    while i < n
        invariant
            0 <= i <= n,
            n == crpt_payload.authorized_res@.len(),
            v@.len() == i,
            forall|j: int| 0 <= j < i ==> v@[j]@ == crpt_payload.authorized_res@[j]@,
        decreases n - i,
    {
        v.push(crpt_payload.authorized_res[i].clone());
        i += 1;
    }
    assert(v.deep_view() =~= crpt_payload.authorized_res.deep_view());
    v
}

/// Renders a verified trust payload into the claims document handed back
/// to the caller. The evidence itself contributes no further fields.
pub fn parse_tee_evidence(_quote: &RAEvidence, crpt_payload: &CRPTPayload) -> (c: Claims)
    ensures
        c.authorized_res.deep_view() == crpt_payload.authorized_res.deep_view(),
{
    Claims { authorized_res: authed_res(crpt_payload) }
}

} // verus!
