//! Session binding digests: SHA-384 over the nonce and the requester key.

use sha2::Digest;
use vstd::prelude::*;
use vstd::string::StringSliceAdditionalSpecFns;
use vstd::utf8::encode_utf8;

use crate::codec::append_bytes;
use crate::evidence::TeePubKey;

verus! {

/// The SHA-384 digest of a byte string. Computed only by the trusted
/// wrapper around the sha2 crate below; it is a function of the bytes alone.
pub uninterp spec fn sha384_of(data: Seq<u8>) -> Seq<u8>;

/// Relies on sha2::Sha384 (through `Digest::digest`): the result is the
/// SHA-384 digest of `data`, a function of the input bytes alone, and the
/// digest is always 48 bytes long.
#[verifier::external_body]
fn sha384(data: &[u8]) -> (r: Vec<u8>)
    ensures
        r@ == sha384_of(data@),
        r@.len() == 48,
{
    sha2::Sha384::digest(data).to_vec()
}

/// The digest of a text's UTF-8 encoding; used for delegation tokens and
/// for reference identities on the emulated path.
pub open spec fn spec_text_digest(s: Seq<char>) -> Seq<u8> {
    sha384_of(encode_utf8(s))
}

/// The session binding digest: SHA-384 over nonce ‖ key modulus ‖ key
/// exponent. It must reappear in a report's binding field, directly or as
/// the hashed preimage of a delegation token.
pub open spec fn spec_session_digest(nonce: Seq<char>, k_mod: Seq<char>, k_exp: Seq<char>) -> Seq<u8> {
    sha384_of(encode_utf8(nonce) + encode_utf8(k_mod) + encode_utf8(k_exp))
}

/// The SHA-384 digest of a text's UTF-8 bytes, as the delegation protocol
/// expects it: the hash a controller report must carry when it vouches for
/// a delegation token.
pub fn expected_hash(data: &str) -> (r: Vec<u8>)
    ensures
        r@ == spec_text_digest(data@),
        r@.len() == 48,
{
    sha384(data.as_bytes())
}

/// Computes the session binding digest for one evaluation call.
pub fn session_binding_digest(nonce: &str, tee_pubkey: &TeePubKey) -> (r: Vec<u8>)
    ensures
        r@ == spec_session_digest(nonce@, tee_pubkey.k_mod@, tee_pubkey.k_exp@),
        r@.len() == 48,
{
    let mut buf: Vec<u8> = Vec::new();
    append_bytes(&mut buf, nonce.as_bytes());
    append_bytes(&mut buf, tee_pubkey.k_mod.as_str().as_bytes());
    append_bytes(&mut buf, tee_pubkey.k_exp.as_str().as_bytes());
    assert(buf@ =~= encode_utf8(nonce@) + encode_utf8(tee_pubkey.k_mod@) + encode_utf8(
        tee_pubkey.k_exp@,
    ));
    sha384(buf.as_slice())
}

/// The session digest padded to the full 64-byte width of a binding field:
/// the digest in the low 48 bytes, zeroes in the unchecked high 16.
pub fn calculate_expected_report_data(nonce: &str, tee_pubkey: &TeePubKey) -> (r: Vec<u8>)
    ensures
        r@.len() == 64,
        r@.subrange(0, 48) == spec_session_digest(nonce@, tee_pubkey.k_mod@, tee_pubkey.k_exp@),
        forall|i: int| 48 <= i < 64 ==> r@[i] == 0u8,
{
    let mut r = session_binding_digest(nonce, tee_pubkey);
    let ghost digest = r@;
    let mut i: usize = 0;
    while i < 16
        invariant
            0 <= i <= 16,
            r@ == digest + Seq::<u8>::new(i as nat, |j: int| 0u8),
            digest.len() == 48,
        decreases 16 - i,
    {
        r.push(0u8);
        assert(r@ =~= digest + Seq::<u8>::new((i + 1) as nat, |j: int| 0u8));
        i += 1;
    }
    assert(r@.subrange(0, 48) =~= digest);
    r
}

} // verus!
