//! The binary report codec: the exact serialized byte range a report's
//! signature covers, and the decoders for certificate-extension values,
//! which appear in two historical encodings — raw fixed-width bytes or a
//! DER-wrapped value — detected by length, without configuration.

use vstd::prelude::*;

use crate::evidence::AttestationReport;

verus! {

/// The little-endian bytes of a 32-bit value.
pub open spec fn spec_u32_le(v: u32) -> Seq<u8> {
    seq![
        (v & 0xff) as u8,
        ((v >> 8) & 0xff) as u8,
        ((v >> 16) & 0xff) as u8,
        ((v >> 24) & 0xff) as u8,
    ]
}

/// The serialized byte range covered by a report's signature: every field
/// preceding the signature, in declaration order.
pub open spec fn spec_signed_region(r: AttestationReport) -> Seq<u8> {
    spec_u32_le(r.guest_svn) + r.measurement@ + r.report_data@ + r.chip_id@ + seq![
        r.reported_tcb.bootloader,
        r.reported_tcb.tee,
        r.reported_tcb.snp,
        r.reported_tcb.microcode,
    ]
}

/// Appends all of `src` to `dst`.
pub(crate) fn append_bytes(dst: &mut Vec<u8>, src: &[u8])
    ensures
        final(dst)@ == old(dst)@ + src@,
{
    let mut i: usize = 0;
    while i < src.len()
        invariant
            0 <= i <= src@.len(),
            dst@ == old(dst)@ + src@.subrange(0, i as int),
        decreases src@.len() - i,
    {
        dst.push(src[i]);
        assert(dst@ =~= old(dst)@ + src@.subrange(0, i + 1));
        i += 1;
    }
    assert(dst@ =~= old(dst)@ + src@);
}

/// Serializes the signed byte range of a report: what the embedded
/// signature must verify over.
pub fn signed_region(r: &AttestationReport) -> (out: Vec<u8>)
    ensures
        out@ == spec_signed_region(*r),
        out@.len() == 184,
{
    let mut out: Vec<u8> = Vec::new();
    let v = r.guest_svn;
    assert((v & 0xff) < 256 && ((v >> 8) & 0xff) < 256 && ((v >> 16) & 0xff) < 256 && ((v >> 24)
        & 0xff) < 256) by (bit_vector);
    out.push((v & 0xff) as u8);
    out.push(((v >> 8) & 0xff) as u8);
    out.push(((v >> 16) & 0xff) as u8);
    out.push(((v >> 24) & 0xff) as u8);
    assert(out@ =~= spec_u32_le(v));
    append_bytes(&mut out, r.measurement.as_slice());
    append_bytes(&mut out, r.report_data.as_slice());
    append_bytes(&mut out, r.chip_id.as_slice());
    out.push(r.reported_tcb.bootloader);
    out.push(r.reported_tcb.tee);
    out.push(r.reported_tcb.snp);
    out.push(r.reported_tcb.microcode);
    assert(out@ =~= spec_signed_region(*r));
    out
}

/// The prefix-parse of a DER OCTET STRING: the tag `0x04`, a definite
/// length in short form or in the one- or two-byte long forms, then the
/// payload. Bytes after the payload are ignored, as the historical
/// certificates carry trailing data. Yields `None` when the input does not
/// start with a well-formed OCTET STRING.
pub open spec fn spec_parse_der_octets(input: Seq<u8>) -> Option<Seq<u8>> {
    if input.len() < 2 || input[0] != 0x04 {
        None
    } else if input[1] < 0x80 {
        let l = input[1] as int;
        if input.len() >= 2 + l {
            Some(input.subrange(2, 2 + l))
        } else {
            None
        }
    } else if input[1] == 0x81 {
        if input.len() >= 3 && input[2] >= 0x80 {
            let l = input[2] as int;
            if input.len() >= 3 + l {
                Some(input.subrange(3, 3 + l))
            } else {
                None
            }
        } else {
            None
        }
    } else if input[1] == 0x82 {
        if input.len() >= 4 {
            let l = input[2] as int * 256 + input[3] as int;
            if l >= 256 && input.len() >= 4 + l {
                Some(input.subrange(4, 4 + l))
            } else {
                None
            }
        } else {
            None
        }
    } else {
        None
    }
}

/// Parses a DER OCTET STRING at the start of `input`.
pub fn parse_der_octet_string(input: &[u8]) -> (r: Option<Vec<u8>>)
    ensures
        ({
            let s = spec_parse_der_octets(input@);
            match r {
                Some(v) => s == Some(v@),
                None => s is None,
            }
        }),
{
    if input.len() < 2 || input[0] != 0x04 {
        return None;
    }
    if input[1] < 0x80 {
        let l = input[1] as usize;
        if input.len() >= 2 + l {
            Some(copy_range(input, 2, l))
        } else {
            None
        }
    } else if input[1] == 0x81 {
        if input.len() >= 3 && input[2] >= 0x80 {
            let l = input[2] as usize;
            if input.len() >= 3 + l {
                Some(copy_range(input, 3, l))
            } else {
                None
            }
        } else {
            None
        }
    } else if input[1] == 0x82 {
        if input.len() >= 4 {
            let l = (input[2] as usize) * 256 + (input[3] as usize);
            if l >= 256 && input.len() >= 4 + l {
                Some(copy_range(input, 4, l))
            } else {
                None
            }
        } else {
            None
        }
    } else {
        None
    }
}

/// Copies `len` bytes of `src` starting at `start`.
fn copy_range(src: &[u8], start: usize, len: usize) -> (out: Vec<u8>)
    requires
        start + len <= src@.len(),
    ensures
        out@ == src@.subrange(start as int, start as int + len as int),
{
    let mut out: Vec<u8> = Vec::new();
    let total = src.len();
    let mut i: usize = 0;
    while i < len
        invariant
            0 <= i <= len,
            start + len <= total,
            total == src@.len(),
            out@ == src@.subrange(start as int, start as int + i as int),
        decreases len - i,
    {
        out.push(src[start + i]);
        assert(out@ =~= src@.subrange(start as int, start as int + (i + 1) as int));
        i += 1;
    }
    out
}

/// Decodes a certificate-extension value expected to hold `n` raw bytes.
/// A value of exactly `n` bytes is the historical raw encoding and is the
/// payload itself; any other length must be a DER OCTET STRING whose
/// payload is exactly `n` bytes. The two encodings are detected by length
/// alone.
pub open spec fn spec_decode_extension_octets(value: Seq<u8>, n: nat) -> Option<Seq<u8>> {
    if value.len() == n {
        Some(value)
    } else {
        match spec_parse_der_octets(value) {
            Some(payload) => if payload.len() == n {
                Some(payload)
            } else {
                None
            },
            None => None,
        }
    }
}

/// Decodes an extension value into its `n` raw bytes, accepting either the
/// raw fixed-width or the DER-wrapped historical encoding.
pub fn decode_extension_octets(value: &Vec<u8>, n: usize) -> (r: Option<Vec<u8>>)
    ensures
        ({
            let s = spec_decode_extension_octets(value@, n as nat);
            match r {
                Some(v) => s == Some(v@),
                None => s is None,
            }
        }),
{
    if value.len() == n {
        Some(copy_range(value.as_slice(), 0, n))
    } else {
        match parse_der_octet_string(value.as_slice()) {
            Some(payload) => {
                if payload.len() == n {
                    Some(payload)
                } else {
                    None
                }
            },
            None => None,
        }
    }
}

/// The prefix-parse of a DER INTEGER whose value is non-negative and fits
/// one unsigned byte. The encoding must be minimal, as DER demands: one
/// content byte below `0x80`, or a zero byte followed by one content byte
/// of `0x80` or above. Bytes after the integer are ignored; any other
/// shape — a wrong tag, a negative or non-minimal or wider value — yields
/// `None`. This is the shape the firmware-version extensions carry.
pub open spec fn spec_decode_small_int(value: Seq<u8>) -> Option<u8> {
    if value.len() >= 3 && value[0] == 0x02 && value[1] == 0x01 && value[2] < 0x80 {
        Some(value[2])
    } else if value.len() >= 4 && value[0] == 0x02 && value[1] == 0x02 && value[2] == 0x00
        && value[3] >= 0x80 {
        Some(value[3])
    } else {
        None
    }
}

/// Decodes a firmware-version extension value: a minimal DER INTEGER at
/// the start of the value, non-negative and no wider than one unsigned
/// byte, with trailing bytes ignored.
pub fn decode_small_int(value: &Vec<u8>) -> (r: Option<u8>)
    ensures
        r == spec_decode_small_int(value@),
{
    if value.len() >= 3 && value[0] == 0x02 && value[1] == 0x01 && value[2] < 0x80 {
        Some(value[2])
    } else if value.len() >= 4 && value[0] == 0x02 && value[1] == 0x02 && value[2] == 0x00
        && value[3] >= 0x80 {
        Some(value[3])
    } else {
        None
    }
}

/// The DER OCTET STRING wrapping of a short payload.
pub open spec fn spec_der_octets(payload: Seq<u8>) -> Seq<u8> {
    seq![0x04u8, payload.len() as u8] + payload
}

/// The two historical extension encodings decode to identical values: for
/// any payload of the expected width, the raw encoding and the DER-wrapped
/// encoding both decode to the payload itself.
pub proof fn lemma_extension_encoding_equivalence(payload: Seq<u8>, n: nat)
    requires
        payload.len() == n,
        1 <= n < 128,
    ensures
        spec_decode_extension_octets(payload, n) == Some(payload),
        spec_decode_extension_octets(spec_der_octets(payload), n) == Some(payload),
{
    let wrapped = spec_der_octets(payload);
    assert(wrapped.len() == 2 + n);
    assert(wrapped[0] == 0x04);
    assert(wrapped[1] == n as u8);
    assert(wrapped[1] < 0x80);
    assert(spec_parse_der_octets(wrapped) == Some(wrapped.subrange(2, 2 + n as int)));
    assert(wrapped.subrange(2, 2 + n as int) =~= payload);
}

} // verus!
