//! Key-distribution endpoint URLs: one per (processor family, chip id,
//! firmware versions) tuple, with the chip id hex-encoded and the four
//! firmware version components as zero-padded decimal query parameters.

use vstd::prelude::*;

use crate::errors::ProcessorFamily;
use crate::evidence::AttestationReport;

verus! {

/// The sixteen lowercase digit characters.
pub open spec fn spec_digit_table() -> Seq<char> {
    seq!['0', '1', '2', '3', '4', '5', '6', '7', '8', '9', 'a', 'b', 'c', 'd', 'e', 'f']
}

/// The character for one digit value below sixteen.
pub open spec fn spec_digit(d: u8) -> char {
    spec_digit_table()[d as int]
}

/// The lowercase hex encoding of a byte string: two digits per byte, high
/// nibble first.
pub open spec fn spec_hex_of(bytes: Seq<u8>) -> Seq<char> {
    Seq::new(
        bytes.len() * 2,
        |i: int|
            if i % 2 == 0 {
                spec_digit(bytes[i / 2] >> 4)
            } else {
                spec_digit(bytes[i / 2] & 0x0f)
            },
    )
}

/// Relies on hex::encode: the result is the lowercase hex encoding of
/// `data`, two digits per byte, high nibble first, as the crate documents.
#[verifier::external_body]
fn hex_encode(data: &[u8]) -> (r: String)
    ensures
        r@ == spec_hex_of(data@),
{
    hex::encode(data)
}

/// A firmware version component as a zero-padded two-digit decimal, three
/// digits for values above ninety-nine.
pub open spec fn spec_spl(v: u8) -> Seq<char> {
    if v < 10 {
        seq!['0', spec_digit(v)]
    } else if v < 100 {
        seq![spec_digit(v / 10), spec_digit(v % 10)]
    } else {
        seq![spec_digit(v / 100), spec_digit((v / 10) % 10), spec_digit(v % 10)]
    }
}

/// The name a processor family carries inside key-distribution URLs.
pub open spec fn spec_family_name(family: ProcessorFamily) -> Seq<char> {
    match family {
        ProcessorFamily::Genoa => "Genoa"@,
        ProcessorFamily::Milan => "Milan"@,
    }
}

/// The full key-distribution URL for a report's leaf certificate.
pub open spec fn spec_kds_url(family: ProcessorFamily, r: AttestationReport) -> Seq<char> {
    "https://kdsintf.amd.com/vcek/v1/"@ + spec_family_name(family) + "/"@ + spec_hex_of(r.chip_id@)
        + "?blSPL="@ + spec_spl(r.reported_tcb.bootloader) + "&teeSPL="@ + spec_spl(
        r.reported_tcb.tee,
    ) + "&snpSPL="@ + spec_spl(r.reported_tcb.snp) + "&ucodeSPL="@ + spec_spl(
        r.reported_tcb.microcode,
    )
}

/// The one-character text of a decimal digit value.
fn digit_str(d: u8) -> (s: &'static str)
    requires
        d < 10,
    ensures
        s@ == seq![spec_digit(d)],
{
    let s: &'static str = match d {
        0 => "0",
        1 => "1",
        2 => "2",
        3 => "3",
        4 => "4",
        5 => "5",
        6 => "6",
        7 => "7",
        8 => "8",
        _ => "9",
    };
    proof {
        reveal_strlit("0");
        reveal_strlit("1");
        reveal_strlit("2");
        reveal_strlit("3");
        reveal_strlit("4");
        reveal_strlit("5");
        reveal_strlit("6");
        reveal_strlit("7");
        reveal_strlit("8");
        reveal_strlit("9");
    }
    assert(s@ =~= seq![spec_digit(d)]);
    s
}

/// Formats a firmware version component as its zero-padded decimal text.
fn format_spl(v: u8) -> (s: String)
    ensures
        s@ == spec_spl(v),
{
    let mut s = String::new();
    if v < 10 {
        s.append("0");
        s.append(digit_str(v));
    } else if v < 100 {
        s.append(digit_str(v / 10));
        s.append(digit_str(v % 10));
    } else {
        s.append(digit_str(v / 100));
        s.append(digit_str((v / 10) % 10));
        s.append(digit_str(v % 10));
    }
    proof {
        reveal_strlit("0");
    }
    assert(s@ =~= spec_spl(v));
    s
}

/// Builds the key-distribution URL for one family and one report.
pub fn kds_url(family: ProcessorFamily, r: &AttestationReport) -> (url: String)
    ensures
        url@ == spec_kds_url(family, *r),
{
    let mut url = String::from_str("https://kdsintf.amd.com/vcek/v1/");
    url.append(family.name());
    url.append("/");
    let hex_id = hex_encode(r.chip_id.as_slice());
    url.append(hex_id.as_str());
    url.append("?blSPL=");
    let bl = format_spl(r.reported_tcb.bootloader);
    url.append(bl.as_str());
    url.append("&teeSPL=");
    let tee = format_spl(r.reported_tcb.tee);
    url.append(tee.as_str());
    url.append("&snpSPL=");
    let snp = format_spl(r.reported_tcb.snp);
    url.append(snp.as_str());
    url.append("&ucodeSPL=");
    let ucode = format_spl(r.reported_tcb.microcode);
    url.append(ucode.as_str());
    assert(url@ =~= spec_kds_url(family, *r));
    url
}

} // verus!
