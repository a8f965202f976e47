//! Entity tags: a 32-bit checksum of the served bytes, rendered as
//! lower-case hexadecimal, plus the decimal rendering used for
//! `content-length` values.
use vstd::prelude::*;

verus! {

/// The 32-bit checksum that fingerprints served content. Its value is a
/// function of the bytes alone; nothing more is assumed of it.
pub uninterp spec fn crc32_of(data: Seq<u8>) -> u32;

/// Relies on crc32fast::hash: the CRC32 (IEEE) checksum of the bytes,
/// a pure function of its input.
#[verifier::external_body]
fn crc32(data: &[u8]) -> (r: u32)
    ensures
        r == crc32_of(data@),
{
    crc32fast::hash(data)
}

/// The lower-case hexadecimal digit for a value below 16, as a byte.
pub open spec fn spec_hex_digit(d: u32) -> u8 {
    if d < 10 {
        (48 + d) as u8
    } else {
        (87 + d) as u8
    }
}

/// The lower-case hexadecimal rendering of `n`, minimal digits.
pub open spec fn spec_hex(n: u32) -> Seq<u8>
    decreases n,
{
    if n < 16 {
        seq![spec_hex_digit(n)]
    } else {
        spec_hex(n / 16).push(spec_hex_digit(n % 16))
    }
}

/// The entity tag attached to content: its checksum in lower-case hex.
pub open spec fn spec_etag(content: Seq<u8>) -> Seq<u8> {
    spec_hex(crc32_of(content))
}

fn hex_digit(d: u32) -> (r: u8)
    requires
        d < 16,
    ensures
        r == spec_hex_digit(d),
{
    if d < 10 {
        (48 + d) as u8
    } else {
        (87 + d) as u8
    }
}

fn u32_to_hex(n: u32) -> (r: Vec<u8>)
    ensures
        r@ == spec_hex(n),
    decreases n,
{
    if n < 16 {
        let mut r: Vec<u8> = Vec::new();
        r.push(hex_digit(n));
        assert(r@ =~= spec_hex(n));
        r
    } else {
        let mut r = u32_to_hex(n / 16);
        r.push(hex_digit(n % 16));
        r
    }
}

/// The entity tag for `content`, as emitted in the `etag` header and
/// matched against `if-none-match` / `if-match`.
pub fn compute_etag(content: &[u8]) -> (r: Vec<u8>)
    ensures
        r@ == spec_etag(content@),
{
    u32_to_hex(crc32(content))
}

/// The decimal rendering of `n`, minimal digits.
pub open spec fn spec_dec(n: nat) -> Seq<u8>
    decreases n,
{
    if n < 10 {
        seq![(48 + n) as u8]
    } else {
        spec_dec(n / 10).push((48 + n % 10) as u8)
    }
}

/// `n` in decimal, as the `content-length` value is written.
pub fn usize_to_dec(n: usize) -> (r: Vec<u8>)
    ensures
        r@ == spec_dec(n as nat),
    decreases n,
{
    if n < 10 {
        let mut r: Vec<u8> = Vec::new();
        r.push((48 + n) as u8);
        assert(r@ =~= spec_dec(n as nat));
        r
    } else {
        let mut r = usize_to_dec(n / 10);
        r.push((48 + n % 10) as u8);
        r
    }
}

} // verus!
