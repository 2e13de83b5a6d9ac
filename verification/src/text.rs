//! Byte-to-text conversions used when parsing destination addresses: the
//! one trusted step (decoding UTF-8 through the standard library) and a
//! verified dotted-decimal rendering for IPv4 literals.

use vstd::prelude::*;
use vstd::utf8::{decode_utf8, is_leading_byte_width_1, partial_valid_utf8, valid_utf8};

verus! {

/// A buffer whose bytes all lie at or below 0x7F is a sequence of one-byte
/// scalar encodings and therefore valid UTF-8.
pub proof fn lemma_ascii_bytes_valid_utf8(bytes: Seq<u8>)
    requires
        forall|i: int| 0 <= i < bytes.len() ==> #[trigger] bytes[i] <= 0x7F,
    ensures
        valid_utf8(bytes),
{
    assert(bytes.subrange(0, 0) =~= Seq::<u8>::empty());
    assert(partial_valid_utf8(bytes, 0));
    assert(forall|i: int|
        0 <= i < bytes.len() ==> is_leading_byte_width_1(#[trigger] bytes[i]));
    vstd::utf8::partial_valid_utf8_extend_ascii_block(bytes, 0, bytes.len() as int);
    assert(bytes.subrange(0, bytes.len() as int) =~= bytes);
}

/// Relies on `String::from_utf8`: it succeeds exactly when the bytes are a
/// valid UTF-8 encoding, and the resulting string is their decoding.
#[verifier::external_body]
pub(crate) fn string_from_utf8(bytes: Vec<u8>) -> (r: Option<String>)
    ensures
        r is Some <==> valid_utf8(bytes@),
        r matches Some(s) ==> s@ == decode_utf8(bytes@),
{
    String::from_utf8(bytes).ok()
}

/// The decimal digits of `n` as ASCII bytes, most significant first,
/// without leading zeroes.
pub open spec fn dec_bytes(n: u8) -> Seq<u8> {
    if n < 10 {
        seq![(0x30 + n) as u8]
    } else if n < 100 {
        seq![(0x30 + n / 10) as u8, (0x30 + n % 10) as u8]
    } else {
        seq![(0x30 + n / 100) as u8, (0x30 + (n / 10) % 10) as u8, (0x30 + n % 10) as u8]
    }
}

/// Every byte of a decimal rendering is an ASCII digit.
pub proof fn lemma_dec_bytes_ascii(n: u8)
    ensures
        forall|i: int| 0 <= i < dec_bytes(n).len() ==> #[trigger] dec_bytes(n)[i] <= 0x39,
{
}

/// Appends the decimal rendering of `n` to `out`.
fn push_decimal(out: &mut Vec<u8>, n: u8)
    ensures
        final(out)@ == old(out)@ + dec_bytes(n),
{
    if n >= 100 {
        out.push(0x30 + n / 100);
        out.push(0x30 + (n / 10) % 10);
        out.push(0x30 + n % 10);
    } else if n >= 10 {
        out.push(0x30 + n / 10);
        out.push(0x30 + n % 10);
    } else {
        out.push(0x30 + n);
    }
    proof {
        assert(out@ =~= old(out)@ + dec_bytes(n));
    }
}

/// The dotted-decimal ASCII bytes of an IPv4 address.
pub open spec fn ipv4_host_bytes(a: u8, b: u8, c: u8, d: u8) -> Seq<u8> {
    dec_bytes(a) + seq![0x2Eu8] + dec_bytes(b) + seq![0x2Eu8] + dec_bytes(c) + seq![0x2Eu8]
        + dec_bytes(d)
}

/// Every byte of a dotted-decimal rendering is an ASCII digit or a dot.
pub proof fn lemma_ipv4_host_bytes_ascii(a: u8, b: u8, c: u8, d: u8)
    ensures
        forall|i: int|
            0 <= i < ipv4_host_bytes(a, b, c, d).len() ==> #[trigger] ipv4_host_bytes(
                a,
                b,
                c,
                d,
            )[i] <= 0x7F,
{
    lemma_dec_bytes_ascii(a);
    lemma_dec_bytes_ascii(b);
    lemma_dec_bytes_ascii(c);
    lemma_dec_bytes_ascii(d);
}

/// Renders an IPv4 address as the host string of its dotted-decimal bytes.
pub fn ipv4_host_string(a: u8, b: u8, c: u8, d: u8) -> (r: String)
    ensures
        r@ == decode_utf8(ipv4_host_bytes(a, b, c, d)),
{
    let mut bytes: Vec<u8> = Vec::new();
    push_decimal(&mut bytes, a);
    bytes.push(0x2E);
    push_decimal(&mut bytes, b);
    bytes.push(0x2E);
    push_decimal(&mut bytes, c);
    bytes.push(0x2E);
    push_decimal(&mut bytes, d);
    proof {
        assert(bytes@ =~= ipv4_host_bytes(a, b, c, d));
        lemma_ipv4_host_bytes_ascii(a, b, c, d);
        lemma_ascii_bytes_valid_utf8(bytes@);
    }
    match string_from_utf8(bytes) {
        Some(s) => s,
        None => vstd::pervasive::unreached(),
    }
}

} // verus!
