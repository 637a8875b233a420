//! Base64 text (RFC 4648 §4: standard alphabet, `=` padding) of byte
//! sequences, produced by the `base64` crate's standard engine.

use vstd::prelude::*;

verus! {

/// The character of the standard Base64 alphabet for the 6-bit value `v`.
pub open spec fn base64_symbol(v: int) -> char {
    if v < 26 {
        (65 + v) as char
    } else if v < 52 {
        (97 + v - 26) as char
    } else if v < 62 {
        (48 + v - 52) as char
    } else if v == 62 {
        '+'
    } else {
        '/'
    }
}

/// Standard Base64 with padding: each group of three bytes becomes four
/// characters; a final group of one or two bytes is padded with `=`.
pub open spec fn base64_text(b: Seq<u8>) -> Seq<char>
    decreases b.len(),
{
    if b.len() == 0 {
        seq![]
    } else {
        let b0 = b[0] as int;
        let b1 = if b.len() >= 2 { b[1] as int } else { 0 };
        let b2 = if b.len() >= 3 { b[2] as int } else { 0 };
        let c0 = base64_symbol(b0 / 4);
        let c1 = base64_symbol((b0 % 4) * 16 + b1 / 16);
        let c2 = base64_symbol((b1 % 16) * 4 + b2 / 64);
        let c3 = base64_symbol(b2 % 64);
        if b.len() == 1 {
            seq![c0, c1, '=', '=']
        } else if b.len() == 2 {
            seq![c0, c1, c2, '=']
        } else {
            seq![c0, c1, c2, c3] + base64_text(b.skip(3))
        }
    }
}

/// The length of the Base64 text of `n` bytes.
pub open spec fn base64_len(n: nat) -> nat {
    4 * ((n + 2) / 3)
}

/// Base64 text is four characters for every started group of three bytes.
pub proof fn lemma_base64_len(b: Seq<u8>)
    ensures
        base64_text(b).len() == base64_len(b.len()),
    decreases b.len(),
{
    if b.len() >= 3 {
        lemma_base64_len(b.skip(3));
    }
}

/// The 6-bit value of a character of the standard Base64 alphabet.
pub open spec fn base64_value(c: char) -> int {
    if 'A' <= c && c <= 'Z' {
        (c as int) - 65
    } else if 'a' <= c && c <= 'z' {
        (c as int) - 97 + 26
    } else if '0' <= c && c <= '9' {
        (c as int) - 48 + 52
    } else if c == '+' {
        62
    } else {
        63
    }
}

/// Decodes padded standard Base64 text, four characters at a time; a group
/// ending in `=` or `==` carries two or one bytes and ends the text.
pub open spec fn base64_decoded(t: Seq<char>) -> Seq<u8>
    decreases t.len(),
{
    if t.len() < 4 {
        seq![]
    } else {
        let v0 = base64_value(t[0]);
        let v1 = base64_value(t[1]);
        let v2 = base64_value(t[2]);
        let v3 = base64_value(t[3]);
        let b0 = (v0 * 4 + v1 / 16) as u8;
        let b1 = ((v1 % 16) * 16 + v2 / 4) as u8;
        let b2 = ((v2 % 4) * 64 + v3) as u8;
        if t[2] == '=' {
            seq![b0]
        } else if t[3] == '=' {
            seq![b0, b1]
        } else {
            seq![b0, b1, b2] + base64_decoded(t.skip(4))
        }
    }
}

/// Every 6-bit value has its own alphabet character, which is never `=`.
proof fn lemma_base64_symbol(v: int)
    requires
        0 <= v < 64,
    ensures
        base64_value(base64_symbol(v)) == v,
        base64_symbol(v) != '=',
{
}

/// Base64 text decodes back to the bytes it was made from.
pub proof fn lemma_base64_roundtrip(b: Seq<u8>)
    ensures
        base64_decoded(base64_text(b)) == b,
    decreases b.len(),
{
    if b.len() > 0 {
        let t = base64_text(b);
        let b0 = b[0] as int;
        let b1 = if b.len() >= 2 { b[1] as int } else { 0 };
        let b2 = if b.len() >= 3 { b[2] as int } else { 0 };
        let v0 = b0 / 4;
        let v1 = (b0 % 4) * 16 + b1 / 16;
        let v2 = (b1 % 16) * 4 + b2 / 64;
        let v3 = b2 % 64;
        lemma_base64_symbol(v0);
        lemma_base64_symbol(v1);
        lemma_base64_symbol(v2);
        lemma_base64_symbol(v3);
        assert((v0 * 4 + v1 / 16) as u8 == b[0]);
        if b.len() >= 2 {
            assert(((v1 % 16) * 16 + v2 / 4) as u8 == b[1]);
        }
        if b.len() >= 3 {
            assert(((v2 % 4) * 64 + v3) as u8 == b[2]);
            lemma_base64_roundtrip(b.skip(3));
            assert(t.skip(4) =~= base64_text(b.skip(3)));
            assert(b =~= seq![b[0], b[1], b[2]] + b.skip(3));
        } else if b.len() == 2 {
            assert(b =~= seq![b[0], b[1]]);
        } else {
            assert(b =~= seq![b[0]]);
        }
    }
}

/// Encodes `bytes` with `base64::prelude::BASE64_STANDARD` (`Engine::encode`).
/// The contract claims the crate's documented output: RFC 4648 standard
/// Base64 with padding. The crate panics when the output length overflows
/// `usize`; `requires` leaves those inputs out.
#[verifier::external_body]
pub(crate) fn base64_encode(bytes: &[u8]) -> (r: String)
    requires
        base64_len(bytes@.len()) <= usize::MAX,
    ensures
        r@ == base64_text(bytes@),
{
    base64::Engine::encode(&base64::prelude::BASE64_STANDARD, bytes)
}

} // verus!
