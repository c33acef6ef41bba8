//! UTF-8 encoding and decoding of single code points, on bytes.

use vstd::prelude::*;

verus! {

/// The largest code point.
pub const MAX_CODE_POINT: u32 = 0x10FFFF;

/// Whether `cp` is a Unicode scalar value: a code point that is no surrogate.
pub open spec fn spec_is_scalar(cp: u32) -> bool {
    cp < 0xD800 || (0xE000 <= cp <= MAX_CODE_POINT)
}

#[verifier::when_used_as_spec(spec_is_scalar)]
pub fn is_scalar(cp: u32) -> (r: bool)
    ensures
        r == spec_is_scalar(cp),
{
    cp < 0xD800 || (0xE000 <= cp && cp <= MAX_CODE_POINT)
}

/// The UTF-8 encoding of the code point `cp`.
pub open spec fn spec_encode(cp: u32) -> Seq<u8> {
    if cp < 0x80 {
        seq![cp as u8]
    } else if cp < 0x800 {
        seq![(0xC0 + cp / 64) as u8, (0x80 + cp % 64) as u8]
    } else if cp < 0x10000 {
        seq![(0xE0 + cp / 4096) as u8, (0x80 + (cp / 64) % 64) as u8, (0x80 + cp % 64) as u8]
    } else {
        seq![
            (0xF0 + cp / 262144) as u8,
            (0x80 + (cp / 4096) % 64) as u8,
            (0x80 + (cp / 64) % 64) as u8,
            (0x80 + cp % 64) as u8,
        ]
    }
}

/// Appends the UTF-8 encoding of `cp` to `out`.
pub fn encode(cp: u32, out: &mut Vec<u8>)
    requires
        cp <= MAX_CODE_POINT,
    ensures
        final(out)@ == old(out)@ + spec_encode(cp),
{
    if cp < 0x80 {
        out.push(cp as u8);
        assert(out@ =~= old(out)@ + spec_encode(cp));
    } else if cp < 0x800 {
        out.push((0xC0 + cp / 64) as u8);
        out.push((0x80 + cp % 64) as u8);
        assert(out@ =~= old(out)@ + spec_encode(cp));
    } else if cp < 0x10000 {
        out.push((0xE0 + cp / 4096) as u8);
        out.push((0x80 + (cp / 64) % 64) as u8);
        out.push((0x80 + cp % 64) as u8);
        assert(out@ =~= old(out)@ + spec_encode(cp));
    } else {
        out.push((0xF0 + cp / 262144) as u8);
        out.push((0x80 + (cp / 4096) % 64) as u8);
        out.push((0x80 + (cp / 64) % 64) as u8);
        out.push((0x80 + cp % 64) as u8);
        assert(out@ =~= old(out)@ + spec_encode(cp));
    }
}

/// How many bytes the character that starts with `lead` takes. A byte that
/// cannot start a character counts as a character of its own.
pub open spec fn spec_width(lead: u8) -> int {
    if lead < 0xC0 {
        1
    } else if lead < 0xE0 {
        2
    } else if lead < 0xF0 {
        3
    } else if lead < 0xF8 {
        4
    } else {
        1
    }
}

/// The length of the character at `at`, cut off at the end of `bytes`.
pub open spec fn spec_char_len(bytes: Seq<u8>, at: int) -> int {
    if at + spec_width(bytes[at]) <= bytes.len() {
        spec_width(bytes[at])
    } else {
        bytes.len() - at
    }
}

pub fn char_len(bytes: &[u8], at: usize) -> (n: usize)
    requires
        at < bytes@.len(),
    ensures
        n == spec_char_len(bytes@, at as int),
        1 <= n <= 4,
        at + n <= bytes@.len(),
{
    let lead = bytes[at];
    let width: usize = if lead < 0xC0 {
        1
    } else if lead < 0xE0 {
        2
    } else if lead < 0xF0 {
        3
    } else if lead < 0xF8 {
        4
    } else {
        1
    };
    if width <= bytes.len() - at {
        width
    } else {
        bytes.len() - at
    }
}

/// The code point of the character at `at`: the payload bits of its lead
/// byte followed by six bits of each byte after it.
pub open spec fn spec_decode(bytes: Seq<u8>, at: int) -> u32 {
    let n = spec_char_len(bytes, at);
    let lead = bytes[at];
    if n == 1 {
        lead as u32
    } else if n == 2 {
        ((lead % 32) * 64 + bytes[at + 1] % 64) as u32
    } else if n == 3 {
        if lead < 0xF0 {
            ((lead % 16) * 4096 + (bytes[at + 1] % 64) * 64 + bytes[at + 2] % 64) as u32
        } else {
            ((lead % 8) * 4096 + (bytes[at + 1] % 64) * 64 + bytes[at + 2] % 64) as u32
        }
    } else {
        ((lead % 8) * 262144 + (bytes[at + 1] % 64) * 4096 + (bytes[at + 2] % 64) * 64 + bytes[at
            + 3] % 64) as u32
    }
}

pub fn decode(bytes: &[u8], at: usize) -> (cp: u32)
    requires
        at < bytes@.len(),
    ensures
        cp == spec_decode(bytes@, at as int),
{
    let n = char_len(bytes, at);
    let lead: u32 = bytes[at] as u32;
    if n == 1 {
        lead
    } else if n == 2 {
        (lead % 32) * 64 + (bytes[at + 1] as u32) % 64
    } else if n == 3 {
        if lead < 0xF0 {
            (lead % 16) * 4096 + ((bytes[at + 1] as u32) % 64) * 64 + (bytes[at + 2] as u32) % 64
        } else {
            (lead % 8) * 4096 + ((bytes[at + 1] as u32) % 64) * 64 + (bytes[at + 2] as u32) % 64
        }
    } else {
        (lead % 8) * 262144 + ((bytes[at + 1] as u32) % 64) * 4096 + ((bytes[at + 2] as u32) % 64)
            * 64 + (bytes[at + 3] as u32) % 64
    }
}

/// Whether the code point is white space: the ASCII controls from tab to
/// carriage return, the space, and the Unicode space separators.
pub open spec fn spec_is_whitespace(cp: u32) -> bool {
    ||| 0x09 <= cp <= 0x0D
    ||| cp == 0x20
    ||| cp == 0x85
    ||| cp == 0xA0
    ||| cp == 0x1680
    ||| 0x2000 <= cp <= 0x200A
    ||| cp == 0x2028
    ||| cp == 0x2029
    ||| cp == 0x202F
    ||| cp == 0x205F
    ||| cp == 0x3000
}

#[verifier::when_used_as_spec(spec_is_whitespace)]
pub fn is_whitespace(cp: u32) -> (r: bool)
    ensures
        r == spec_is_whitespace(cp),
{
    (0x09 <= cp && cp <= 0x0D) || cp == 0x20 || cp == 0x85 || cp == 0xA0 || cp == 0x1680 || (0x2000
        <= cp && cp <= 0x200A) || cp == 0x2028 || cp == 0x2029 || cp == 0x202F || cp == 0x205F
        || cp == 0x3000
}

/// Decoding what was encoded gives the code point back, and the length of
/// the encoding.
#[verifier::rlimit(40)]
pub proof fn lemma_encode_decode(cp: u32)
    requires
        cp <= MAX_CODE_POINT,
    ensures
        spec_char_len(spec_encode(cp), 0) == spec_encode(cp).len(),
        spec_decode(spec_encode(cp), 0) == cp,
{
}

} // verus!
