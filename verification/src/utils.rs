//! Parsing of hex color strings attached to issue labels.
//!
//! A label's display color arrives as text such as `"#ff8800"`. The parse
//! works on the UTF-8 bytes of the text: leading `#` bytes are stripped,
//! and exactly six case-insensitive hex digits yield the three channels.
//! Anything else yields nothing, and the presentation layer falls back to
//! its default color.

use vstd::prelude::*;
use vstd::string::StrSliceExecFns;
use vstd::string::StringSliceAdditionalSpecFns;

verus! {

/// The byte `'#'`.
pub const HASH_BYTE: u8 = 35;

/// The byte `'0'`.
pub const DIGIT_0: u8 = 48;

/// The byte `'9'`.
pub const DIGIT_9: u8 = 57;

/// The byte `'a'`.
pub const LOWER_A: u8 = 97;

/// The byte `'f'`.
pub const LOWER_F: u8 = 102;

/// The byte `'A'`.
pub const UPPER_A: u8 = 65;

/// The byte `'F'`.
pub const UPPER_F: u8 = 70;

/// The value of an ASCII hex digit, upper or lower case.
pub open spec fn hex_digit_val(b: u8) -> Option<u8> {
    if DIGIT_0 <= b && b <= DIGIT_9 {
        Some((b - DIGIT_0) as u8)
    } else if LOWER_A <= b && b <= LOWER_F {
        Some((b - LOWER_A + 10) as u8)
    } else if UPPER_A <= b && b <= UPPER_F {
        Some((b - UPPER_A + 10) as u8)
    } else {
        None
    }
}

/// The byte written as the two hex digits `hi` `lo`.
pub open spec fn hex_byte_val(hi: u8, lo: u8) -> Option<u8> {
    match (hex_digit_val(hi), hex_digit_val(lo)) {
        (Some(h), Some(l)) => Some((h * 16 + l) as u8),
        _ => None,
    }
}

/// `bytes` with every leading `#` removed.
pub open spec fn strip_hashes(bytes: Seq<u8>) -> Seq<u8>
    decreases bytes.len(),
{
    if bytes.len() > 0 && bytes[0] == HASH_BYTE {
        strip_hashes(bytes.drop_first())
    } else {
        bytes
    }
}

/// The three color channels of a hex color text: after stripping leading
/// `#` bytes, exactly six hex digits, two per channel.
pub open spec fn hex_rgb_spec(bytes: Seq<u8>) -> Option<(u8, u8, u8)> {
    let t = strip_hashes(bytes);
    if t.len() == 6 {
        match (hex_byte_val(t[0], t[1]), hex_byte_val(t[2], t[3]), hex_byte_val(t[4], t[5])) {
            (Some(r), Some(g), Some(b)) => Some((r, g, b)),
            _ => None,
        }
    } else {
        None
    }
}

/// The value of an ASCII hex digit, upper or lower case.
fn hex_digit(b: u8) -> (r: Option<u8>)
    ensures
        r == hex_digit_val(b),
{
    if DIGIT_0 <= b && b <= DIGIT_9 {
        Some(b - DIGIT_0)
    } else if LOWER_A <= b && b <= LOWER_F {
        Some(b - LOWER_A + 10)
    } else if UPPER_A <= b && b <= UPPER_F {
        Some(b - UPPER_A + 10)
    } else {
        None
    }
}

/// The byte written as the two hex digits `hi` `lo`.
fn hex_pair(hi: u8, lo: u8) -> (r: Option<u8>)
    ensures
        r == hex_byte_val(hi, lo),
{
    match (hex_digit(hi), hex_digit(lo)) {
        (Some(h), Some(l)) => Some(h * 16 + l),
        _ => None,
    }
}

/// Parse a hex color text into its three channels, or nothing when the
/// text is not `#`-prefixed six-digit hex.
pub fn hex_to_rgb(hex: &str) -> (r: Option<(u8, u8, u8)>)
    ensures
        r == hex_rgb_spec(hex.spec_bytes()),
{
    let b: Vec<u8> = hex.as_bytes_vec();
    let n: usize = b.len();
    let mut i: usize = 0;
    proof {
        assert(b@.skip(0) =~= b@);
    }
    while i < n && b[i] == HASH_BYTE
        invariant
            i <= n,
            n == b@.len(),
            b@ == hex.spec_bytes(),
            strip_hashes(b@) == strip_hashes(b@.skip(i as int)),
        decreases n - i,
    {
        proof {
            assert(b@.skip(i as int).drop_first() =~= b@.skip(i as int + 1));
        }
        i = i + 1;
    }
    proof {
        if i == n {
            assert(b@.skip(i as int) =~= Seq::<u8>::empty());
        }
        assert(strip_hashes(b@) == b@.skip(i as int));
    }
    if n - i != 6 {
        return None;
    }
    let c_r = hex_pair(b[i], b[i + 1]);
    let c_g = hex_pair(b[i + 2], b[i + 3]);
    let c_b = hex_pair(b[i + 4], b[i + 5]);
    match (c_r, c_g, c_b) {
        (Some(red), Some(green), Some(blue)) => Some((red, green, blue)),
        _ => None,
    }
}

} // verus!
