//! Colors: 8-bit ARGB values with two bits per channel, and parsing of
//! hexadecimal color literals such as `"#ff00aa"`.
use vstd::prelude::*;
use vstd::string::StringSliceAdditionalSpecFns;

verus! {

/// A color with two bits each for alpha, red, green and blue (`0bAARRGGBB`).
#[derive(Clone, Copy, PartialEq, Eq, Structural, Debug)]
pub struct GColor {
    pub argb: u8,
}

impl GColor {
    /// Opaque black.
    pub fn black() -> (r: GColor)
        ensures
            r.argb == 0b1100_0000,
    {
        GColor { argb: 0b1100_0000 }
    }

    /// Opaque white.
    pub fn white() -> (r: GColor)
        ensures
            r.argb == 0b1111_1111,
    {
        GColor { argb: 0b1111_1111 }
    }
}

/// A color parsed from a hexadecimal literal.
#[derive(Clone, Copy, PartialEq, Eq, Structural, Debug)]
pub struct ParsedColor {
    pub value: u8,
}

/// The value of an ASCII hexadecimal digit (either case).
pub open spec fn hex_digit_value(b: u8) -> Option<u8> {
    if 0x30 <= b <= 0x39 {
        Some((b - 0x30) as u8)
    } else if 0x61 <= b <= 0x66 {
        Some((b - 0x61 + 10) as u8)
    } else if 0x41 <= b <= 0x46 {
        Some((b - 0x41 + 10) as u8)
    } else {
        None
    }
}

/// The number that two bytes spell in base 16 as `u8::from_str_radix` reads
/// them: two hex digits, or a `+` sign followed by one hex digit.
pub open spec fn spec_parse_hex_digit(b1: u8, b2: u8) -> Option<u8> {
    match (hex_digit_value(b1), hex_digit_value(b2)) {
        (Some(h), Some(l)) => Some((16 * h + l) as u8),
        (None, Some(l)) => if b1 == 0x2b {
            Some(l)
        } else {
            None
        },
        _ => None,
    }
}

/// The two-bit channel value for the full-range channel values `00`, `55`,
/// `aa` and `ff`.
pub open spec fn spec_2bit_value(value: u8) -> Option<u8> {
    if value == 0xff {
        Some(3)
    } else if value == 0xaa {
        Some(2)
    } else if value == 0x55 {
        Some(1)
    } else if value == 0 {
        Some(0)
    } else {
        None
    }
}

/// The packed `0bAARRGGBB` byte, when every channel is one of the four
/// representable values.
pub open spec fn spec_make_argb(a: u8, r: u8, g: u8, b: u8) -> Option<u8> {
    match (spec_2bit_value(a), spec_2bit_value(r), spec_2bit_value(g), spec_2bit_value(b)) {
        (Some(a2), Some(r2), Some(g2), Some(b2)) => Some((64 * a2 + 16 * r2 + 4 * g2 + b2) as u8),
        _ => None,
    }
}

/// `s` without its leading bytes equal to `c`.
pub open spec fn strip_leading(s: Seq<u8>, c: u8) -> Seq<u8>
    decreases s.len(),
{
    if s.len() > 0 && s[0] == c {
        strip_leading(s.drop_first(), c)
    } else {
        s
    }
}

/// `s` without its trailing bytes equal to `c`.
pub open spec fn strip_trailing(s: Seq<u8>, c: u8) -> Seq<u8>
    decreases s.len(),
{
    if s.len() > 0 && s.last() == c {
        strip_trailing(s.drop_last(), c)
    } else {
        s
    }
}

/// The digits of a color literal: without leading quotes, then without
/// leading `#`, then without trailing quotes.
pub open spec fn literal_digits(s: Seq<u8>) -> Seq<u8> {
    strip_trailing(strip_leading(strip_leading(s, 0x22), 0x23), 0x22)
}

/// Two hex digits, or one digit repeated, parsed as a channel value.
pub open spec fn channel(d: Seq<u8>, i: int, j: int) -> Option<u8> {
    spec_parse_hex_digit(d[i], d[j])
}

/// The (alpha, red, green, blue) channels that the digits spell: `RGB`,
/// `RGBA`, `RRGGBB` or `RRGGBBAA`; alpha is `ff` when absent.
pub open spec fn literal_channels(d: Seq<u8>) -> Option<(u8, u8, u8, u8)> {
    if d.len() == 3 {
        match (channel(d, 0, 0), channel(d, 1, 1), channel(d, 2, 2)) {
            (Some(r), Some(g), Some(b)) => Some((0xffu8, r, g, b)),
            _ => None,
        }
    } else if d.len() == 4 {
        match (channel(d, 0, 0), channel(d, 1, 1), channel(d, 2, 2), channel(d, 3, 3)) {
            (Some(r), Some(g), Some(b), Some(a)) => Some((a, r, g, b)),
            _ => None,
        }
    } else if d.len() == 6 {
        match (channel(d, 0, 1), channel(d, 2, 3), channel(d, 4, 5)) {
            (Some(r), Some(g), Some(b)) => Some((0xffu8, r, g, b)),
            _ => None,
        }
    } else if d.len() == 8 {
        match (channel(d, 0, 1), channel(d, 2, 3), channel(d, 4, 5), channel(d, 6, 7)) {
            (Some(r), Some(g), Some(b), Some(a)) => Some((a, r, g, b)),
            _ => None,
        }
    } else {
        None
    }
}

/// Whether the literal's channels exist but one of them is not representable
/// (not `00`, `55`, `aa` or `ff`), which is refused as a programming error.
pub open spec fn literal_unrepresentable(s: Seq<u8>) -> bool {
    match literal_channels(literal_digits(s)) {
        Some((a, r, g, b)) => spec_make_argb(a, r, g, b) is None,
        None => false,
    }
}

/// The color that a literal spells, or `None` when it does not spell one.
pub open spec fn spec_parse_hex_literal(s: Seq<u8>) -> Option<ParsedColor> {
    match literal_channels(literal_digits(s)) {
        Some((a, r, g, b)) => Some(ParsedColor { value: spec_make_argb(a, r, g, b).unwrap() }),
        None => None,
    }
}

fn hex_digit(b: u8) -> (r: Option<u8>)
    ensures
        r == hex_digit_value(b),
{
    if 0x30 <= b && b <= 0x39 {
        Some(b - 0x30)
    } else if 0x61 <= b && b <= 0x66 {
        Some(b - 0x61 + 10)
    } else if 0x41 <= b && b <= 0x46 {
        Some(b - 0x41 + 10)
    } else {
        None
    }
}

/// Parses two bytes as a base-16 number, as `u8::from_str_radix` does.
pub fn parse_hex_digit(b1: u8, b2: u8) -> (r: Option<u8>)
    ensures
        r == spec_parse_hex_digit(b1, b2),
{
    match (hex_digit(b1), hex_digit(b2)) {
        (Some(h), Some(l)) => Some(16 * h + l),
        (None, Some(l)) => if b1 == 0x2b {
            Some(l)
        } else {
            None
        },
        _ => None,
    }
}

/// Maps the channel values `ff`, `aa`, `55`, `00` to their two-bit values.
pub fn get_2bit_value(value: u8) -> (r: Option<u8>)
    ensures
        r == spec_2bit_value(value),
{
    match value {
        0xff => Some(0b11),
        0xaa => Some(0b10),
        0x55 => Some(0b01),
        0x00 => Some(0),
        _ => None,
    }
}

/// Packs four channel values into `0bAARRGGBB`.
pub fn make_argb(a: u8, r: u8, g: u8, b: u8) -> (res: Option<u8>)
    ensures
        res == spec_make_argb(a, r, g, b),
{
    let a2 = get_2bit_value(a)?;
    let r2 = get_2bit_value(r)?;
    let g2 = get_2bit_value(g)?;
    let b2 = get_2bit_value(b)?;
    proof {
        assert(a2 << 6u8 == 64 * a2) by (bit_vector)
            requires
                a2 <= 3,
        ;
        assert(r2 << 4u8 == 16 * r2) by (bit_vector)
            requires
                r2 <= 3,
        ;
        assert(g2 << 2u8 == 4 * g2) by (bit_vector)
            requires
                g2 <= 3,
        ;
    }
    Some((a2 << 6u8) + (r2 << 4u8) + (g2 << 2u8) + b2)
}

/// The first index at or after `lo` (and before `hi`) whose byte is not `c`.
fn skip_leading(s: &[u8], lo: usize, hi: usize, c: u8) -> (r: usize)
    requires
        lo <= hi <= s@.len(),
    ensures
        lo <= r <= hi,
        strip_leading(s@.subrange(lo as int, hi as int), c) == s@.subrange(r as int, hi as int),
{
    let mut i = lo;
    while i < hi && s[i] == c
        invariant
            lo <= i <= hi <= s@.len(),
            strip_leading(s@.subrange(lo as int, hi as int), c) == strip_leading(
                s@.subrange(i as int, hi as int),
                c,
            ),
        decreases hi - i,
    {
        assert(s@.subrange(i as int, hi as int).drop_first() =~= s@.subrange(
            i + 1,
            hi as int,
        ));
        i = i + 1;
    }
    i
}

/// The last index at or before `hi` (and after `lo`) such that the byte
/// before it is not `c`.
fn skip_trailing(s: &[u8], lo: usize, hi: usize, c: u8) -> (r: usize)
    requires
        lo <= hi <= s@.len(),
    ensures
        lo <= r <= hi,
        strip_trailing(s@.subrange(lo as int, hi as int), c) == s@.subrange(lo as int, r as int),
{
    let mut j = hi;
    while j > lo && s[j - 1] == c
        invariant
            lo <= j <= hi <= s@.len(),
            strip_trailing(s@.subrange(lo as int, hi as int), c) == strip_trailing(
                s@.subrange(lo as int, j as int),
                c,
            ),
        decreases j - lo,
    {
        assert(s@.subrange(lo as int, j as int).drop_last() =~= s@.subrange(
            lo as int,
            j - 1,
        ));
        j = j - 1;
    }
    j
}

/// The (alpha, red, green, blue) channel values that a hexadecimal color
/// literal like `"#ff00aa"` spells (quotes and `#` optional; 3, 4, 6 or 8
/// digits; alpha `ff` when absent), or `None` when it spells none.
pub fn hex_literal_channels(literal: &str) -> (r: Option<(u8, u8, u8, u8)>)
    ensures
        r == literal_channels(literal_digits(literal.spec_bytes())),
{
    let bytes = literal.as_bytes();
    let n = bytes.len();
    proof {
        assert(bytes@.subrange(0, n as int) =~= bytes@);
    }
    let a = skip_leading(bytes, 0, n, 0x22);
    let b = skip_leading(bytes, a, n, 0x23);
    let e = skip_trailing(bytes, b, n, 0x22);
    let digits = &bytes[b..e];
    proof {
        assert(digits@ == literal_digits(bytes@));
    }
    let len = digits.len();
    if len == 3 {
        let r = parse_hex_digit(digits[0], digits[0])?;
        let g = parse_hex_digit(digits[1], digits[1])?;
        let b = parse_hex_digit(digits[2], digits[2])?;
        Some((0xffu8, r, g, b))
    } else if len == 4 {
        let r = parse_hex_digit(digits[0], digits[0])?;
        let g = parse_hex_digit(digits[1], digits[1])?;
        let b = parse_hex_digit(digits[2], digits[2])?;
        let a = parse_hex_digit(digits[3], digits[3])?;
        Some((a, r, g, b))
    } else if len == 6 {
        let r = parse_hex_digit(digits[0], digits[1])?;
        let g = parse_hex_digit(digits[2], digits[3])?;
        let b = parse_hex_digit(digits[4], digits[5])?;
        Some((0xffu8, r, g, b))
    } else if len == 8 {
        let r = parse_hex_digit(digits[0], digits[1])?;
        let g = parse_hex_digit(digits[2], digits[3])?;
        let b = parse_hex_digit(digits[4], digits[5])?;
        let a = parse_hex_digit(digits[6], digits[7])?;
        Some((a, r, g, b))
    } else {
        None
    }
}

/// Parses a hexadecimal color literal like `"#ff00aa"` (quotes and `#`
/// optional) with 3, 4, 6 or 8 digits. Every channel must be one of `00`,
/// `55`, `aa` or `ff`.
pub fn parse_hex_literal(literal: &str) -> (r: Option<ParsedColor>)
    requires
        !literal_unrepresentable(literal.spec_bytes()),
    ensures
        r == spec_parse_hex_literal(literal.spec_bytes()),
{
    let (alpha, red, green, blue) = hex_literal_channels(literal)?;
    match make_argb(alpha, red, green, blue) {
        Some(value) => Some(ParsedColor { value }),
        None => None,
    }
}

/// Each channel value decodes from its own two-bit value: packing is
/// injective and every packed byte of representable channels is reached.
pub proof fn lemma_make_argb_channels(a: u8, r: u8, g: u8, b: u8)
    requires
        spec_make_argb(a, r, g, b) is Some,
    ensures
        ({
            let v = spec_make_argb(a, r, g, b).unwrap();
            &&& v / 64 == spec_2bit_value(a).unwrap()
            &&& (v / 16) % 4 == spec_2bit_value(r).unwrap()
            &&& (v / 4) % 4 == spec_2bit_value(g).unwrap()
            &&& v % 4 == spec_2bit_value(b).unwrap()
        }),
{
}

} // verus!
