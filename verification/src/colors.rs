//! Colors as 8-bit RGBA values, with a verified hex-string encoding.
//!
//! A color parses from `#RRGGBB` or `#RRGGBBAA` (the leading `#` optional) and
//! formats as `#RRGGBB`, appending the alpha pair only when alpha is not 255.

use vstd::prelude::*;
use vstd::arithmetic::div_mod::lemma_fundamental_div_mod;
use vstd::string::StrSliceExecFns;
use vstd::string::StringExecFns;

verus! {

/// A color with 8-bit red, green, blue and alpha components.
#[derive(Debug, Clone, Copy, PartialEq, Eq, Structural)]
pub struct Color {
    /// Red component (0-255).
    pub r: u8,
    /// Green component (0-255).
    pub g: u8,
    /// Blue component (0-255).
    pub b: u8,
    /// Alpha component (0-255).
    pub a: u8,
}

/// Holds when `c` is an ASCII hexadecimal digit (`0-9`, `a-f`, `A-F`).
pub open spec fn is_hex_digit(c: char) -> bool {
    (48 <= c as u32 && c as u32 <= 57)  // '0' to '9'
    || (97 <= c as u32 && c as u32 <= 102)  // 'a' to 'f'
    || (65 <= c as u32 && c as u32 <= 70)  // 'A' to 'F'
}

/// The numeric value of a hexadecimal digit (0 when `c` is not one).
pub open spec fn hex_digit_value(c: char) -> nat {
    if 48 <= c as u32 && c as u32 <= 57 {
        (c as u32 - 48) as nat
    } else if 97 <= c as u32 && c as u32 <= 102 {
        (c as u32 - 87) as nat
    } else if 65 <= c as u32 && c as u32 <= 70 {
        (c as u32 - 55) as nat
    } else {
        0
    }
}

/// The uppercase hexadecimal digit for a value below 16 (`'0'` otherwise).
pub open spec fn hex_digit_char(v: nat) -> char {
    if v == 0 { '0' }
    else if v == 1 { '1' }
    else if v == 2 { '2' }
    else if v == 3 { '3' }
    else if v == 4 { '4' }
    else if v == 5 { '5' }
    else if v == 6 { '6' }
    else if v == 7 { '7' }
    else if v == 8 { '8' }
    else if v == 9 { '9' }
    else if v == 10 { 'A' }
    else if v == 11 { 'B' }
    else if v == 12 { 'C' }
    else if v == 13 { 'D' }
    else if v == 14 { 'E' }
    else if v == 15 { 'F' }
    else { '0' }
}

/// `s` with its single optional leading `'#'` removed: at most one is
/// stripped, so a second `'#'` makes the string malformed.
pub open spec fn strip_hash_prefix(s: Seq<char>) -> Seq<char> {
    if s.len() > 0 && s[0] == '#' {
        s.drop_first()
    } else {
        s
    }
}

/// Holds when every character of `s` is a hexadecimal digit.
pub open spec fn all_hex_digits(s: Seq<char>) -> bool {
    forall|i: int| 0 <= i < s.len() ==> is_hex_digit(s[i])
}

/// The byte value written by the two hexadecimal digits at `i` and `i + 1`.
pub open spec fn hex_pair_value(s: Seq<char>, i: int) -> nat {
    16 * hex_digit_value(s[i]) + hex_digit_value(s[i + 1])
}

/// The color denoted by the hex string `s`: after stripping the single
/// optional leading `'#'`, six hex digits give RGB with alpha 255, eight
/// give RGBA; anything else — a wrong length, a non-hex digit, a second
/// `'#'` — denotes no color.
pub open spec fn spec_from_hex(s: Seq<char>) -> Option<Color> {
    let h = strip_hash_prefix(s);
    if (h.len() == 6 || h.len() == 8) && all_hex_digits(h) {
        Some(Color {
            r: hex_pair_value(h, 0) as u8,
            g: hex_pair_value(h, 2) as u8,
            b: hex_pair_value(h, 4) as u8,
            a: if h.len() == 8 { hex_pair_value(h, 6) as u8 } else { 255 },
        })
    } else {
        None
    }
}

/// The two uppercase hexadecimal digits writing the byte value `v`.
pub open spec fn byte_hex(v: nat) -> Seq<char> {
    seq![hex_digit_char(v / 16), hex_digit_char(v % 16)]
}

/// The canonical hex form of a color: `#RRGGBB`, with `AA` appended only when
/// alpha is not 255. Digits are uppercase.
pub open spec fn spec_to_hex(c: Color) -> Seq<char> {
    let base = seq!['#'] + byte_hex(c.r as nat) + byte_hex(c.g as nat) + byte_hex(c.b as nat);
    if c.a == 255 {
        base
    } else {
        base + byte_hex(c.a as nat)
    }
}

/// Converts one character to its hexadecimal value, or `None` when it is not
/// a hexadecimal digit.
fn hex_digit(c: char) -> (v: Option<u8>)
    ensures
        match v {
            Some(d) => is_hex_digit(c) && d == hex_digit_value(c) && d < 16,
            None => !is_hex_digit(c),
        },
{
    let u = c as u32;
    if 48 <= u && u <= 57 {
        Some((u - 48) as u8)
    } else if 97 <= u && u <= 102 {
        Some((u - 87) as u8)
    } else if 65 <= u && u <= 70 {
        Some((u - 55) as u8)
    } else {
        None
    }
}

/// Reads the byte written by the two hexadecimal digits of `s` at positions
/// `i` and `i + 1`, or `None` when either is not a hexadecimal digit.
fn hex_pair(s: &str, i: usize) -> (v: Option<u8>)
    requires
        i + 1 < s@.len() <= usize::MAX,
    ensures
        match v {
            Some(d) => is_hex_digit(s@[i as int]) && is_hex_digit(s@[i + 1])
                && d == hex_pair_value(s@, i as int),
            None => !(is_hex_digit(s@[i as int]) && is_hex_digit(s@[i + 1])),
        },
{
    let hi = match hex_digit(s.get_char(i)) {
        Some(d) => d,
        None => { return None; },
    };
    let lo = match hex_digit(s.get_char(i + 1)) {
        Some(d) => d,
        None => { return None; },
    };
    Some(hi * 16 + lo)
}

/// The one-character string holding the uppercase hexadecimal digit for `v`.
fn hex_digit_str(v: u8) -> (s: &'static str)
    requires
        v < 16,
    ensures
        s@ == seq![hex_digit_char(v as nat)],
{
    if v == 0 { proof { reveal_strlit("0"); } "0" }
    else if v == 1 { proof { reveal_strlit("1"); } "1" }
    else if v == 2 { proof { reveal_strlit("2"); } "2" }
    else if v == 3 { proof { reveal_strlit("3"); } "3" }
    else if v == 4 { proof { reveal_strlit("4"); } "4" }
    else if v == 5 { proof { reveal_strlit("5"); } "5" }
    else if v == 6 { proof { reveal_strlit("6"); } "6" }
    else if v == 7 { proof { reveal_strlit("7"); } "7" }
    else if v == 8 { proof { reveal_strlit("8"); } "8" }
    else if v == 9 { proof { reveal_strlit("9"); } "9" }
    else if v == 10 { proof { reveal_strlit("A"); } "A" }
    else if v == 11 { proof { reveal_strlit("B"); } "B" }
    else if v == 12 { proof { reveal_strlit("C"); } "C" }
    else if v == 13 { proof { reveal_strlit("D"); } "D" }
    else if v == 14 { proof { reveal_strlit("E"); } "E" }
    else { proof { reveal_strlit("F"); } "F" }
}

impl Color {
    /// Creates a color from its four components.
    pub fn rgba(r: u8, g: u8, b: u8, a: u8) -> (c: Color)
        ensures
            c == (Color { r, g, b, a }),
    {
        Color { r, g, b, a }
    }

    /// Creates an opaque color from its RGB components (alpha is 255).
    pub fn rgb(r: u8, g: u8, b: u8) -> (c: Color)
        ensures
            c == (Color { r, g, b, a: 255 }),
    {
        Color { r, g, b, a: 255 }
    }

    /// Parses a color from a hex string such as `"#FF0000"` or `"#FF0000FF"`;
    /// the single leading `#` is optional and digits of either case are
    /// accepted. A malformed string (wrong length, non-hex digit) yields
    /// `None`.
    pub fn from_hex(hex: &str) -> (c: Option<Color>)
        ensures
            c == spec_from_hex(hex@),
    {
        let n = hex.unicode_len();
        let start: usize = if n > 0 && hex.get_char(0) == '#' {
            1
        } else {
            0
        };
        let ghost h = strip_hash_prefix(hex@);
        proof {
            assert(hex@.subrange(start as int, n as int) =~= h);
        }
        let m = n - start;
        if m != 6 && m != 8 {
            return None;
        }
        let r = match hex_pair(hex, start) {
            Some(d) => d,
            None => {
                proof { assert(!all_hex_digits(h)); }
                return None;
            },
        };
        let g = match hex_pair(hex, start + 2) {
            Some(d) => d,
            None => {
                proof { assert(!all_hex_digits(h)); }
                return None;
            },
        };
        let b = match hex_pair(hex, start + 4) {
            Some(d) => d,
            None => {
                proof { assert(!all_hex_digits(h)); }
                return None;
            },
        };
        let a = if m == 8 {
            match hex_pair(hex, start + 6) {
                Some(d) => d,
                None => {
                    proof { assert(!all_hex_digits(h)); }
                    return None;
                },
            }
        } else {
            255
        };
        proof {
            assert forall|i: int| 0 <= i < h.len() implies is_hex_digit(h[i]) by {
                assert(h[i] == hex@[start + i]);
            }
        }
        Some(Color { r, g, b, a })
    }

    /// Formats the color as its canonical hex string: `#RRGGBB`, with the
    /// alpha pair appended only when alpha is not 255. Digits are uppercase.
    pub fn to_hex(&self) -> (s: String)
        ensures
            s@ == spec_to_hex(*self),
    {
        let mut s = String::from_str("#");
        proof {
            reveal_strlit("#");
        }
        s.append(hex_digit_str(self.r / 16));
        s.append(hex_digit_str(self.r % 16));
        s.append(hex_digit_str(self.g / 16));
        s.append(hex_digit_str(self.g % 16));
        s.append(hex_digit_str(self.b / 16));
        s.append(hex_digit_str(self.b % 16));
        if self.a != 255 {
            s.append(hex_digit_str(self.a / 16));
            s.append(hex_digit_str(self.a % 16));
        }
        proof {
            assert(s@ =~= spec_to_hex(*self));
        }
        s
    }

    /// Packs the color into a `u32` as `0xRRGGBBAA`.
    pub fn as_u32(&self) -> (v: u32)
        ensures
            v == (self.r as u32) * 0x1000000 + (self.g as u32) * 0x10000
                + (self.b as u32) * 0x100 + (self.a as u32),
    {
        let v = ((self.r as u32) << 24u32) | ((self.g as u32) << 16u32)
            | ((self.b as u32) << 8u32) | (self.a as u32);
        proof {
            let r = self.r as u32;
            let g = self.g as u32;
            let b = self.b as u32;
            let a = self.a as u32;
            assert((r << 24u32) | (g << 16u32) | (b << 8u32) | a
                == r * 0x1000000 + g * 0x10000 + b * 0x100 + a) by (bit_vector)
                requires r < 256 && g < 256 && b < 256 && a < 256;
        }
        v
    }
}

/// Every value below 16 reads back from its hexadecimal digit.
proof fn lemma_hex_digit_char_value(v: nat)
    requires
        v < 16,
    ensures
        is_hex_digit(hex_digit_char(v)),
        hex_digit_value(hex_digit_char(v)) == v,
{
}

/// Splitting a byte into its two hex digits and reading them back gives the
/// byte again.
proof fn lemma_byte_hex_value(v: nat)
    requires
        v < 256,
    ensures
        is_hex_digit(byte_hex(v)[0]),
        is_hex_digit(byte_hex(v)[1]),
        16 * hex_digit_value(byte_hex(v)[0]) + hex_digit_value(byte_hex(v)[1]) == v,
{
    lemma_fundamental_div_mod(v as int, 16);
    lemma_hex_digit_char_value(v / 16);
    lemma_hex_digit_char_value(v % 16);
}

/// Holds when `a` and `b` are the same character, or the same letter in
/// different case (ASCII).
pub open spec fn chars_eq_up_to_case(a: char, b: char) -> bool {
    ||| a == b
    ||| (97 <= a as u32 && a as u32 <= 122 && b as u32 + 32 == a as u32)
    ||| (97 <= b as u32 && b as u32 <= 122 && a as u32 + 32 == b as u32)
}

/// Formatting the value of a hexadecimal digit gives that digit back, except
/// that a lowercase digit comes back uppercase.
proof fn lemma_hex_digit_char_of_value(c: char)
    requires
        is_hex_digit(c),
    ensures
        chars_eq_up_to_case(c, hex_digit_char(hex_digit_value(c))),
{
}

/// The two digits of a byte written in hex recover the digits the byte was
/// assembled from.
proof fn lemma_pair_split(a: nat, b: nat)
    requires
        a < 16,
        b < 16,
    ensures
        (16 * a + b) / 16 == a,
        (16 * a + b) % 16 == b,
{
    vstd::arithmetic::div_mod::lemma_fundamental_div_mod_converse(
        (16 * a + b) as int, 16, a as int, b as int);
}

/// Parsing a well-formed `#`-prefixed hex string and formatting the result
/// reproduces the string, up to letter case. The inputs left out are the ones
/// on which the canonical form genuinely differs: strings without the leading
/// `#`, and eight-digit strings whose alpha pair is 255 (the canonical form
/// omits that pair).
pub proof fn lemma_hex_string_roundtrip(s: Seq<char>)
    requires
        s.len() == 7 || s.len() == 9,
        s[0] == '#',
        forall|i: int| 1 <= i < s.len() ==> is_hex_digit(s[i]),
        s.len() == 9 ==> 16 * hex_digit_value(s[7]) + hex_digit_value(s[8]) != 255,
    ensures
        spec_from_hex(s) matches Some(c) && {
            let out = spec_to_hex(c);
            out.len() == s.len()
            && forall|i: int| 0 <= i < s.len() ==> chars_eq_up_to_case(s[i], out[i])
        },
{
    let t = s.subrange(1, s.len() as int);
    assert(s.drop_first() =~= t);
    let h = strip_hash_prefix(s);
    assert(h == t);
    assert(all_hex_digits(h));
    let c = spec_from_hex(s)->Some_0;
    lemma_pair_split(hex_digit_value(h[0]), hex_digit_value(h[1]));
    lemma_pair_split(hex_digit_value(h[2]), hex_digit_value(h[3]));
    lemma_pair_split(hex_digit_value(h[4]), hex_digit_value(h[5]));
    if s.len() == 9 {
        lemma_pair_split(hex_digit_value(h[6]), hex_digit_value(h[7]));
        assert(c.a != 255);
    }
    let out = spec_to_hex(c);
    assert forall|i: int| 0 <= i < s.len() implies chars_eq_up_to_case(s[i], out[i]) by {
        if i >= 1 {
            assert(out[i] == hex_digit_char(hex_digit_value(s[i])));
            lemma_hex_digit_char_of_value(s[i]);
        }
    }
}

/// Parsing the canonical hex form of any color reproduces that color's exact
/// RGBA components.
pub proof fn lemma_to_hex_roundtrip(c: Color)
    ensures
        spec_from_hex(spec_to_hex(c)) == Some(c),
{
    let s = spec_to_hex(c);
    lemma_byte_hex_value(c.r as nat);
    lemma_byte_hex_value(c.g as nat);
    lemma_byte_hex_value(c.b as nat);
    lemma_byte_hex_value(c.a as nat);
    let t = s.subrange(1, s.len() as int);
    assert(s[0] == '#');
    assert(s.drop_first() =~= t);
    let h = strip_hash_prefix(s);
    assert(h == t);
    assert(all_hex_digits(h));
    assert(hex_pair_value(h, 0) == c.r as nat);
    assert(hex_pair_value(h, 2) == c.g as nat);
    assert(hex_pair_value(h, 4) == c.b as nat);
    if c.a != 255 {
        assert(hex_pair_value(h, 6) == c.a as nat);
    }
}

} // verus!
