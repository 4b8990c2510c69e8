//! Colours written as hexadecimal strings (`#rrggbb` or `#rrggbbaa`).
use vstd::prelude::*;

verus! {

/// An 8-bit RGBA colour.
#[derive(Clone, Copy, Debug, PartialEq, Eq, Structural)]
pub struct Rgba {
    pub r: u8,
    pub g: u8,
    pub b: u8,
    pub a: u8,
}

impl Rgba {
    pub fn black() -> (r: Rgba)
        ensures
            r == (Rgba { r: 0, g: 0, b: 0, a: 255 }),
    {
        Rgba { r: 0, g: 0, b: 0, a: 255 }
    }

    pub fn white() -> (r: Rgba)
        ensures
            r == (Rgba { r: 255, g: 255, b: 255, a: 255 }),
    {
        Rgba { r: 255, g: 255, b: 255, a: 255 }
    }
}

/// The value of one hexadecimal digit, either case.
pub open spec fn hex_value(c: char) -> Option<u8> {
    if '0' <= c && c <= '9' {
        Some((c as u32 - '0' as u32) as u8)
    } else if 'a' <= c && c <= 'f' {
        Some((c as u32 - 'a' as u32 + 10) as u8)
    } else if 'A' <= c && c <= 'F' {
        Some((c as u32 - 'A' as u32 + 10) as u8)
    } else {
        None
    }
}

/// The lower-case digit for a value below sixteen.
pub open spec fn hex_digit(n: u8) -> char {
    if n < 10 {
        ((n + 48) as u8) as char
    } else {
        ((n + 87) as u8) as char
    }
}

/// The byte written by the two digits at `i` and `i + 1`.
pub open spec fn byte_at(s: Seq<char>, i: int) -> Option<u8> {
    match (hex_value(s[i]), hex_value(s[i + 1])) {
        (Some(hi), Some(lo)) => Some((hi * 16 + lo) as u8),
        _ => None,
    }
}

/// The text after an optional leading `#`.
pub open spec fn digits_of(s: Seq<char>) -> Seq<char> {
    if s.len() > 0 && s[0] == '#' {
        s.drop_first()
    } else {
        s
    }
}

/// Six digits give an opaque colour, eight give one with alpha; anything else is no colour.
pub open spec fn parse_spec(s: Seq<char>) -> Option<Rgba> {
    let d = digits_of(s);
    if d.len() != 6 && d.len() != 8 {
        None
    } else {
        match (byte_at(d, 0), byte_at(d, 2), byte_at(d, 4)) {
            (Some(r), Some(g), Some(b)) => if d.len() == 6 {
                Some(Rgba { r, g, b, a: 255 })
            } else {
                match byte_at(d, 6) {
                    Some(a) => Some(Rgba { r, g, b, a }),
                    None => None,
                }
            },
            _ => None,
        }
    }
}

pub open spec fn byte_text(n: u8) -> Seq<char> {
    seq![hex_digit(n / 16), hex_digit(n % 16)]
}

/// `#rrggbb` for an opaque colour, `#rrggbbaa` otherwise, in lower case.
pub open spec fn format_spec(c: Rgba) -> Seq<char> {
    let rgb = seq!['#'] + byte_text(c.r) + byte_text(c.g) + byte_text(c.b);
    if c.a == 255 {
        rgb
    } else {
        rgb + byte_text(c.a)
    }
}

proof fn lemma_digit_value(n: u8)
    requires
        n < 16,
    ensures
        hex_value(hex_digit(n)) == Some(n),
{
}

proof fn lemma_byte_text(s: Seq<char>, i: int, n: u8)
    requires
        0 <= i,
        i + 1 < s.len(),
        s[i] == hex_digit(n / 16),
        s[i + 1] == hex_digit(n % 16),
    ensures
        byte_at(s, i) == Some(n),
{
    lemma_digit_value(n / 16);
    lemma_digit_value(n % 16);
    assert((n / 16) * 16 + n % 16 == n) by (nonlinear_arith);
}

/// Reading back the text written for a colour gives that colour.
pub proof fn lemma_color_round_trip(c: Rgba)
    ensures
        parse_spec(format_spec(c)) == Some(c),
{
    let s = format_spec(c);
    let d = digits_of(s);
    assert(d =~= s.drop_first());
    lemma_byte_text(d, 0, c.r);
    lemma_byte_text(d, 2, c.g);
    lemma_byte_text(d, 4, c.b);
    if c.a != 255 {
        lemma_byte_text(d, 6, c.a);
    }
}

/// Relies on `String::push`: appends one character.
#[verifier::external_body]
pub(crate) fn push_char(s: &mut String, c: char)
    ensures
        final(s)@ == old(s)@.push(c),
{
    s.push(c)
}

fn hex_value_of(c: char) -> (r: Option<u8>)
    ensures
        r == hex_value(c),
{
    if '0' <= c && c <= '9' {
        Some((c as u32 - '0' as u32) as u8)
    } else if 'a' <= c && c <= 'f' {
        Some((c as u32 - 'a' as u32 + 10) as u8)
    } else if 'A' <= c && c <= 'F' {
        Some((c as u32 - 'A' as u32 + 10) as u8)
    } else {
        None
    }
}

fn digit_of(n: u8) -> (c: char)
    requires
        n < 16,
    ensures
        c == hex_digit(n),
{
    if n < 10 {
        (n + 48) as char
    } else {
        (n + 87) as char
    }
}

fn read_byte(d: &str, start: usize, i: usize) -> (r: Option<u8>)
    requires
        start <= 1,
        i < 8,
        start + i + 1 < d@.len(),
    ensures
        r == byte_at(d@.subrange(start as int, d@.len() as int), i as int),
{
    let hi = hex_value_of(d.get_char(start + i));
    let lo = hex_value_of(d.get_char(start + i + 1));
    match (hi, lo) {
        (Some(h), Some(l)) => Some(h * 16 + l),
        _ => None,
    }
}

/// A string that is not a hexadecimal colour.
#[derive(Clone, Copy, Debug, PartialEq, Eq, Structural)]
pub struct InvalidColor;

/// Reads a colour from `#rrggbb` or `#rrggbbaa` (the `#` may be left out, digits in
/// either case).
pub fn deserialize(hex: &str) -> (r: Result<Rgba, InvalidColor>)
    ensures
        match parse_spec(hex@) {
            Some(c) => r == Ok::<Rgba, InvalidColor>(c),
            None => r == Err::<Rgba, InvalidColor>(InvalidColor),
        },
{
    match parse_color(hex) {
        Some(c) => Ok(c),
        None => Err(InvalidColor),
    }
}

fn parse_color(s: &str) -> (r: Option<Rgba>)
    ensures
        r == parse_spec(s@),
{
    let len = s.unicode_len();
    let start: usize = if len > 0 && s.get_char(0) == '#' {
        1
    } else {
        0
    };
    proof {
        assert(digits_of(s@) =~= s@.subrange(start as int, s@.len() as int));
    }
    let n = len - start;
    if n != 6 && n != 8 {
        return None;
    }
    let r = read_byte(s, start, 0);
    let g = read_byte(s, start, 2);
    let b = read_byte(s, start, 4);
    match (r, g, b) {
        (Some(r), Some(g), Some(b)) => if n == 6 {
            Some(Rgba { r, g, b, a: 255 })
        } else {
            match read_byte(s, start, 6) {
                Some(a) => Some(Rgba { r, g, b, a }),
                None => None,
            }
        },
        _ => None,
    }
}

fn push_byte(s: &mut String, n: u8)
    ensures
        final(s)@ == old(s)@ + byte_text(n),
{
    push_char(s, digit_of(n / 16));
    push_char(s, digit_of(n % 16));
    proof {
        assert(final(s)@ =~= old(s)@ + byte_text(n));
    }
}

/// Writes a colour as `#rrggbb`, with a fourth pair for alpha when it is not opaque.
pub fn serialize(color: &Rgba) -> (r: String)
    ensures
        r@ == format_spec(*color),
{
    let c = color;
    let mut s = String::new();
    push_char(&mut s, '#');
    push_byte(&mut s, c.r);
    push_byte(&mut s, c.g);
    push_byte(&mut s, c.b);
    if c.a != 255 {
        push_byte(&mut s, c.a);
    }
    proof {
        assert(s@ =~= format_spec(*c));
    }
    s
}

} // verus!
