//! The colour panel's hex notation: `#RGB`, `#RGBA`, `#RRGGBB` and
//! `#RRGGBBAA`, read and written at the level of 8-bit channels. Converting
//! a channel to and from the 0..1 floating-point form the renderer uses is
//! left to the caller.

use vstd::prelude::*;
use vstd::utf8::{encode_utf8, is_ascii_chars, is_ascii_chars_encode_utf8};
use crate::text::{is_white_space, trim_end_seq, trim_seq, trim_start_seq};

verus! {

/// Which notation the colour panel's numeric editor shows.
#[derive(Debug, Clone, Copy, PartialEq, Eq, Structural)]
pub enum ColorMode {
    Hex,
    Rgb,
    Hsv,
}

impl Default for ColorMode {
    fn default() -> (r: Self)
        ensures
            r == ColorMode::Hex,
    {
        ColorMode::Hex
    }
}

/// A colour as four 8-bit channels, alpha last.
#[derive(Debug, Clone, Copy, PartialEq, Eq, Structural)]
pub struct Rgba8 {
    pub r: u8,
    pub g: u8,
    pub b: u8,
    pub a: u8,
}

/// Upper-case hex digits, indexed by value.
pub const HEX_UPPER: [char; 16] = [
    '0', '1', '2', '3', '4', '5', '6', '7', '8', '9', 'A', 'B', 'C', 'D', 'E', 'F',
];

/// The value of one hex digit byte, either case.
pub open spec fn hex_val(c: u8) -> Option<u8> {
    if 0x30 <= c <= 0x39 {
        Some((c - 0x30) as u8)
    } else if 0x61 <= c <= 0x66 {
        Some((c - 0x61 + 10) as u8)
    } else if 0x41 <= c <= 0x46 {
        Some((c - 0x41 + 10) as u8)
    } else {
        None
    }
}

/// `u8::from_str_radix(.., 16)` on the two bytes `x y`: two hex digits, or
/// a `+` sign followed by one.
pub open spec fn radix16_pair(x: u8, y: u8) -> Option<u8> {
    if x == 0x2B {
        hex_val(y)
    } else {
        match (hex_val(x), hex_val(y)) {
            (Some(p), Some(q)) => Some((16 * p + q) as u8),
            _ => None,
        }
    }
}

/// Leading `#` bytes removed.
pub open spec fn strip_hashes(b: Seq<u8>) -> Seq<u8>
    decreases b.len(),
{
    if b.len() > 0 && b[0] == 0x23 {
        strip_hashes(b.drop_first())
    } else {
        b
    }
}

/// The UTF-8 bytes a hex colour's digits are read from: the text trimmed of
/// white space, then of leading `#` signs.
pub open spec fn hex_digits_of(hex: Seq<char>) -> Seq<u8> {
    strip_hashes(encode_utf8(trim_seq(hex)))
}

/// All four channels, when each one parsed.
pub open spec fn join_channels(
    r: Option<u8>,
    g: Option<u8>,
    b: Option<u8>,
    a: Option<u8>,
) -> Option<Rgba8> {
    match (r, g, b, a) {
        (Some(r), Some(g), Some(b), Some(a)) => Some(Rgba8 { r, g, b, a }),
        _ => None,
    }
}

/// The colour `d` spells: three or four single digits (each doubled), or
/// three or four digit pairs; alpha is opaque when not given.
pub open spec fn spec_parse_digits(d: Seq<u8>) -> Option<Rgba8> {
    if d.len() == 3 || d.len() == 4 {
        join_channels(
            radix16_pair(d[0], d[0]),
            radix16_pair(d[1], d[1]),
            radix16_pair(d[2], d[2]),
            if d.len() == 4 {
                radix16_pair(d[3], d[3])
            } else {
                Some(255u8)
            },
        )
    } else if d.len() == 6 || d.len() == 8 {
        join_channels(
            radix16_pair(d[0], d[1]),
            radix16_pair(d[2], d[3]),
            radix16_pair(d[4], d[5]),
            if d.len() == 8 {
                radix16_pair(d[6], d[7])
            } else {
                Some(255u8)
            },
        )
    } else {
        None
    }
}

/// Whether byte position `p` of `d` starts a character (or is the end), so
/// that text can be cut there.
pub open spec fn cut_ok(d: Seq<u8>, p: int) -> bool {
    p >= d.len() || !(0x80 <= d[p] < 0xC0)
}

/// Whether reading `d` channel by channel would cut it inside a multi-byte
/// character before a channel failed to parse — the inputs on which the
/// reader gives up by panicking rather than answering.
pub open spec fn spec_cut_misaligned(d: Seq<u8>) -> bool {
    if d.len() == 3 || d.len() == 4 {
        let r_ok = radix16_pair(d[0], d[0]) is Some;
        let g_ok = radix16_pair(d[1], d[1]) is Some;
        ||| !cut_ok(d, 1)
        ||| r_ok && !cut_ok(d, 2)
        ||| r_ok && g_ok && !cut_ok(d, 3)
    } else if d.len() == 6 || d.len() == 8 {
        let r_ok = radix16_pair(d[0], d[1]) is Some;
        let g_ok = radix16_pair(d[2], d[3]) is Some;
        ||| !cut_ok(d, 2)
        ||| r_ok && !cut_ok(d, 4)
        ||| r_ok && g_ok && !cut_ok(d, 6)
    } else {
        false
    }
}

/// The two upper-case hex digits of a byte.
pub open spec fn byte_hex(v: u8) -> Seq<char> {
    seq![HEX_UPPER@[(v / 16) as int], HEX_UPPER@[(v % 16) as int]]
}

/// `#RRGGBB`, or `#RRGGBBAA` when alpha is asked for and not opaque.
pub open spec fn spec_format_hex(c: Rgba8, include_alpha: bool) -> Seq<char> {
    seq!['#'] + byte_hex(c.r) + byte_hex(c.g) + byte_hex(c.b) + if include_alpha && c.a < 255 {
        byte_hex(c.a)
    } else {
        Seq::<char>::empty()
    }
}

fn hex_value(c: u8) -> (r: Option<u8>)
    ensures
        r == hex_val(c),
{
    if 0x30 <= c && c <= 0x39 {
        Some(c - 0x30)
    } else if 0x61 <= c && c <= 0x66 {
        Some(c - 0x61 + 10)
    } else if 0x41 <= c && c <= 0x46 {
        Some(c - 0x41 + 10)
    } else {
        None
    }
}

/// One channel from two bytes, as `u8::from_str_radix(.., 16)` reads them.
pub fn parse_pair(x: u8, y: u8) -> (r: Option<u8>)
    ensures
        r == radix16_pair(x, y),
{
    if x == 0x2B {
        hex_value(y)
    } else {
        match (hex_value(x), hex_value(y)) {
            (Some(p), Some(q)) => Some(16 * p + q),
            _ => None,
        }
    }
}

/// The digit bytes of a hex colour: `hex` trimmed, then stripped of its
/// leading `#` signs, returned as the full byte view and an offset into it.
fn digits_start(hex: &str) -> (r: (&[u8], usize))
    ensures
        r.1 <= r.0@.len(),
        r.0@.skip(r.1 as int) == hex_digits_of(hex@),
{
    let t = hex.trim();
    let bytes = t.as_bytes();
    let mut k: usize = 0;
    assert(bytes@.skip(0) =~= bytes@);
    while k < bytes.len() && bytes[k] == 0x23
        invariant
            k <= bytes@.len(),
            bytes@ == encode_utf8(trim_seq(hex@)),
            strip_hashes(bytes@) == strip_hashes(bytes@.skip(k as int)),
        decreases bytes.len() - k,
    {
        assert(bytes@.skip(k as int).drop_first() =~= bytes@.skip(k + 1));
        k = k + 1;
    }
    (bytes, k)
}

/// Whether reading the hex colour `hex` would cut its text inside a
/// multi-byte character, which the reader treats as a fatal error.
pub fn hex_cut_misaligned(hex: &str) -> (r: bool)
    ensures
        r == spec_cut_misaligned(hex_digits_of(hex@)),
{
    let (b, k) = digits_start(hex);
    let n = b.len() - k;
    let ghost d = hex_digits_of(hex@);
    assert(d.len() == n);
    if n == 3 || n == 4 {
        let r_ok = parse_pair(b[k], b[k]).is_some();
        let g_ok = parse_pair(b[k + 1], b[k + 1]).is_some();
        let c1 = 0x80 <= b[k + 1] && b[k + 1] < 0xC0;
        let c2 = 0x80 <= b[k + 2] && b[k + 2] < 0xC0;
        let c3 = n > 3 && 0x80 <= b[k + 3] && b[k + 3] < 0xC0;
        assert(d[1] == b@[k + 1] && d[2] == b@[k + 2]);
        assert(n > 3 ==> d[3] == b@[k + 3]);
        c1 || (r_ok && c2) || (r_ok && g_ok && c3)
    } else if n == 6 || n == 8 {
        let r_ok = parse_pair(b[k], b[k + 1]).is_some();
        let g_ok = parse_pair(b[k + 2], b[k + 3]).is_some();
        let c2 = 0x80 <= b[k + 2] && b[k + 2] < 0xC0;
        let c4 = 0x80 <= b[k + 4] && b[k + 4] < 0xC0;
        let c6 = n > 6 && 0x80 <= b[k + 6] && b[k + 6] < 0xC0;
        assert(d[2] == b@[k + 2] && d[4] == b@[k + 4]);
        assert(n > 6 ==> d[6] == b@[k + 6]);
        c2 || (r_ok && c4) || (r_ok && g_ok && c6)
    } else {
        false
    }
}

/// Read a hex colour in any of the four notations. White space around it
/// and any number of leading `#` signs are ignored; alpha is opaque unless
/// given. `None` for anything else.
pub fn parse_hex_rgba(hex: &str) -> (r: Option<Rgba8>)
    requires
        !spec_cut_misaligned(hex_digits_of(hex@)),
    ensures
        r == spec_parse_digits(hex_digits_of(hex@)),
{
    let (b, k) = digits_start(hex);
    let n = b.len() - k;
    let ghost d = hex_digits_of(hex@);
    assert(d.len() == n);
    if n == 3 || n == 4 {
        assert(d[0] == b@[k as int] && d[1] == b@[k + 1] && d[2] == b@[k + 2]);
        assert(n == 4 ==> d[3] == b@[k + 3]);
        let r = parse_pair(b[k], b[k]);
        let g = parse_pair(b[k + 1], b[k + 1]);
        let bl = parse_pair(b[k + 2], b[k + 2]);
        let a = if n == 4 {
            parse_pair(b[k + 3], b[k + 3])
        } else {
            Some(255u8)
        };
        match (r, g, bl, a) {
            (Some(r), Some(g), Some(bl), Some(a)) => Some(Rgba8 { r, g, b: bl, a }),
            _ => None,
        }
    } else if n == 6 || n == 8 {
        assert(d[0] == b@[k as int] && d[1] == b@[k + 1] && d[2] == b@[k + 2]);
        assert(d[3] == b@[k + 3] && d[4] == b@[k + 4] && d[5] == b@[k + 5]);
        assert(n == 8 ==> d[6] == b@[k + 6] && d[7] == b@[k + 7]);
        let r = parse_pair(b[k], b[k + 1]);
        let g = parse_pair(b[k + 2], b[k + 3]);
        let bl = parse_pair(b[k + 4], b[k + 5]);
        let a = if n == 8 {
            parse_pair(b[k + 6], b[k + 7])
        } else {
            Some(255u8)
        };
        match (r, g, bl, a) {
            (Some(r), Some(g), Some(bl), Some(a)) => Some(Rgba8 { r, g, b: bl, a }),
            _ => None,
        }
    } else {
        None
    }
}

fn push_byte_hex(s: &mut String, v: u8)
    ensures
        final(s)@ == old(s)@ + byte_hex(v),
{
    s.push(HEX_UPPER[(v / 16) as usize]);
    s.push(HEX_UPPER[(v % 16) as usize]);
    assert(final(s)@ =~= old(s)@ + byte_hex(v));
}

/// Write a colour as `#RRGGBB`, adding the alpha pair (`#RRGGBBAA`) only
/// when it is asked for and the colour is not fully opaque.
pub fn format_hex_rgba(c: Rgba8, include_alpha: bool) -> (r: String)
    ensures
        r@ == spec_format_hex(c, include_alpha),
{
    let mut s = String::new();
    s.push('#');
    push_byte_hex(&mut s, c.r);
    push_byte_hex(&mut s, c.g);
    push_byte_hex(&mut s, c.b);
    if include_alpha && c.a < 255 {
        push_byte_hex(&mut s, c.a);
    }
    assert(s@ =~= spec_format_hex(c, include_alpha));
    s
}

} // verus!

verus! {

proof fn lemma_hex_digit(n: int)
    requires
        0 <= n < 16,
    ensures
        '0' <= HEX_UPPER@[n] <= '9' || 'A' <= HEX_UPPER@[n] <= 'F',
        hex_val(HEX_UPPER@[n] as u8) == Some(n as u8),
        !is_white_space(HEX_UPPER@[n]),
{
    assert(HEX_UPPER@ =~= seq![
        '0', '1', '2', '3', '4', '5', '6', '7', '8', '9', 'A', 'B', 'C', 'D', 'E', 'F',
    ]);
}

proof fn lemma_byte_hex(v: u8)
    ensures
        byte_hex(v).len() == 2,
        forall|i: int|
            0 <= i < 2 ==> ('0' <= #[trigger] byte_hex(v)[i] <= '9' || 'A' <= byte_hex(v)[i] <= 'F'),
        radix16_pair(byte_hex(v)[0] as u8, byte_hex(v)[1] as u8) == Some(v),
{
    lemma_hex_digit((v / 16) as int);
    lemma_hex_digit((v % 16) as int);
}

/// Writing a colour in hex and reading it back gives the colour again —
/// with alpha made opaque when the written form left it out.
pub proof fn law_hex_roundtrip(c: Rgba8, include_alpha: bool)
    ensures
        !spec_cut_misaligned(hex_digits_of(spec_format_hex(c, include_alpha))),
        spec_parse_digits(hex_digits_of(spec_format_hex(c, include_alpha))) == Some(
            if include_alpha && c.a < 255 {
                c
            } else {
                Rgba8 { a: 255, ..c }
            },
        ),
{
    let s = spec_format_hex(c, include_alpha);
    let with_alpha = include_alpha && c.a < 255;
    lemma_byte_hex(c.r);
    lemma_byte_hex(c.g);
    lemma_byte_hex(c.b);
    lemma_byte_hex(c.a);
    let n: int = if with_alpha {
        9
    } else {
        7
    };
    assert(s.len() == n);
    assert(s[0] == '#');
    assert(s[1] == byte_hex(c.r)[0] && s[2] == byte_hex(c.r)[1]);
    assert(s[3] == byte_hex(c.g)[0] && s[4] == byte_hex(c.g)[1]);
    assert(s[5] == byte_hex(c.b)[0] && s[6] == byte_hex(c.b)[1]);
    assert(with_alpha ==> s[7] == byte_hex(c.a)[0] && s[8] == byte_hex(c.a)[1]);
    assert forall|i: int| 1 <= i < n implies ('0' <= #[trigger] s[i] <= '9' || 'A' <= s[i] <= 'F') by {
        if i <= 2 {
            assert(s[i] == byte_hex(c.r)[i - 1]);
        } else if i <= 4 {
            assert(s[i] == byte_hex(c.g)[i - 3]);
        } else if i <= 6 {
            assert(s[i] == byte_hex(c.b)[i - 5]);
        } else {
            assert(s[i] == byte_hex(c.a)[i - 7]);
        }
    }
    // Nothing to trim: it starts with '#' and ends with a digit.
    assert(!is_white_space(s[0]));
    assert(trim_start_seq(s) == s);
    assert(s.last() == s[n - 1]);
    assert(!is_white_space(s.last()));
    assert(trim_end_seq(s) == s);
    assert(trim_seq(s) == s);
    // It is ASCII, so its bytes are its characters.
    assert(is_ascii_chars(s));
    is_ascii_chars_encode_utf8(s);
    let e = encode_utf8(s);
    assert(e.len() == n);
    assert(e[0] == 0x23u8);
    let d = e.drop_first();
    assert(d[0] == s[1] as u8);
    assert(d[0] != 0x23u8);
    assert(strip_hashes(d) == d);
    assert(strip_hashes(e) == d);
    assert(hex_digits_of(s) == d);
    assert forall|i: int| 0 <= i < d.len() implies #[trigger] d[i] == s[i + 1] as u8 && d[i] < 0x80 by {
        assert(d[i] == e[i + 1]);
    }
    assert(d[0] == byte_hex(c.r)[0] as u8 && d[1] == byte_hex(c.r)[1] as u8);
    assert(d[2] == byte_hex(c.g)[0] as u8 && d[3] == byte_hex(c.g)[1] as u8);
    assert(d[4] == byte_hex(c.b)[0] as u8 && d[5] == byte_hex(c.b)[1] as u8);
    if with_alpha {
        assert(d[6] == byte_hex(c.a)[0] as u8 && d[7] == byte_hex(c.a)[1] as u8);
    }
    assert(cut_ok(d, 2) && cut_ok(d, 4) && cut_ok(d, 6));
}

} // verus!
