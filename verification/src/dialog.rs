//! The text that crosses the "Open File" dialog's boundary: UTF-16 with
//! NUL terminators going in, a NUL-terminated UTF-16 buffer coming back.

use vstd::prelude::*;
use vstd::string::*;
use vstd::utf8::{
    encode_scalar,
    encode_utf8,
    has_width_1_encoding,
    has_width_2_encoding,
    has_width_3_encoding,
    has_width_4_encoding,
    is_scalar,
    char_is_scalar,
};
use crate::text::{is_blank, lemma_trim_empty_iff_blank, trim_seq};

verus! {

/// Code units of the buffer the dialog writes the chosen path into.
pub const DIALOG_BUFFER_LEN: usize = 1024;

/// A pre-filled path at least this many bytes long is left out.
pub const INITIAL_PATH_LIMIT: usize = 1000;

/// U+FFFD, standing in for what could not be decoded.
pub open spec fn replacement_char() -> char {
    '\u{FFFD}'
}

/// The UTF-16 code units of one character.
pub open spec fn utf16_of_char(c: char) -> Seq<u16> {
    let u = c as u32;
    if u < 0x10000 {
        seq![u as u16]
    } else {
        let v = u - 0x10000;
        seq![(0xD800 + v / 0x400) as u16, (0xDC00 + v % 0x400) as u16]
    }
}

/// The UTF-16 encoding of a character sequence, as `str::encode_utf16`
/// yields it.
pub open spec fn encode_utf16(s: Seq<char>) -> Seq<u16>
    decreases s.len(),
{
    if s.len() == 0 {
        Seq::empty()
    } else {
        utf16_of_char(s[0]) + encode_utf16(s.drop_first())
    }
}

pub open spec fn is_high_surrogate(u: u16) -> bool {
    0xD800 <= u <= 0xDBFF
}

pub open spec fn is_low_surrogate(u: u16) -> bool {
    0xDC00 <= u <= 0xDFFF
}

/// The character a high and a low surrogate stand for together.
pub open spec fn combine_surrogates(hi: u16, lo: u16) -> char {
    (0x10000 + (hi - 0xD800) * 0x400 + (lo - 0xDC00)) as u32 as char
}

/// UTF-16 decoded with every unpaired surrogate replaced by U+FFFD, as
/// `String::from_utf16_lossy` decodes it.
pub open spec fn decode_utf16_lossy(u: Seq<u16>) -> Seq<char>
    decreases u.len(),
{
    if u.len() == 0 {
        Seq::empty()
    } else if u.len() >= 2 && is_high_surrogate(u[0]) && is_low_surrogate(u[1]) {
        seq![combine_surrogates(u[0], u[1])] + decode_utf16_lossy(u.skip(2))
    } else if is_high_surrogate(u[0]) || is_low_surrogate(u[0]) {
        seq![replacement_char()] + decode_utf16_lossy(u.drop_first())
    } else {
        seq![u[0] as u32 as char] + decode_utf16_lossy(u.drop_first())
    }
}

/// Where the first NUL is, or the length when there is none.
pub open spec fn first_nul(buf: Seq<u16>) -> int
    decreases buf.len(),
{
    if buf.len() == 0 {
        0
    } else if buf[0] == 0 {
        0
    } else {
        1 + first_nul(buf.drop_first())
    }
}

/// The buffer handed to the dialog: the trimmed starting path, NUL
/// terminated, when it is there and short enough; zeros for the rest.
pub open spec fn spec_dialog_buffer(initial: Seq<char>) -> Seq<u16> {
    let t = trim_seq(initial);
    if t.len() > 0 && encode_utf8(t).len() < INITIAL_PATH_LIMIT {
        let w = encode_utf16(t).push(0u16);
        w + Seq::new((DIALOG_BUFFER_LEN - w.len()) as nat, |i: int| 0u16)
    } else {
        Seq::new(DIALOG_BUFFER_LEN as nat, |i: int| 0u16)
    }
}

/// The path the dialog returned: everything before the first NUL, decoded;
/// `None` when that is blank.
pub open spec fn spec_dialog_result(buf: Seq<u16>) -> Option<Seq<char>> {
    let path = decode_utf16_lossy(buf.take(first_nul(buf)));
    if is_blank(path) {
        None
    } else {
        Some(path)
    }
}

/// `char::from_u32`: the character with this code point, or `None` when the
/// value is a surrogate or past `U+10FFFF`.
pub assume_specification[ char::from_u32 ](i: u32) -> (r: Option<char>)
    ensures
        r == (if is_scalar(i) {
            Some(i as char)
        } else {
            None
        }),
;

proof fn lemma_encode_utf16_push(s: Seq<char>, c: char)
    ensures
        encode_utf16(s.push(c)) == encode_utf16(s) + utf16_of_char(c),
    decreases s.len(),
{
    if s.len() == 0 {
        assert(s.push(c).drop_first() =~= Seq::<char>::empty());
        assert(encode_utf16(Seq::<char>::empty()) =~= Seq::<u16>::empty());
        assert(encode_utf16(s) =~= Seq::<u16>::empty());
        assert(encode_utf16(s.push(c)) =~= utf16_of_char(c));
    } else {
        assert(s.push(c).drop_first() =~= s.drop_first().push(c));
        lemma_encode_utf16_push(s.drop_first(), c);
        assert(encode_utf16(s.push(c)) =~= encode_utf16(s) + utf16_of_char(c));
    }
}

proof fn lemma_utf16_no_longer_than_utf8(s: Seq<char>)
    ensures
        encode_utf16(s).len() <= encode_utf8(s).len(),
    decreases s.len(),
{
    if s.len() > 0 {
        let u = s[0] as u32;
        char_is_scalar(s[0]);
        lemma_utf16_no_longer_than_utf8(s.drop_first());
        if u >= 0x10000 {
            assert(!has_width_1_encoding(u) && !has_width_2_encoding(u) && !has_width_3_encoding(
                u,
            ));
            assert(encode_scalar(u).len() == 4);
        } else {
            assert(encode_scalar(u).len() >= 1);
        }
    }
}

/// Push the UTF-16 code units of `c`.
fn push_utf16(out: &mut Vec<u16>, c: char)
    ensures
        final(out)@ == old(out)@ + utf16_of_char(c),
{
    let u = c as u32;
    if u < 0x10000 {
        out.push(u as u16);
    } else {
        assert(u <= 0x10FFFF) by {
            char_is_scalar(c);
        }
        let v = u - 0x10000;
        out.push((0xD800 + v / 0x400) as u16);
        out.push((0xDC00 + v % 0x400) as u16);
    }
    assert(final(out)@ =~= old(out)@ + utf16_of_char(c));
}

/// `s` as NUL-terminated UTF-16, the form the Win32 API takes strings in.
pub fn wide(s: &str) -> (r: Vec<u16>)
    ensures
        r@ == encode_utf16(s@).push(0u16),
{
    let n = s.unicode_len();
    let mut out: Vec<u16> = Vec::new();
    let mut i: usize = 0;
    assert(s@.take(0) =~= Seq::<char>::empty());
    while i < n
        invariant
            n == s@.len(),
            i <= n,
            out@ == encode_utf16(s@.take(i as int)),
        decreases n - i,
    {
        let c = s.get_char(i);
        proof {
            assert(s@.take(i + 1) =~= s@.take(i as int).push(c));
            lemma_encode_utf16_push(s@.take(i as int), c);
        }
        push_utf16(&mut out, c);
        i = i + 1;
    }
    assert(s@.take(n as int) =~= s@);
    out.push(0);
    out
}

/// The filter list for image files: label and pattern pairs, each NUL
/// terminated, and one more NUL to end the list.
pub fn image_filter() -> (r: Vec<u16>)
    ensures
        r@ == encode_utf16("Images"@).push(0u16) + encode_utf16(
            "*.png;*.jpg;*.jpeg;*.jfif;*.bmp;*.gif;*.webp;*.tif;*.tiff;*.ico;*.avif;*.heic;*.heif;*.svg"@,
        ).push(0u16) + encode_utf16("All files"@).push(0u16) + encode_utf16("*.*"@).push(0u16)
            + seq![0u16],
{
    let mut filter: Vec<u16> = Vec::new();
    let mut a = wide("Images");
    filter.append(&mut a);
    let mut b = wide(
        "*.png;*.jpg;*.jpeg;*.jfif;*.bmp;*.gif;*.webp;*.tif;*.tiff;*.ico;*.avif;*.heic;*.heif;*.svg",
    );
    filter.append(&mut b);
    let mut c = wide("All files");
    filter.append(&mut c);
    let mut d = wide("*.*");
    filter.append(&mut d);
    filter.push(0);
    filter
}

/// The buffer the dialog reads its starting path from and writes the chosen
/// path into.
pub fn dialog_buffer(initial: &str) -> (r: Vec<u16>)
    ensures
        r@ == spec_dialog_buffer(initial@),
        r@.len() == DIALOG_BUFFER_LEN,
{
    let mut buffer: Vec<u16> = Vec::new();
    let mut k: usize = 0;
    while k < DIALOG_BUFFER_LEN
        invariant
            k <= DIALOG_BUFFER_LEN,
            buffer@ =~= Seq::new(k as nat, |i: int| 0u16),
        decreases DIALOG_BUFFER_LEN - k,
    {
        buffer.push(0);
        k = k + 1;
    }
    let trimmed = initial.trim();
    if !trimmed.is_empty() && trimmed.as_bytes().len() < INITIAL_PATH_LIMIT {
        let src = wide(trimmed);
        proof {
            lemma_utf16_no_longer_than_utf8(trimmed@);
        }
        let mut j: usize = 0;
        while j < src.len()
            invariant
                src.len() <= DIALOG_BUFFER_LEN,
                buffer@.len() == DIALOG_BUFFER_LEN,
                j <= src.len(),
                forall|i: int| 0 <= i < j ==> #[trigger] buffer@[i] == src@[i],
                forall|i: int| j <= i < DIALOG_BUFFER_LEN ==> #[trigger] buffer@[i] == 0u16,
            decreases src.len() - j,
        {
            buffer.set(j, src[j]);
            j = j + 1;
        }
        let ghost w = encode_utf16(trimmed@).push(0u16);
        assert(buffer@ =~= w + Seq::new((DIALOG_BUFFER_LEN - w.len()) as nat, |i: int| 0u16));
    }
    buffer
}

proof fn lemma_first_nul(buf: Seq<u16>, i: int)
    requires
        0 <= i <= buf.len(),
        forall|j: int| 0 <= j < i ==> buf[j] != 0,
        i == buf.len() || buf[i] == 0,
    ensures
        first_nul(buf) == i,
    decreases buf.len(),
{
    if buf.len() > 0 && buf[0] != 0 {
        lemma_first_nul(buf.drop_first(), i - 1);
    }
}

/// The path the dialog wrote back, or `None` when it is blank.
pub fn dialog_result(buffer: &[u16]) -> (r: Option<String>)
    ensures
        match r {
            Some(p) => spec_dialog_result(buffer@) == Some(p@),
            None => spec_dialog_result(buffer@) is None,
        },
{
    let mut end: usize = 0;
    while end < buffer.len() && buffer[end] != 0
        invariant
            end <= buffer@.len(),
            forall|j: int| 0 <= j < end ==> buffer@[j] != 0,
        decreases buffer.len() - end,
    {
        end = end + 1;
    }
    proof {
        lemma_first_nul(buffer@, end as int);
    }
    let ghost units = buffer@.take(end as int);
    let mut path = String::new();
    let mut i: usize = 0;
    assert(units.skip(0) =~= units);
    while i < end
        invariant
            end <= buffer@.len(),
            units == buffer@.take(end as int),
            i <= end,
            decode_utf16_lossy(units) == path@ + decode_utf16_lossy(units.skip(i as int)),
        decreases end - i,
    {
        let u = buffer[i];
        let ghost rest = units.skip(i as int);
        assert(rest[0] == u);
        if 0xD800 <= u && u <= 0xDBFF && i + 1 < end && 0xDC00 <= buffer[i + 1] && buffer[i + 1]
            <= 0xDFFF {
            let lo = buffer[i + 1];
            assert(rest[1] == lo);
            let code: u32 = 0x10000 + ((u - 0xD800) as u32) * 0x400 + ((lo - 0xDC00) as u32);
            let c = char::from_u32(code);
            assert(is_scalar(code));
            assert(rest.skip(2) =~= units.skip(i + 2));
            let ghost before = path@;
            path.push(c.unwrap());
            assert(before + decode_utf16_lossy(rest) =~= path@ + decode_utf16_lossy(units.skip(i + 2)));
            i = i + 2;
        } else if 0xD800 <= u && u <= 0xDFFF {
            assert(rest.drop_first() =~= units.skip(i + 1));
            let ghost before = path@;
            path.push('\u{FFFD}');
            assert(before + decode_utf16_lossy(rest) =~= path@ + decode_utf16_lossy(units.skip(i + 1)));
            i = i + 1;
        } else {
            let c = char::from_u32(u as u32);
            assert(is_scalar(u as u32));
            assert(rest.drop_first() =~= units.skip(i + 1));
            let ghost before = path@;
            path.push(c.unwrap());
            assert(before + decode_utf16_lossy(rest) =~= path@ + decode_utf16_lossy(units.skip(i + 1)));
            i = i + 1;
        }
    }
    assert(units.skip(end as int) =~= Seq::<u16>::empty());
    assert(path@ =~= decode_utf16_lossy(units));
    proof {
        lemma_trim_empty_iff_blank(path@);
    }
    if path.as_str().trim().is_empty() {
        None
    } else {
        Some(path)
    }
}

/// No character encodes to a NUL unit unless it is NUL itself.
pub open spec fn has_no_nul(s: Seq<char>) -> bool {
    forall|i: int| 0 <= i < s.len() ==> s[i] != '\0'
}

/// Decoding what was encoded gives back the same characters.
pub proof fn law_utf16_roundtrip(s: Seq<char>)
    ensures
        decode_utf16_lossy(encode_utf16(s)) == s,
    decreases s.len(),
{
    if s.len() > 0 {
        let c = s[0];
        let u = c as u32;
        char_is_scalar(c);
        vstd::utf8::char_u32_cast(c, u);
        let rest = encode_utf16(s.drop_first());
        law_utf16_roundtrip(s.drop_first());
        let e = encode_utf16(s);
        assert(e == utf16_of_char(c) + rest);
        if u < 0x10000 {
            assert(e[0] == u as u16);
            assert(!is_high_surrogate(e[0]) && !is_low_surrogate(e[0]));
            assert(e.drop_first() =~= rest);
            assert((e[0] as u32) == u);
            assert(decode_utf16_lossy(e) =~= s);
        } else {
            let v = u - 0x10000;
            assert(v < 0x100000);
            let hi = (0xD800 + v / 0x400) as u16;
            let lo = (0xDC00 + v % 0x400) as u16;
            assert(e[0] == hi && e[1] == lo);
            assert(is_high_surrogate(hi) && is_low_surrogate(lo));
            assert(0x10000 + (hi - 0xD800) * 0x400 + (lo - 0xDC00) == u);
            assert(combine_surrogates(hi, lo) == c);
            assert(e.skip(2) =~= rest);
            assert(decode_utf16_lossy(e) =~= s);
        }
    }
}

proof fn lemma_encode_utf16_no_nul(s: Seq<char>)
    requires
        has_no_nul(s),
    ensures
        forall|i: int| 0 <= i < encode_utf16(s).len() ==> #[trigger] encode_utf16(s)[i] != 0,
    decreases s.len(),
{
    if s.len() > 0 {
        let c = s[0];
        let rest = s.drop_first();
        assert(has_no_nul(rest)) by {
            assert forall|i: int| 0 <= i < rest.len() implies rest[i] != '\0' by {
                assert(rest[i] == s[i + 1]);
            }
        }
        lemma_encode_utf16_no_nul(rest);
        let e = encode_utf16(s);
        let h = utf16_of_char(c);
        assert(c != '\0');
        vstd::utf8::char_u32_cast(c, c as u32);
        assert(c as u32 != 0) by {
            if c as u32 == 0 {
                assert((0u32 as char) == '\0');
            }
        }
        assert(forall|i: int| 0 <= i < h.len() ==> #[trigger] h[i] != 0);
        assert forall|i: int| 0 <= i < e.len() implies #[trigger] e[i] != 0 by {
            if i < h.len() {
                assert(e[i] == h[i]);
            } else {
                assert(e[i] == encode_utf16(rest)[i - h.len()]);
            }
        }
    }
}

/// A starting path that is short enough, not blank and free of NULs comes
/// back from the dialog trimmed when the user accepts it as it stands.
pub proof fn law_dialog_keeps_starting_path(initial: Seq<char>)
    requires
        !is_blank(initial),
        encode_utf8(trim_seq(initial)).len() < INITIAL_PATH_LIMIT,
        has_no_nul(trim_seq(initial)),
    ensures
        spec_dialog_result(spec_dialog_buffer(initial)) == Some(trim_seq(initial)),
{
    let t = trim_seq(initial);
    lemma_trim_empty_iff_blank(initial);
    lemma_utf16_no_longer_than_utf8(t);
    let w = encode_utf16(t).push(0u16);
    let buf = spec_dialog_buffer(initial);
    let n = encode_utf16(t).len() as int;
    lemma_encode_utf16_no_nul(t);
    assert forall|j: int| 0 <= j < n implies buf[j] != 0 by {
        assert(buf[j] == encode_utf16(t)[j]);
    }
    lemma_first_nul(buf, n);
    assert(buf.take(n) =~= encode_utf16(t));
    law_utf16_roundtrip(t);
    crate::text::lemma_trim_idempotent(initial);
    lemma_trim_empty_iff_blank(t);
}

} // verus!
