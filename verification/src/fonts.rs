//! Which typeface the notch asks DirectWrite for.

use vstd::prelude::*;
use vstd::utf8::encode_utf8;
use crate::text::{is_blank, lemma_trim_empty_iff_blank};

verus! {

/// Used whenever the configured family name is blank.
pub open spec fn fallback_family() -> Seq<char> {
    "Segoe UI"@
}

/// `u8::to_ascii_lowercase`.
pub open spec fn ascii_lower(b: u8) -> u8 {
    if 0x41 <= b <= 0x5A {
        (b + 0x20) as u8
    } else {
        b
    }
}

/// `eq_ignore_ascii_case` on two byte strings: same length, and equal
/// byte for byte once ASCII letters are folded to lower case.
pub open spec fn spec_eq_ignore_ascii_case(a: Seq<u8>, b: Seq<u8>) -> bool {
    a.len() == b.len() && forall|i: int| 0 <= i < a.len() ==> ascii_lower(a[i]) == ascii_lower(b[i])
}

/// Whether `family` names one of the bundled typefaces, ignoring ASCII case.
pub open spec fn spec_is_private(families: Seq<String>, family: Seq<char>) -> bool {
    exists|i: int|
        0 <= i < families.len() && spec_eq_ignore_ascii_case(
            encode_utf8(#[trigger] families[i]@),
            encode_utf8(family),
        )
}

/// The family to actually ask DirectWrite for, given what the user picked.
pub fn resolve_family(requested: &str) -> (r: &str)
    ensures
        r@ == (if is_blank(requested@) {
            fallback_family()
        } else {
            requested@
        }),
{
    proof {
        lemma_trim_empty_iff_blank(requested@);
    }
    if requested.trim().is_empty() {
        "Segoe UI"
    } else {
        requested
    }
}

fn lower(b: u8) -> (r: u8)
    ensures
        r == ascii_lower(b),
{
    if 0x41 <= b && b <= 0x5A {
        b + 0x20
    } else {
        b
    }
}

/// Whether two strings match, ignoring the case of ASCII letters.
pub fn eq_ignore_ascii_case(a: &str, b: &str) -> (r: bool)
    ensures
        r == spec_eq_ignore_ascii_case(encode_utf8(a@), encode_utf8(b@)),
{
    let x = a.as_bytes();
    let y = b.as_bytes();
    if x.len() != y.len() {
        return false;
    }
    let mut i: usize = 0;
    while i < x.len()
        invariant
            x@ == encode_utf8(a@),
            y@ == encode_utf8(b@),
            x@.len() == y@.len(),
            i <= x@.len(),
            forall|j: int| 0 <= j < i ==> ascii_lower(x@[j]) == ascii_lower(y@[j]),
        decreases x.len() - i,
    {
        if lower(x[i]) != lower(y[i]) {
            return false;
        }
        i = i + 1;
    }
    true
}

/// Whether `family` is one of `families`, ignoring ASCII case: the
/// bundled typefaces are looked up in the private font collection, every
/// other name in the system's.
pub fn is_private_family(families: &Vec<String>, family: &str) -> (r: bool)
    ensures
        r == spec_is_private(families@, family@),
{
    let mut i: usize = 0;
    while i < families.len()
        invariant
            i <= families@.len(),
            forall|j: int|
                0 <= j < i ==> !spec_eq_ignore_ascii_case(
                    encode_utf8(#[trigger] families@[j]@),
                    encode_utf8(family@),
                ),
        decreases families.len() - i,
    {
        if eq_ignore_ascii_case(families[i].as_str(), family) {
            return true;
        }
        i = i + 1;
    }
    false
}

} // verus!
