//! From the code units that the operating system hands over for the focused
//! window to the title under which its time is counted.

use vstd::prelude::*;
use vstd::slice::slice_subrange;

verus! {

/// A title is made of at most this many UTF-16 code units; what lies beyond
/// is cut off.
pub const TITLE_UNITS: usize = 511;

/// `unit` is the first half of a surrogate pair.
pub open spec fn is_high_surrogate(unit: u16) -> bool {
    0xD800 <= unit <= 0xDBFF
}

/// `unit` is the second half of a surrogate pair.
pub open spec fn is_low_surrogate(unit: u16) -> bool {
    0xDC00 <= unit <= 0xDFFF
}

/// The character that a surrogate pair encodes.
pub open spec fn pair_char(high: u16, low: u16) -> char {
    (0x10000 + (high - 0xD800) * 0x400 + (low - 0xDC00)) as char
}

/// The text that UTF-16 code units decode to: a unit that is no surrogate
/// is its character, a first half followed by a second half is the
/// character of the pair, and any other surrogate gives U+FFFD, after which
/// the decoding goes on with the next unit.
pub open spec fn utf16_lossy(units: Seq<u16>) -> Seq<char>
    decreases units.len(),
{
    if units.len() == 0 {
        Seq::empty()
    } else if !is_high_surrogate(units[0]) && !is_low_surrogate(units[0]) {
        seq![units[0] as char] + utf16_lossy(units.skip(1))
    } else if is_high_surrogate(units[0]) && units.len() >= 2 && is_low_surrogate(units[1]) {
        seq![pair_char(units[0], units[1])] + utf16_lossy(units.skip(2))
    } else {
        seq!['\u{FFFD}'] + utf16_lossy(units.skip(1))
    }
}

/// Calls `String::from_utf16_lossy`. The contract states what std documents
/// of it: the units are decoded as UTF-16, and invalid data is replaced by
/// U+FFFD.
#[verifier::external_body]
fn decode_utf16(units: &[u16]) -> (text: String)
    ensures
        text@ == utf16_lossy(units@),
{
    String::from_utf16_lossy(units)
}

/// `text` without its null characters, the rest in order.
pub open spec fn without_nul(text: Seq<char>) -> Seq<char> {
    text.filter(|c: char| c != '\0')
}

/// The first [`TITLE_UNITS`] of `units`, or all of them where they are fewer.
pub open spec fn bounded(units: Seq<u16>) -> Seq<u16> {
    if units.len() > TITLE_UNITS {
        units.take(TITLE_UNITS as int)
    } else {
        units
    }
}

/// The title for the code units of a window's caption: what the bounded
/// units decode to, without null characters.
pub open spec fn title_of(units: Seq<u16>) -> Seq<char> {
    without_nul(utf16_lossy(bounded(units)))
}

/// Removes every null character from `text`.
pub fn strip_nul(text: &str) -> (stripped: String)
    ensures
        stripped@ == without_nul(text@),
{
    let length = text.unicode_len();
    let mut stripped = String::new();
    proof {
        reveal_with_fuel(Seq::filter, 1);
        assert(text@.take(0).len() == 0);
    }
    let mut i: usize = 0;
    while i < length
        invariant
            i <= length,
            length == text@.len(),
            stripped@ == without_nul(text@.take(i as int)),
        decreases length - i,
    {
        let c = text.get_char(i);
        proof {
            let next = text@.take(i + 1);
            assert(next.drop_last() =~= text@.take(i as int));
            assert(next.last() == c);
            reveal_with_fuel(Seq::filter, 2);
        }
        if c != '\0' {
            stripped.append(text.substring_char(i, i + 1));
            assert(text@.subrange(i as int, i + 1) =~= seq![c]);
            assert(stripped@ =~= without_nul(text@.take(i as int)).push(c));
        }
        i += 1;
    }
    assert(text@.take(length as int) =~= text@);
    stripped
}

/// The title of the focused window from the code units of its caption: at
/// most [`TITLE_UNITS`] of them are decoded, and null characters are left
/// out. No units at all, as when no window has the focus, give the empty
/// title.
pub fn title_from_units(units: &[u16]) -> (title: String)
    ensures
        title@ == title_of(units@),
        units@.len() == 0 ==> title@.len() == 0,
{
    proof {
        reveal_with_fuel(Seq::filter, 1);
    }
    let kept = if units.len() > TITLE_UNITS {
        slice_subrange(units, 0, TITLE_UNITS)
    } else {
        units
    };
    let decoded = decode_utf16(kept);
    strip_nul(decoded.as_str())
}

} // verus!
