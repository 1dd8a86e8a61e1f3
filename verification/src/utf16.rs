//! Length of text in UTF-16 code units, the unit in which the platform
//! measures message content.

use vstd::prelude::*;
use vstd::string::StrSliceExecFns;

verus! {

/// The number of UTF-16 code units that encode one character: two for a
/// character beyond the Basic Multilingual Plane, one for any other.
pub open spec fn utf16_units(c: char) -> nat {
    if c as u32 >= 0x10000 {
        2
    } else {
        1
    }
}

/// The number of UTF-16 code units that encode a text.
pub open spec fn utf16_len(s: Seq<char>) -> nat
    decreases s.len(),
{
    if s.len() == 0 {
        0
    } else {
        utf16_len(s.drop_last()) + utf16_units(s.last())
    }
}

/// A prefix of `i` characters, followed by the characters left, each of
/// which takes one unit at least, is no longer than the whole text.
pub proof fn lemma_utf16_len_prefix(s: Seq<char>, i: int)
    requires
        0 <= i <= s.len(),
    ensures
        utf16_len(s.take(i)) + (s.len() - i) <= utf16_len(s),
    decreases s.len(),
{
    if i == s.len() {
        assert(s.take(i) =~= s);
    } else {
        lemma_utf16_len_prefix(s.drop_last(), i);
        assert(s.drop_last().take(i) =~= s.take(i));
    }
}

/// A text has at least as many UTF-16 code units as characters, and at most
/// twice as many.
pub proof fn lemma_utf16_len_bounds(s: Seq<char>)
    ensures
        s.len() <= utf16_len(s) <= 2 * s.len(),
    decreases s.len(),
{
    if s.len() > 0 {
        lemma_utf16_len_bounds(s.drop_last());
    }
}

/// The number of UTF-16 code units of one character.
pub fn char_utf16_units(c: char) -> (r: usize)
    ensures
        r == utf16_units(c),
{
    if c as u32 >= 0x10000 {
        2
    } else {
        1
    }
}

/// Whether the text takes more than `limit` UTF-16 code units.
///
/// Stops at the first character that passes the limit, so the work is
/// bounded by the limit and not by the text.
pub fn exceeds_utf16(s: &str, limit: usize) -> (r: bool)
    ensures
        r == (utf16_len(s@) > limit),
{
    let n: usize = s.unicode_len();
    if n > limit {
        proof {
            lemma_utf16_len_bounds(s@);
        }
        return true;
    }
    let mut units: usize = 0;
    let mut i: usize = 0;
    while i < n
        invariant
            n == s@.len(),
            i <= n,
            units <= limit,
            units == utf16_len(s@.take(i as int)),
        decreases n - i,
    {
        let step: usize = char_utf16_units(s.get_char(i));
        proof {
            assert(s@.take(i + 1).drop_last() =~= s@.take(i as int));
            lemma_utf16_len_prefix(s@, i + 1);
        }
        if step > limit - units {
            return true;
        }
        units = units + step;
        i = i + 1;
    }
    proof {
        assert(s@.take(i as int) =~= s@);
    }
    false
}

} // verus!
