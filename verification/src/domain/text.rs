//! Character-level helpers shared by the validated value types.

use vstd::prelude::*;
use vstd::string::StrSliceExecFns;

verus! {

/// The characters with the Unicode `White_Space` property, as `str::trim`
/// and `char::is_whitespace` recognise them.
pub open spec fn is_space(c: char) -> bool {
    let u = c as u32;
    ||| u == 0x20
    ||| (0x09 <= u && u <= 0x0d)
    ||| u == 0x85
    ||| u == 0xa0
    ||| u == 0x1680
    ||| (0x2000 <= u && u <= 0x200a)
    ||| u == 0x2028
    ||| u == 0x2029
    ||| u == 0x202f
    ||| u == 0x205f
    ||| u == 0x3000
}

/// Whether the character has the Unicode `White_Space` property.
pub fn is_space_char(c: char) -> (r: bool)
    ensures
        r == is_space(c),
{
    let u = c as u32;
    u == 0x20 || (0x09 <= u && u <= 0x0d) || u == 0x85 || u == 0xa0 || u == 0x1680 || (0x2000 <= u
        && u <= 0x200a) || u == 0x2028 || u == 0x2029 || u == 0x202f || u == 0x205f || u == 0x3000
}

/// Whether the string trims to nothing: it is empty or holds whitespace
/// only.
pub open spec fn spec_blank(s: Seq<char>) -> bool {
    forall|i: int| 0 <= i < s.len() ==> is_space(s[i])
}

/// Whether the string trims to nothing.
pub fn is_blank(s: &str) -> (r: bool)
    ensures
        r == spec_blank(s@),
{
    let n = s.unicode_len();
    let mut i: usize = 0;
    while i < n
        invariant
            n == s@.len(),
            i <= n,
            forall|j: int| 0 <= j < i ==> is_space(s@[j]),
        decreases n - i,
    {
        if !is_space_char(s.get_char(i)) {
            assert(!is_space(s@[i as int]));
            return false;
        }
        i = i + 1;
    }
    true
}

/// The number of extended grapheme clusters of the string.
pub uninterp spec fn grapheme_clusters(s: Seq<char>) -> nat;

/// Relies on unicode_segmentation's `graphemes(s, true)`: the sequence of
/// extended grapheme clusters is a function of the characters alone, and an
/// empty string has none.
#[verifier::external_body]
pub fn grapheme_count(s: &str) -> (r: usize)
    ensures
        r as nat == grapheme_clusters(s@),
        s@.len() == 0 ==> r == 0,
{
    unicode_segmentation::UnicodeSegmentation::graphemes(s, true).count()
}

} // verus!
