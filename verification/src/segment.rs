//! Where text can be broken, and how wide it is when shown.

use vstd::prelude::*;
use unicode_segmentation::UnicodeSegmentation;

verus! {

/// The pieces into which `text` falls at its word boundaries, by the rules
/// of the Unicode standard for text segmentation.
pub uninterp spec fn word_bounds(text: Seq<char>) -> Seq<Seq<char>>;

/// The number of extended grapheme clusters of `text`, by the rules of the
/// Unicode standard for text segmentation.
pub uninterp spec fn grapheme_count(text: Seq<char>) -> nat;

/// `UnicodeSegmentation::split_word_bounds` of the crate
/// `unicode_segmentation`: the pieces of `text` between its word boundaries,
/// in their order. Nothing is stated of the pieces but that they depend on
/// the text alone.
#[verifier::external_body]
pub(crate) fn split_word_bounds(text: &str) -> (words: Vec<String>)
    ensures
        words.deep_view() == word_bounds(text@),
{
    text.split_word_bounds().map(str::to_owned).collect()
}

/// `UnicodeSegmentation::graphemes` of the crate `unicode_segmentation`,
/// for extended clusters: how many of them `text` has. Nothing is stated of
/// the number but that it depends on the text alone.
#[verifier::external_body]
pub(crate) fn count_graphemes(text: &str) -> (count: usize)
    ensures
        count as nat == grapheme_count(text@),
{
    text.graphemes(true).count()
}

/// Whether `c` has the Unicode property `White_Space`.
pub open spec fn is_white_space(c: char) -> bool {
    let u = c as u32;
    (0x09 <= u && u <= 0x0d) || u == 0x20 || u == 0x85 || u == 0xa0 || u == 0x1680 || (0x2000 <= u
        && u <= 0x200a) || u == 0x2028 || u == 0x2029 || u == 0x202f || u == 0x205f || u
        == 0x3000
}

/// `char::is_whitespace` tells whether a character has the Unicode property
/// `White_Space`.
pub assume_specification[ char::is_whitespace ](c: char) -> (b: bool)
    ensures
        b == is_white_space(c),
;

/// Whether `text` has no character that is not white space.
pub open spec fn is_blank(text: Seq<char>) -> bool {
    forall|i: int| 0 <= i < text.len() ==> is_white_space(#[trigger] text[i])
}

/// Computes [`is_blank`].
pub fn blank(text: &str) -> (b: bool)
    ensures
        b == is_blank(text@),
{
    for c in it: text.chars()
        invariant
            it.seq() == text@,
            forall|i: int| 0 <= i < it.index() ==> is_white_space(#[trigger] text@[i]),
    {
        if !c.is_whitespace() {
            assert(!is_white_space(text@[it.index()]));
            return false;
        }
    }
    true
}

/// The sum of two lengths, or the largest length that can be held if the
/// sum is larger.
pub open spec fn plus(a: usize, b: usize) -> usize {
    if a + b > usize::MAX {
        usize::MAX
    } else {
        (a + b) as usize
    }
}

/// Computes [`plus`].
pub fn sum(a: usize, b: usize) -> (r: usize)
    ensures
        r == plus(a, b),
{
    if a > usize::MAX - b {
        usize::MAX
    } else {
        a + b
    }
}

/// `a` less `b`, or nothing if `b` is larger.
pub open spec fn minus(a: usize, b: usize) -> usize {
    if a >= b {
        (a - b) as usize
    } else {
        0
    }
}

/// Computes [`minus`].
pub fn difference(a: usize, b: usize) -> (r: usize)
    ensures
        r == minus(a, b),
{
    if a >= b {
        a - b
    } else {
        0
    }
}

/// The larger of two lengths.
pub open spec fn larger(a: usize, b: usize) -> usize {
    if a >= b {
        a
    } else {
        b
    }
}

/// Computes [`larger`].
pub fn max(a: usize, b: usize) -> (r: usize)
    ensures
        r == larger(a, b),
{
    if a >= b {
        a
    } else {
        b
    }
}

/// `n` spaces.
pub open spec fn spaces(n: usize) -> Seq<char> {
    Seq::new(n as nat, |i: int| ' ')
}

/// Appends `n` spaces to `out`.
pub fn push_spaces(out: &mut String, n: usize)
    ensures
        final(out)@ == old(out)@ + spaces(n),
{
    let mut i: usize = 0;
    proof {
        assert(out@ =~= old(out)@ + spaces(0));
    }
    while i < n
        invariant
            i <= n,
            out@ == old(out)@ + spaces(i),
        decreases n - i,
    {
        out.push(' ');
        proof {
            assert(old(out)@ + spaces((i + 1) as usize) =~= (old(out)@ + spaces(i)).push(' '));
        }
        i = i + 1;
    }
}

} // verus!
