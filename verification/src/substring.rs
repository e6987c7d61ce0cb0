//! The character-range resolver: slicing a text by logical character
//! positions, clamping out-of-range bounds instead of failing.
use vstd::prelude::*;
use vstd::string::*;

use crate::keeper::KeeperCommonExt;
use crate::keeper::StringKeeperCommonExt;
use crate::ranges::CharRange;
use crate::render::trim_trailing_zeros_view;

verus! {

/// Clamp a position into `0 ..= len`.
pub open spec fn clamp_to(i: int, len: int) -> int {
    if i < 0 {
        0
    } else if i <= len {
        i
    } else {
        len
    }
}

/// The characters of `text` at positions `start <= i < end`, where both
/// bounds are clamped to the text: an inverted range yields the empty
/// sequence and positions past the end are cut off.
pub open spec fn substring_view(text: Seq<char>, start: int, end: int) -> Seq<char> {
    if end <= start {
        Seq::<char>::empty()
    } else {
        text.subrange(clamp_to(start, text.len() as int), clamp_to(end, text.len() as int))
    }
}

/// The slice of `text` selected by `range`, after normalizing its bounds.
pub open spec fn substring_range_view(text: Seq<char>, range: CharRange) -> Seq<char> {
    substring_view(text, range.start_position(), range.end_position())
}

/// What the fallible resolver yields: no result exactly when the
/// normalized range is inverted or empty, the resolved slice otherwise.
pub open spec fn try_substring_view(text: Seq<char>, range: CharRange) -> Option<Seq<char>> {
    if range.end_position() <= range.start_position() {
        None
    } else {
        Some(substring_range_view(text, range))
    }
}

/// The last `count` characters of `text`, or all of it when it is shorter.
pub open spec fn suffix_view(text: Seq<char>, count: int) -> Seq<char> {
    text.subrange(clamp_to(text.len() - count, text.len() as int), text.len() as int)
}

/// `text` with the characters at positions `start <= i < end` removed;
/// an inverted or empty range removes nothing, and bounds past the end
/// clamp to it.
pub open spec fn splice_view(text: Seq<char>, start: int, end: int) -> Seq<char> {
    if end <= start {
        text
    } else {
        text.subrange(0, clamp_to(start, text.len() as int)) + text.subrange(
            clamp_to(end, text.len() as int),
            text.len() as int,
        )
    }
}

/// Removes the characters at positions `start <= i < end` from `text`,
/// clamping the bounds as `splice_view` describes.
pub fn splice_out(text: &str, start: usize, end: usize) -> (r: String)
    ensures
        r@ == splice_view(text@, start as int, end as int),
{
    if end <= start {
        text.to_owned()
    } else {
        // pins text@.len() to at most usize::MAX for the clamping proof
        let n: usize = text.unicode_len();
        let head = text.substring(CharRange::up_to(start));
        let tail = text.substring(CharRange::starting_at(end));
        let r = head.concat(tail.as_str());
        proof {
            let len = text@.len() as int;
            assert(head@ =~= text@.subrange(0, clamp_to(start as int, len)));
            assert(tail@ =~= text@.subrange(clamp_to(end as int, len), len));
        }
        r
    }
}

/// Slicing a text by logical character position, never by byte offset, so
/// that multi-byte characters are kept whole.
pub trait SubstringExt {
    /// The characters this text consists of.
    spec fn chars_view(&self) -> Seq<char>;

    /// The characters selected by `range`; out-of-range or inverted
    /// bounds clamp to the empty result rather than failing.
    fn substring(&self, range: CharRange) -> (r: String)
        ensures
            r@ == substring_range_view(self.chars_view(), range),
    ;

    /// The last `reverse_count` characters, or the whole text when it
    /// has fewer.
    fn substring_len(&self, reverse_count: usize) -> (r: String)
        ensures
            r@ == suffix_view(self.chars_view(), reverse_count as int),
    ;

    /// Like `substring`, but yields nothing when the normalized range is
    /// inverted or empty.
    fn try_substring(&self, range: CharRange) -> (r: Option<String>)
        ensures
            r is Some <==> range.start_position() < range.end_position(),
            r is Some ==> r->0@ == substring_range_view(self.chars_view(), range),
    ;

    /// Cuts the trailing run of `'0'` characters anchored at the last
    /// `'0'`, as `trim_trailing_zeros_view` describes. A text without
    /// any `'0'` yields the empty text.
    fn trim_trailing_zeros(&self) -> (r: String)
        ensures
            r@ == trim_trailing_zeros_view(self.chars_view()),
    ;
}

impl SubstringExt for str {
    open spec fn chars_view(&self) -> Seq<char> {
        self@
    }

    fn substring(&self, range: CharRange) -> (r: String)
        ensures
            r@ == substring_range_view(self@, range),
    {
        match self.try_substring(range) {
            Some(s) => s,
            None => String::new(),
        }
    }

    fn substring_len(&self, reverse_count: usize) -> (r: String)
        ensures
            r@ == suffix_view(self@, reverse_count as int),
    {
        let n: usize = self.unicode_len();
        let start: usize = n.saturating_sub(reverse_count);
        let r = self.substring(CharRange::starting_at(start));
        proof {
            assert(r@ =~= suffix_view(self@, reverse_count as int));
        }
        r
    }

    fn trim_trailing_zeros(&self) -> (r: String)
        ensures
            r@ == trim_trailing_zeros_view(self@),
    {
        String::from_str(self).cut('0').end_of_string().until_no_matched_pattern(
            '0',
        ).before_pattern().excluding_pattern().render()
    }

    fn try_substring(&self, range: CharRange) -> (r: Option<String>)
        ensures
            r is Some <==> range.start_position() < range.end_position(),
            r is Some ==> r->0@ == substring_range_view(self@, range),
    {
        let start: usize = range.exec_start_position();
        let end: usize = range.exec_end_position();
        if end <= start {
            None
        } else {
            let n: usize = self.unicode_len();
            let lo = if start <= n {
                start
            } else {
                n
            };
            let hi = if end <= n {
                end
            } else {
                n
            };
            let sub = self.substring_char(lo, hi);
            Some(sub.to_owned())
        }
    }
}

} // verus!
