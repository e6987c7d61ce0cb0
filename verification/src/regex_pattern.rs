//! Extraction anchored on a regular-expression pattern. The engine is an
//! outside collaborator: it reports a match as byte offsets into the
//! haystack plus the matched text, and everything after the search — the
//! range table, the encoding-aware walk-back of the match boundary, the
//! slicing — is verified over that report.
use vstd::prelude::*;
use vstd::string::*;
use vstd::utf8::encode_utf8;

use crate::keeper::KeeperClusivity;
use crate::keeper::KeeperCutoff;
use crate::keeper::KeeperEncoding;
use crate::keeper::KeeperPeriod;
use crate::keeper::StringKeeper;
use crate::keeper::StringKeeperOpts;
use crate::ranges::CharRange;
use crate::substring::substring_view;
use crate::substring::SubstringExt;

verus! {

#[verifier::external_type_specification]
#[verifier::external_body]
pub struct ExRegex(regex::Regex);

/// One located occurrence of a regular-expression pattern: the byte
/// offsets of its boundaries in the haystack, and the matched text.
pub struct RegexMatch {
    pub start: usize,
    pub end: usize,
    pub text: String,
}

/// What the engine guarantees of every reported match over a haystack
/// with the characters `text`: the byte offsets are ordered, lie within
/// the haystack, fall on character boundaries, and delimit exactly the
/// matched text. Since every character takes at least one byte, the
/// matched text has no more characters than the match has bytes.
pub open spec fn regex_found(m: Option<RegexMatch>, text: Seq<char>) -> bool {
    match m {
        None => true,
        Some(mm) => {
            &&& mm.start <= mm.end
            &&& mm.end <= encode_utf8(text).len()
            &&& encode_utf8(mm.text@) == encode_utf8(text).subrange(mm.start as int, mm.end as int)
            &&& mm.text@.len() <= mm.end - mm.start
        },
    }
}

/// Relies on `regex::Regex::find` and `regex::Match::{start, end, as_str}`:
/// the first match is reported by byte offsets that are ordered, lie on
/// character boundaries within the haystack, and delimit the text that
/// `as_str` returns.
#[verifier::external_body]
pub(crate) fn regex_find_first(re: &regex::Regex, text: &str) -> (m: Option<RegexMatch>)
    ensures
        regex_found(m, text@),
{
    re.find(text).map(
        |found| RegexMatch {
            start: found.start(),
            end: found.end(),
            text: found.as_str().to_string(),
        },
    )
}

/// Relies on `regex::Regex::find_iter` and `regex::Match::{start, end,
/// as_str}`: the iterator yields successive non-overlapping matches, each
/// reported by ordered byte offsets on character boundaries within the
/// haystack that delimit the text `as_str` returns; its last element is
/// the last such match.
#[verifier::external_body]
pub(crate) fn regex_find_last(re: &regex::Regex, text: &str) -> (m: Option<RegexMatch>)
    ensures
        regex_found(m, text@),
{
    re.find_iter(text).last().map(
        |found| RegexMatch {
            start: found.start(),
            end: found.end(),
            text: found.as_str().to_string(),
        },
    )
}

/// How many bytes the UTF-8 encoding of `c` takes.
pub open spec fn utf8_width(c: char) -> int {
    if (c as u32) < 0x80 {
        1
    } else if (c as u32) < 0x800 {
        2
    } else if (c as u32) < 0x10000 {
        3
    } else {
        4
    }
}

/// How many code units the UTF-16 encoding of `c` takes.
pub open spec fn utf16_width(c: char) -> int {
    if (c as u32) < 0x10000 {
        1
    } else {
        2
    }
}

/// The width of `c` in the given encoding's units.
pub open spec fn encoded_width(enc: KeeperEncoding, c: char) -> int {
    match enc {
        KeeperEncoding::Utf8 => utf8_width(c),
        KeeperEncoding::Utf16 => utf16_width(c),
    }
}

/// Computes the width of `c` in the given encoding's units.
pub fn char_width(enc: &KeeperEncoding, c: char) -> (w: usize)
    ensures
        w == encoded_width(*enc, c),
{
    match enc {
        KeeperEncoding::Utf8 => {
            let u = c as u32;
            if u < 0x80 {
                1
            } else if u < 0x800 {
                2
            } else if u < 0x10000 {
                3
            } else {
                4
            }
        },
        KeeperEncoding::Utf16 => {
            let u = c as u32;
            if u < 0x10000 {
                1
            } else {
                2
            }
        },
    }
}

/// The fixed width a zero-length match falls back to when its boundary
/// is walked back by one character.
pub open spec fn empty_match_width() -> int {
    4
}

/// The half-open range selected by a located regular-expression match.
/// Offsets come from the engine in bytes, so when the match boundary must
/// be walked back to exclude the match's last character — region before
/// the match, match included — the boundary moves by that character's
/// width in the configured encoding, or by a fixed default width when the
/// match is empty; with no encoding configured it does not move at all.
pub open spec fn regex_primary_range(opt: StringKeeperOpts, m: Option<RegexMatch>) -> (int, int) {
    match m {
        None => (0int, 0int),
        Some(mm) => match opt.clusivity {
            KeeperClusivity::Including => match opt.cutoff {
                KeeperCutoff::After => (mm.start as int, usize::MAX as int),
                KeeperCutoff::Before => {
                    let walk_back = match opt.encoding {
                        None => 0int,
                        Some(enc) => if mm.text@.len() == 0 {
                            empty_match_width()
                        } else {
                            encoded_width(enc, mm.text@.last())
                        },
                    };
                    let bound = if mm.end - walk_back >= 0 {
                        mm.end - walk_back
                    } else {
                        0int
                    };
                    (0int, bound)
                },
            },
            KeeperClusivity::Excluding => match opt.cutoff {
                KeeperCutoff::After => {
                    let from = if mm.start + mm.text@.len() <= usize::MAX {
                        mm.start + mm.text@.len()
                    } else {
                        usize::MAX as int
                    };
                    (from, usize::MAX as int)
                },
                KeeperCutoff::Before => (0int, mm.start as int),
            },
        },
    }
}

/// What an extraction anchored on a regular-expression pattern yields
/// from a given match report.
pub open spec fn regex_keeper_view(
    text: Seq<char>,
    opt: StringKeeperOpts,
    m: Option<RegexMatch>,
) -> Seq<char> {
    let r = regex_primary_range(opt, m);
    substring_view(text, r.0, r.1)
}

impl StringKeeper<regex::Regex, String> {
    /// Applies the extraction to an already-located match report,
    /// yielding exactly the region `regex_keeper_view` describes. No
    /// report yields the empty text.
    pub fn render_with_match(&self, m: &Option<RegexMatch>) -> (r: String)
        ensures
            r@ == regex_keeper_view(self.to_parse@, self.opt, *m),
    {
        let (s, e): (usize, usize) = match m {
            None => (0, 0),
            Some(mm) => match self.opt.clusivity {
                KeeperClusivity::Including => match self.opt.cutoff {
                    KeeperCutoff::After => (mm.start, usize::MAX),
                    KeeperCutoff::Before => {
                        let bound = match &self.opt.encoding {
                            None => mm.end,
                            Some(enc) => {
                                let matched = mm.text.as_str();
                                let len: usize = matched.unicode_len();
                                let walk_back: usize = if len == 0 {
                                    4
                                } else {
                                    let last = matched.get_char(len - 1);
                                    proof {
                                        assert(mm.text@.last() == mm.text@[len - 1]);
                                    }
                                    char_width(enc, last)
                                };
                                mm.end.saturating_sub(walk_back)
                            },
                        };
                        (0, bound)
                    },
                },
                KeeperClusivity::Excluding => match self.opt.cutoff {
                    KeeperCutoff::After => {
                        let len: usize = mm.text.as_str().unicode_len();
                        (mm.start.saturating_add(len), usize::MAX)
                    },
                    KeeperCutoff::Before => (0, mm.start),
                },
            },
        };
        self.to_parse.as_str().substring(CharRange::span(s, e))
    }

    /// Runs the extraction: asks the engine for the first or the last
    /// match, as the anchor says, and applies the range table to
    /// whatever it reported. A pattern that matches nowhere yields the
    /// empty text.
    pub fn render(&self) -> (r: String)
        ensures
            exists|m: Option<RegexMatch>|
                regex_found(m, self.to_parse@) && r@ == regex_keeper_view(
                    self.to_parse@,
                    self.opt,
                    m,
                ),
    {
        let m = match self.opt.period {
            KeeperPeriod::Start => regex_find_first(&self.pattern, self.to_parse.as_str()),
            KeeperPeriod::End => regex_find_last(&self.pattern, self.to_parse.as_str()),
        };
        let r = self.render_with_match(&m);
        proof {
            assert(regex_found(m, self.to_parse@) && r@ == regex_keeper_view(
                self.to_parse@,
                self.opt,
                m,
            ));
        }
        r
    }
}

} // verus!
