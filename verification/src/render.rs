//! Running a configured extraction: locate the pattern, derive the
//! selected character range from the inclusivity and cutoff axes,
//! optionally narrow it by the secondary run-scan, and keep or cut the
//! narrowed region.
use vstd::prelude::*;
use vstd::string::*;

use crate::keeper::KeeperClusivity;
use crate::keeper::KeeperCutoff;
use crate::keeper::KeeperPeriod;
use crate::keeper::KeeperUntilMatch;
use crate::keeper::StringKeeper;
use crate::keeper::StringKeeperMode;
use crate::keeper::StringKeeperOpts;
use crate::ranges::CharRange;
use crate::search::find_char_down;
use crate::search::find_char_first;
use crate::search::find_char_from;
use crate::search::find_char_last;
use crate::search::find_first;
use crate::search::find_last;
use crate::search::first_char;
use crate::search::first_char_from;
use crate::search::first_match;
use crate::search::last_char;
use crate::search::last_char_down;
use crate::search::last_match;
use crate::search::lemma_first_char_from;
use crate::search::lemma_first_match_from;
use crate::search::lemma_last_char_down;
use crate::search::lemma_last_match_down;
use crate::search::run_scan_down;
use crate::search::run_scan_up;
use crate::search::scan_run_down;
use crate::search::scan_run_up;
use crate::substring::splice_out;
use crate::substring::splice_view;
use crate::substring::substring_view;
use crate::substring::SubstringExt;

verus! {

/// The anchored occurrence of a literal pattern: its first occurrence
/// when anchored at the start, its last when anchored at the end.
pub open spec fn locate_seq(period: KeeperPeriod, text: Seq<char>, pat: Seq<char>) -> Option<int> {
    match period {
        KeeperPeriod::Start => first_match(text, pat),
        KeeperPeriod::End => last_match(text, pat),
    }
}

/// The anchored occurrence of a character pattern.
pub open spec fn locate_char(period: KeeperPeriod, text: Seq<char>, c: char) -> Option<int> {
    match period {
        KeeperPeriod::Start => first_char(text, c),
        KeeperPeriod::End => last_char(text, c),
    }
}

/// The half-open character range selected by the located match: the side
/// given by the cutoff, with the match itself (of `unit_len` units) in or
/// out of it as the inclusivity says. No match selects the empty range.
pub open spec fn primary_range(opt: StringKeeperOpts, m: Option<int>, unit_len: int) -> (int, int) {
    match m {
        None => (0int, 0int),
        Some(pos) => match opt.clusivity {
            KeeperClusivity::Including => match opt.cutoff {
                KeeperCutoff::After => (pos, usize::MAX as int),
                KeeperCutoff::Before => (0int, pos + unit_len),
            },
            KeeperClusivity::Excluding => match opt.cutoff {
                KeeperCutoff::After => (pos + unit_len, usize::MAX as int),
                KeeperCutoff::Before => (0int, pos),
            },
        },
    }
}

/// What an extraction anchored on a literal pattern yields.
pub open spec fn string_keeper_view(text: Seq<char>, pat: Seq<char>, opt: StringKeeperOpts) -> Seq<
    char,
> {
    let r = primary_range(opt, locate_seq(opt.period, text, pat), pat.len() as int);
    substring_view(text, r.0, r.1)
}

/// The sub-range of the intermediate result that the secondary pattern
/// selects, if any: the secondary character is re-located in the
/// intermediate result under the same anchor, and the boundary of its
/// run or of its next occurrence closes the range.
pub open spec fn until_range(opt: StringKeeperOpts, u: char, mid: Seq<char>) -> Option<(int, int)> {
    match opt.until_match {
        None => None,
        Some(um) => match locate_char(opt.period, mid, u) {
            None => None,
            Some(pos) => match um {
                KeeperUntilMatch::FirstMatch => match opt.cutoff {
                    KeeperCutoff::After => match first_char_from(mid, u, pos + 1) {
                        None => None,
                        Some(b) => Some((b, usize::MAX as int)),
                    },
                    KeeperCutoff::Before => match last_char_down(mid, u, pos) {
                        None => None,
                        Some(b) => Some((pos, b)),
                    },
                },
                KeeperUntilMatch::NoMatch => match opt.cutoff {
                    KeeperCutoff::After => match run_scan_up(mid, u, pos + 1, false) {
                        None => None,
                        Some(b) => Some((b + 1, pos + 1)),
                    },
                    KeeperCutoff::Before => match run_scan_down(mid, u, pos, false) {
                        None => None,
                        Some(b) => Some((b + 1, pos + 1)),
                    },
                },
            },
        },
    }
}

/// What an extraction anchored on a character pattern yields: the
/// intermediate result of the primary range, then — when a secondary
/// pattern is configured and closes a sub-range — that sub-range kept,
/// or cut out, as the mode says.
pub open spec fn char_keeper_view(
    text: Seq<char>,
    pat: char,
    until: Option<char>,
    opt: StringKeeperOpts,
) -> Seq<char> {
    let r = primary_range(opt, locate_char(opt.period, text, pat), 1);
    let mid = substring_view(text, r.0, r.1);
    match until {
        None => mid,
        Some(u) => match until_range(opt, u, mid) {
            None => mid,
            Some(nr) => match opt.mode {
                StringKeeperMode::Keep => substring_view(mid, nr.0, nr.1),
                StringKeeperMode::Cut => splice_view(mid, nr.0, nr.1),
            },
        },
    }
}

/// What trimming a trailing run of zeros yields: anchored at the last
/// `'0'`, the region before it (match excluded) is taken, and the run of
/// `'0'` closing that region is cut out.
pub open spec fn trim_trailing_zeros_view(text: Seq<char>) -> Seq<char> {
    char_keeper_view(
        text,
        '0',
        Some('0'),
        StringKeeperOpts {
            until_match: Some(KeeperUntilMatch::NoMatch),
            mode: StringKeeperMode::Cut,
            period: KeeperPeriod::End,
            clusivity: KeeperClusivity::Excluding,
            cutoff: KeeperCutoff::Before,
            encoding: None,
        },
    )
}

impl StringKeeper<String, String> {
    /// Runs the extraction over a literal text pattern. A pattern that
    /// does not occur yields the empty text.
    pub fn render(&self) -> (r: String)
        ensures
            r@ == string_keeper_view(self.to_parse@, self.pattern@, self.opt),
    {
        let text = self.to_parse.as_str();
        let pat = self.pattern.as_str();
        // pins text@.len() to at most usize::MAX: with it, a match position
        // plus the pattern length stays within bounds
        let n: usize = text.unicode_len();
        let u: usize = pat.unicode_len();
        let m = match self.opt.period {
            KeeperPeriod::Start => find_first(text, pat),
            KeeperPeriod::End => find_last(text, pat),
        };
        let (s, e): (usize, usize) = match m {
            None => (0, 0),
            Some(pos) => {
                proof {
                    match self.opt.period {
                        KeeperPeriod::Start => lemma_first_match_from(text@, pat@, 0),
                        KeeperPeriod::End => lemma_last_match_down(
                            text@,
                            pat@,
                            text@.len() - pat@.len(),
                        ),
                    }
                }
                match self.opt.clusivity {
                    KeeperClusivity::Including => match self.opt.cutoff {
                        KeeperCutoff::After => (pos, usize::MAX),
                        KeeperCutoff::Before => (0, pos + u),
                    },
                    KeeperClusivity::Excluding => match self.opt.cutoff {
                        KeeperCutoff::After => (pos + u, usize::MAX),
                        KeeperCutoff::Before => (0, pos),
                    },
                }
            },
        };
        text.substring(CharRange::span(s, e))
    }
}

impl StringKeeper<char, String> {
    /// Runs the extraction over a single-character pattern, including the
    /// secondary run-scan when one is configured. A pattern that does not
    /// occur yields the empty text.
    pub fn render(&self) -> (r: String)
        ensures
            r@ == char_keeper_view(self.to_parse@, self.pattern, self.until_pattern, self.opt),
    {
        let text = self.to_parse.as_str();
        // pins text@.len() to at most usize::MAX, bounding every position
        let n: usize = text.unicode_len();
        let m = match self.opt.period {
            KeeperPeriod::Start => find_char_first(text, self.pattern),
            KeeperPeriod::End => find_char_last(text, self.pattern),
        };
        let (s, e): (usize, usize) = match m {
            None => (0, 0),
            Some(pos) => {
                proof {
                    match self.opt.period {
                        KeeperPeriod::Start => lemma_first_char_from(text@, self.pattern, 0),
                        KeeperPeriod::End => {
                            if text@.len() > 0 {
                                lemma_last_char_down(text@, self.pattern, text@.len() - 1);
                            }
                        },
                    }
                }
                match self.opt.clusivity {
                    KeeperClusivity::Including => match self.opt.cutoff {
                        KeeperCutoff::After => (pos, usize::MAX),
                        KeeperCutoff::Before => (0, pos + 1),
                    },
                    KeeperClusivity::Excluding => match self.opt.cutoff {
                        KeeperCutoff::After => (pos + 1, usize::MAX),
                        KeeperCutoff::Before => (0, pos),
                    },
                }
            },
        };
        let mid = text.substring(CharRange::span(s, e));
        let narrowed: Option<(usize, usize)> = match (self.until_pattern, self.opt.until_match) {
            (Some(u), Some(um)) => {
                // pins mid@.len() likewise, for the narrowed bounds
                let mid_len: usize = mid.as_str().unicode_len();
                let pos2 = match self.opt.period {
                    KeeperPeriod::Start => find_char_first(mid.as_str(), u),
                    KeeperPeriod::End => find_char_last(mid.as_str(), u),
                };
                match pos2 {
                    None => None,
                    Some(pos) => {
                        proof {
                            match self.opt.period {
                                KeeperPeriod::Start => lemma_first_char_from(mid@, u, 0),
                                KeeperPeriod::End => {
                                    if mid@.len() > 0 {
                                        lemma_last_char_down(mid@, u, mid@.len() - 1);
                                    }
                                },
                            }
                        }
                        match um {
                            KeeperUntilMatch::FirstMatch => match self.opt.cutoff {
                                KeeperCutoff::After => match find_char_from(
                                    mid.as_str(),
                                    u,
                                    pos + 1,
                                ) {
                                    None => None,
                                    Some(b) => Some((b, usize::MAX)),
                                },
                                KeeperCutoff::Before => match find_char_down(mid.as_str(), u, pos) {
                                    None => None,
                                    Some(b) => Some((pos, b)),
                                },
                            },
                            KeeperUntilMatch::NoMatch => match self.opt.cutoff {
                                KeeperCutoff::After => match scan_run_up(
                                    mid.as_str(),
                                    u,
                                    pos + 1,
                                    false,
                                ) {
                                    None => None,
                                    Some(b) => Some((b + 1, pos + 1)),
                                },
                                KeeperCutoff::Before => match scan_run_down(
                                    mid.as_str(),
                                    u,
                                    pos,
                                    false,
                                ) {
                                    None => None,
                                    Some(b) => Some((b + 1, pos + 1)),
                                },
                            },
                        }
                    },
                }
            },
            _ => None,
        };
        match narrowed {
            None => mid,
            Some((ns, ne)) => match self.opt.mode {
                StringKeeperMode::Keep => mid.as_str().substring(CharRange::span(ns, ne)),
                StringKeeperMode::Cut => splice_out(mid.as_str(), ns, ne),
            },
        }
    }
}

} // verus!
