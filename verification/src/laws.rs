//! The general properties the library promises, each proved over the
//! spec functions that the executable functions' contracts use.
use vstd::prelude::*;

use crate::keeper::initial_opts;
use crate::keeper::KeeperClusivity;
use crate::keeper::KeeperCutoff;
use crate::keeper::StringKeeperMode;
use crate::keeper::StringKeeperOpts;
use crate::ranges::CharRange;
use crate::render::char_keeper_view;
use crate::render::locate_char;
use crate::render::locate_seq;
use crate::render::string_keeper_view;
use crate::render::trim_trailing_zeros_view;
use crate::search::first_match;
use crate::search::lemma_first_match_from;
use crate::search::match_at;
use crate::substring::substring_range_view;
use crate::substring::substring_view;
use crate::substring::try_substring_view;

verus! {

/// A valid character range `[start, end)` resolves to exactly
/// `end - start` characters, and re-slicing the result over its whole
/// extent gives it back unchanged.
pub proof fn lemma_substring_exact(text: Seq<char>, start: int, end: int)
    requires
        0 <= start <= end <= text.len(),
    ensures
        substring_view(text, start, end).len() == end - start,
        substring_view(substring_view(text, start, end), 0, end - start) == substring_view(
            text,
            start,
            end,
        ),
{
    let sub = substring_view(text, start, end);
    if start < end {
        assert(substring_view(sub, 0, end - start) =~= sub);
    }
}

/// A range whose normalized end does not exceed its normalized start
/// resolves to the empty text — never to an error.
pub proof fn lemma_inverted_range_empty(text: Seq<char>, range: CharRange)
    requires
        range.end_position() <= range.start_position(),
    ensures
        substring_range_view(text, range) == Seq::<char>::empty(),
{
}

/// The infallible and the fallible resolver agree on every well-formed
/// range: where the normalized range is non-empty, the fallible variant
/// yields exactly what the infallible one resolves to.
pub proof fn lemma_try_substring_agrees(text: Seq<char>, range: CharRange)
    requires
        range.start_position() < range.end_position(),
    ensures
        try_substring_view(text, range) == Some(substring_range_view(text, range)),
{
}

/// Round trip: when the pattern occurs exactly once, at position `at`,
/// the region before the match (match excluded) followed by the region
/// after it (match included) reconstructs the whole text.
pub proof fn lemma_keep_round_trip(text: Seq<char>, pat: Seq<char>, at: int)
    requires
        text.len() <= usize::MAX,
        match_at(text, pat, at),
        forall|j: int| match_at(text, pat, j) ==> j == at,
    ensures
        string_keeper_view(
            text,
            pat,
            (StringKeeperOpts {
                cutoff: KeeperCutoff::Before,
                clusivity: KeeperClusivity::Excluding,
                ..initial_opts(StringKeeperMode::Keep)
            }),
        ) + string_keeper_view(text, pat, initial_opts(StringKeeperMode::Keep)) == text,
{
    lemma_first_match_from(text, pat, 0);
    assert(first_match(text, pat) == Some(at));
    let before = string_keeper_view(
        text,
        pat,
        (StringKeeperOpts {
            cutoff: KeeperCutoff::Before,
            clusivity: KeeperClusivity::Excluding,
            ..initial_opts(StringKeeperMode::Keep)
        }),
    );
    let after = string_keeper_view(text, pat, initial_opts(StringKeeperMode::Keep));
    let len = text.len() as int;
    assert(before =~= text.subrange(0, at));
    assert(after =~= text.subrange(at, len));
    assert(before + after =~= text);
}

/// A literal pattern that does not occur is no error: the extraction
/// yields the empty text, whatever the configuration.
pub proof fn lemma_missing_pattern_yields_empty(text: Seq<char>, pat: Seq<char>, opt: StringKeeperOpts)
    requires
        locate_seq(opt.period, text, pat) is None,
    ensures
        string_keeper_view(text, pat, opt) == Seq::<char>::empty(),
{
}

/// A character pattern that does not occur is no error either: the
/// intermediate result is empty, so no secondary narrowing applies and
/// the extraction yields the empty text.
pub proof fn lemma_missing_char_yields_empty(
    text: Seq<char>,
    pat: char,
    until: Option<char>,
    opt: StringKeeperOpts,
)
    requires
        locate_char(opt.period, text, pat) is None,
    ensures
        char_keeper_view(text, pat, until, opt) == Seq::<char>::empty(),
{
    let empty = Seq::<char>::empty();
    if until is Some {
        assert(locate_char(opt.period, empty, until->0) is None);
    }
}

/// Run-scan idempotence, stated for the texts whose first pass already
/// yields the empty text: trimming again changes nothing. On other texts
/// a second pass can cut further, because the first pass drops the
/// anchoring zero itself along with everything after it.
pub proof fn lemma_trim_trailing_zeros_idempotent(text: Seq<char>)
    requires
        trim_trailing_zeros_view(text) == Seq::<char>::empty(),
    ensures
        trim_trailing_zeros_view(trim_trailing_zeros_view(text)) == trim_trailing_zeros_view(text),
{
    let empty = Seq::<char>::empty();
    assert(locate_char(crate::keeper::KeeperPeriod::End, empty, '0') is None);
    assert(trim_trailing_zeros_view(empty) == empty);
}

} // verus!
