//! Locating a pattern in a text by character position: first and last
//! occurrence of a literal sequence or of a single character, and the
//! run-boundary scans used to narrow a region to a stretch of one
//! repeated character.
use vstd::prelude::*;
use vstd::string::*;

verus! {

/// The pattern `pat` occurs in `text` starting at character position `i`.
pub open spec fn match_at(text: Seq<char>, pat: Seq<char>, i: int) -> bool {
    &&& 0 <= i
    &&& i + pat.len() <= text.len()
    &&& text.subrange(i, i + pat.len()) == pat
}

/// The first position `>= from` at which `pat` occurs in `text`.
pub open spec fn first_match_from(text: Seq<char>, pat: Seq<char>, from: int) -> Option<int>
    decreases text.len() + 1 - from,
{
    if from < 0 || from + pat.len() > text.len() {
        None
    } else if match_at(text, pat, from) {
        Some(from)
    } else {
        first_match_from(text, pat, from + 1)
    }
}

/// The position of the first occurrence of `pat` in `text`.
pub open spec fn first_match(text: Seq<char>, pat: Seq<char>) -> Option<int> {
    first_match_from(text, pat, 0)
}

/// The last position `<= from` at which `pat` occurs in `text`.
pub open spec fn last_match_down(text: Seq<char>, pat: Seq<char>, from: int) -> Option<int>
    decreases from + 1,
{
    if from < 0 {
        None
    } else if match_at(text, pat, from) {
        Some(from)
    } else {
        last_match_down(text, pat, from - 1)
    }
}

/// The position of the last occurrence of `pat` in `text`.
pub open spec fn last_match(text: Seq<char>, pat: Seq<char>) -> Option<int> {
    last_match_down(text, pat, text.len() - pat.len())
}

/// The first position `>= from` holding the character `c`.
pub open spec fn first_char_from(text: Seq<char>, c: char, from: int) -> Option<int>
    decreases text.len() - from,
{
    if from < 0 || from >= text.len() {
        None
    } else if text[from] == c {
        Some(from)
    } else {
        first_char_from(text, c, from + 1)
    }
}

/// The position of the first occurrence of the character `c` in `text`.
pub open spec fn first_char(text: Seq<char>, c: char) -> Option<int> {
    first_char_from(text, c, 0)
}

/// The last position `<= from` holding the character `c`.
pub open spec fn last_char_down(text: Seq<char>, c: char, from: int) -> Option<int>
    decreases from + 1,
{
    if from < 0 || from >= text.len() {
        None
    } else if text[from] == c {
        Some(from)
    } else {
        last_char_down(text, c, from - 1)
    }
}

/// The position of the last occurrence of the character `c` in `text`.
pub open spec fn last_char(text: Seq<char>, c: char) -> Option<int> {
    last_char_down(text, c, text.len() - 1)
}

/// Walking forward from `from`: the first position at which a character
/// differs from `c` after at least one `c` has been passed, or nothing
/// when no such boundary exists. This finds where a contiguous run of
/// `c` ends.
pub open spec fn run_scan_up(text: Seq<char>, c: char, from: int, started: bool) -> Option<int>
    decreases text.len() - from,
{
    if from < 0 || from >= text.len() {
        None
    } else if started && text[from] != c {
        Some(from)
    } else {
        run_scan_up(text, c, from + 1, started || text[from] == c)
    }
}

/// Walking backward from `from`: the first position at which a character
/// differs from `c` after at least one `c` has been passed, or nothing
/// when no such boundary exists. This finds where a contiguous run of
/// `c` begins.
pub open spec fn run_scan_down(text: Seq<char>, c: char, from: int, started: bool) -> Option<int>
    decreases from + 1,
{
    if from < 0 || from >= text.len() {
        None
    } else if started && text[from] != c {
        Some(from)
    } else {
        run_scan_down(text, c, from - 1, started || text[from] == c)
    }
}

/// Everything `first_match_from` can yield: the first occurrence at or
/// after `from`, or nothing when there is none.
pub proof fn lemma_first_match_from(text: Seq<char>, pat: Seq<char>, from: int)
    requires
        0 <= from,
    ensures
        match first_match_from(text, pat, from) {
            None => forall|j: int| from <= j ==> !match_at(text, pat, j),
            Some(i) => from <= i && match_at(text, pat, i) && (forall|j: int|
                from <= j < i ==> !match_at(text, pat, j)),
        },
    decreases text.len() + 1 - from,
{
    if from + pat.len() > text.len() {
        assert forall|j: int| from <= j implies !match_at(text, pat, j) by {
            assert(j + pat.len() > text.len());
        }
    } else if match_at(text, pat, from) {
    } else {
        lemma_first_match_from(text, pat, from + 1);
    }
}

/// Everything `last_match_down` can yield: the last occurrence at or
/// before `from`, or nothing when there is none.
pub proof fn lemma_last_match_down(text: Seq<char>, pat: Seq<char>, from: int)
    ensures
        match last_match_down(text, pat, from) {
            None => forall|j: int| j <= from ==> !match_at(text, pat, j),
            Some(i) => i <= from && match_at(text, pat, i) && (forall|j: int|
                i < j <= from ==> !match_at(text, pat, j)),
        },
    decreases from + 1,
{
    if from < 0 {
    } else if match_at(text, pat, from) {
    } else {
        lemma_last_match_down(text, pat, from - 1);
    }
}

/// Everything `first_char_from` can yield.
pub proof fn lemma_first_char_from(text: Seq<char>, c: char, from: int)
    requires
        0 <= from,
    ensures
        match first_char_from(text, c, from) {
            None => forall|j: int| from <= j < text.len() ==> text[j] != c,
            Some(i) => from <= i < text.len() && text[i] == c && (forall|j: int|
                from <= j < i ==> text[j] != c),
        },
    decreases text.len() - from,
{
    if from < 0 || from >= text.len() {
    } else if text[from] == c {
    } else {
        lemma_first_char_from(text, c, from + 1);
    }
}

/// Everything `last_char_down` can yield.
pub proof fn lemma_last_char_down(text: Seq<char>, c: char, from: int)
    requires
        from < text.len(),
    ensures
        match last_char_down(text, c, from) {
            None => forall|j: int| 0 <= j <= from && j < text.len() ==> text[j] != c,
            Some(i) => 0 <= i <= from && i < text.len() && text[i] == c && (forall|j: int|
                i < j <= from && j < text.len() ==> text[j] != c),
        },
    decreases from + 1,
{
    if from < 0 || from >= text.len() {
    } else if text[from] == c {
    } else {
        lemma_last_char_down(text, c, from - 1);
    }
}

/// Finds the first occurrence of `pattern` in `text`, by character
/// position.
pub fn find_first(text: &str, pattern: &str) -> (r: Option<usize>)
    ensures
        match r {
            None => first_match(text@, pattern@) is None,
            Some(i) => first_match(text@, pattern@) == Some(i as int),
        },
{
    proof {
        lemma_first_match_from(text@, pattern@, 0);
    }
    let n: usize = text.unicode_len();
    let m: usize = pattern.unicode_len();
    if m > n {
        return None;
    }
    let mut i: usize = 0;
    while i <= n - m
        invariant
            m <= n == text@.len(),
            m == pattern@.len(),
            i <= n - m + 1,
            forall|j: int| 0 <= j < i ==> !match_at(text@, pattern@, j),
        decreases n - m - i + 1,
    {
        let mut j: usize = 0;
        let mut hit = true;
        while j < m
            invariant
                m <= n == text@.len(),
                m == pattern@.len(),
                i + m <= n,
                j <= m,
                hit == (forall|k: int| 0 <= k < j ==> text@[i + k] == pattern@[k]),
            decreases m - j,
        {
            if text.get_char(i + j) != pattern.get_char(j) {
                proof {
                    assert(text@[i + j] != pattern@[j as int]);
                }
                hit = false;
                j = m;
            } else {
                proof {
                    assert(text@[i + j] == pattern@[j as int]);
                }
                j = j + 1;
            }
        }
        if hit {
            proof {
                assert(text@.subrange(i as int, i + m) =~= pattern@);
                assert(match_at(text@, pattern@, i as int));
                lemma_first_match_from(text@, pattern@, 0);
            }
            return Some(i);
        }
        proof {
            if match_at(text@, pattern@, i as int) {
                assert(forall|k: int|
                    0 <= k < m ==> #[trigger] text@.subrange(i as int, i + m)[k] == text@[i + k]);
            }
        }
        i = i + 1;
    }
    proof {
        assert(forall|j: int| j > n - m ==> !match_at(text@, pattern@, j));
        lemma_first_match_from(text@, pattern@, 0);
    }
    None
}

/// Finds the last occurrence of `pattern` in `text`, by character
/// position.
pub fn find_last(text: &str, pattern: &str) -> (r: Option<usize>)
    ensures
        match r {
            None => last_match(text@, pattern@) is None,
            Some(i) => last_match(text@, pattern@) == Some(i as int),
        },
{
    let n: usize = text.unicode_len();
    let m: usize = pattern.unicode_len();
    if m > n {
        proof {
            lemma_last_match_down(text@, pattern@, text@.len() - pattern@.len());
        }
        return None;
    }
    let mut i: usize = n - m;
    loop
        invariant
            m <= n == text@.len(),
            m == pattern@.len(),
            i <= n - m,
            forall|j: int| i < j <= n - m ==> !match_at(text@, pattern@, j),
        decreases i + 1,
    {
        let mut j: usize = 0;
        let mut hit = true;
        while j < m
            invariant
                m <= n == text@.len(),
                m == pattern@.len(),
                i + m <= n,
                j <= m,
                hit == (forall|k: int| 0 <= k < j ==> text@[i + k] == pattern@[k]),
            decreases m - j,
        {
            if text.get_char(i + j) != pattern.get_char(j) {
                proof {
                    assert(text@[i + j] != pattern@[j as int]);
                }
                hit = false;
                j = m;
            } else {
                proof {
                    assert(text@[i + j] == pattern@[j as int]);
                }
                j = j + 1;
            }
        }
        if hit {
            proof {
                assert(text@.subrange(i as int, i + m) =~= pattern@);
                assert(match_at(text@, pattern@, i as int));
                lemma_last_match_down(text@, pattern@, text@.len() - pattern@.len());
            }
            return Some(i);
        }
        proof {
            if match_at(text@, pattern@, i as int) {
                assert(forall|k: int|
                    0 <= k < m ==> #[trigger] text@.subrange(i as int, i + m)[k] == text@[i + k]);
            }
        }
        if i == 0 {
            proof {
                assert(forall|j: int| j > n - m ==> !match_at(text@, pattern@, j));
                assert(forall|j: int| j < 0 ==> !match_at(text@, pattern@, j));
                lemma_last_match_down(text@, pattern@, text@.len() - pattern@.len());
            }
            return None;
        }
        i = i - 1;
    }
}

/// Finds the first occurrence of the character `c` in `text` at or after
/// position `from`.
pub fn find_char_from(text: &str, c: char, from: usize) -> (r: Option<usize>)
    ensures
        match r {
            None => first_char_from(text@, c, from as int) is None,
            Some(i) => first_char_from(text@, c, from as int) == Some(i as int),
        },
{
    let n: usize = text.unicode_len();
    let mut i: usize = from;
    while i < n
        invariant
            n == text@.len(),
            from <= i,
            forall|j: int| from <= j < i && j < n ==> text@[j] != c,
        decreases n - i,
    {
        if text.get_char(i) == c {
            proof {
                lemma_first_char_from(text@, c, from as int);
            }
            return Some(i);
        }
        i = i + 1;
    }
    proof {
        lemma_first_char_from(text@, c, from as int);
    }
    None
}

/// Finds the first occurrence of the character `c` in `text`.
pub fn find_char_first(text: &str, c: char) -> (r: Option<usize>)
    ensures
        match r {
            None => first_char(text@, c) is None,
            Some(i) => first_char(text@, c) == Some(i as int),
        },
{
    find_char_from(text, c, 0)
}

/// Finds the last occurrence of the character `c` in `text` at or before
/// position `from`.
pub fn find_char_down(text: &str, c: char, from: usize) -> (r: Option<usize>)
    ensures
        match r {
            None => last_char_down(text@, c, from as int) is None,
            Some(i) => last_char_down(text@, c, from as int) == Some(i as int),
        },
{
    let n: usize = text.unicode_len();
    if from >= n {
        return None;
    }
    let mut i: usize = from;
    loop
        invariant
            n == text@.len(),
            i <= from,
            from < n,
            forall|j: int| i < j <= from ==> text@[j] != c,
        decreases i + 1,
    {
        if text.get_char(i) == c {
            proof {
                lemma_last_char_down(text@, c, from as int);
            }
            return Some(i);
        }
        if i == 0 {
            proof {
                lemma_last_char_down(text@, c, from as int);
            }
            return None;
        }
        i = i - 1;
    }
}

/// Finds the last occurrence of the character `c` in `text`.
pub fn find_char_last(text: &str, c: char) -> (r: Option<usize>)
    ensures
        match r {
            None => last_char(text@, c) is None,
            Some(i) => last_char(text@, c) == Some(i as int),
        },
{
    let n: usize = text.unicode_len();
    if n == 0 {
        return None;
    }
    find_char_down(text, c, n - 1)
}

/// Walks forward from `from` to the position just past a run of the
/// character `c`, as `run_scan_up` describes.
pub fn scan_run_up(text: &str, c: char, from: usize, started: bool) -> (r: Option<usize>)
    ensures
        match r {
            None => run_scan_up(text@, c, from as int, started) is None,
            Some(i) => run_scan_up(text@, c, from as int, started) == Some(i as int) && i
                < text@.len(),
        },
{
    let n: usize = text.unicode_len();
    let mut i: usize = from;
    let mut flag = started;
    while i < n
        invariant
            n == text@.len(),
            from <= i,
            run_scan_up(text@, c, from as int, started) == run_scan_up(
                text@,
                c,
                i as int,
                flag,
            ),
        decreases n - i,
    {
        let same = text.get_char(i) == c;
        if flag && !same {
            return Some(i);
        }
        flag = flag || same;
        i = i + 1;
    }
    None
}

/// Walks backward from `from` to the position just before a run of the
/// character `c`, as `run_scan_down` describes.
pub fn scan_run_down(text: &str, c: char, from: usize, started: bool) -> (r: Option<usize>)
    ensures
        match r {
            None => run_scan_down(text@, c, from as int, started) is None,
            Some(i) => run_scan_down(text@, c, from as int, started) == Some(i as int) && i
                < text@.len(),
        },
{
    let n: usize = text.unicode_len();
    if from >= n {
        return None;
    }
    let mut i: usize = from;
    let mut flag = started;
    loop
        invariant
            n == text@.len(),
            i <= from,
            from < n,
            run_scan_down(text@, c, from as int, started) == run_scan_down(
                text@,
                c,
                i as int,
                flag,
            ),
        decreases i + 1,
    {
        let same = text.get_char(i) == c;
        if flag && !same {
            return Some(i);
        }
        proof {
            assert(run_scan_down(text@, c, i as int, flag) == run_scan_down(
                text@,
                c,
                i - 1,
                flag || text@[i as int] == c,
            ));
        }
        flag = flag || same;
        if i == 0 {
            proof {
                assert(run_scan_down(text@, c, -1, flag) is None);
            }
            return None;
        }
        i = i - 1;
    }
}

} // verus!
