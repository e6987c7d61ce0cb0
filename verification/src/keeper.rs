//! The pattern-anchored keeper/cutter configuration: which occurrence of
//! the pattern anchors the operation, which side of it is selected,
//! whether the match itself belongs to the selection, whether the
//! selection is kept or cut away, and an optional secondary run-scan.
use vstd::prelude::*;

verus! {

/// Whether the search anchors at the first or the last occurrence of the
/// pattern.
#[derive(Clone, Copy, Debug, Eq, Ord, PartialOrd, PartialEq)]
pub enum KeeperPeriod {
    Start,
    End,
}

/// Whether the selected region lies after or before the located match.
#[derive(Clone, Copy, Debug, Eq, Ord, PartialOrd, PartialEq)]
pub enum KeeperCutoff {
    After,
    Before,
}

/// Whether the matched pattern itself belongs to the selected region.
#[derive(Clone, Copy, Debug, Eq, Ord, PartialOrd, PartialEq)]
pub enum KeeperClusivity {
    Including,
    Excluding,
}

/// Which code-unit width measures the last character of a regular
/// expression match when the match boundary is walked back by one
/// character.
#[derive(Clone, Copy, Debug, Eq, Ord, PartialOrd, PartialEq)]
pub enum KeeperEncoding {
    Utf8,
    Utf16,
}

/// How a secondary pattern narrows the selection: stop at its first
/// further occurrence, or consume a contiguous run of it and stop at the
/// first character that no longer matches.
#[derive(Clone, Copy, Debug, Eq, Ord, PartialOrd, PartialEq)]
pub enum KeeperUntilMatch {
    FirstMatch,
    NoMatch,
}

/// Whether the narrowed region is kept, or cut out of the intermediate
/// result.
#[derive(Clone, Copy, Debug, Eq, Ord, PartialOrd, PartialEq)]
pub enum StringKeeperMode {
    Cut,
    Keep,
}

/// The full configuration of one extraction: each axis always holds
/// exactly one value, and a run never mutates it.
#[derive(Clone, Copy, Debug, Eq, Ord, PartialOrd, PartialEq)]
pub struct StringKeeperOpts {
    pub until_match: Option<KeeperUntilMatch>,
    pub mode: StringKeeperMode,
    pub period: KeeperPeriod,
    pub clusivity: KeeperClusivity,
    pub cutoff: KeeperCutoff,
    pub encoding: Option<KeeperEncoding>,
}

/// A text together with a search pattern, an optional secondary pattern,
/// and the configuration of one extraction over them.
#[derive(Clone, Debug, Eq, Ord, PartialOrd, PartialEq)]
pub struct StringKeeper<T, P> {
    pub to_parse: P,
    pub pattern: T,
    pub until_pattern: Option<T>,
    pub opt: StringKeeperOpts,
}

/// The configuration every extraction starts from: anchor at the first
/// occurrence, select the region after the match, match included, in the
/// given mode, with no secondary pattern.
pub open spec fn initial_opts(mode: StringKeeperMode) -> StringKeeperOpts {
    StringKeeperOpts {
        until_match: None,
        mode,
        period: KeeperPeriod::Start,
        cutoff: KeeperCutoff::After,
        clusivity: KeeperClusivity::Including,
        encoding: None,
    }
}

/// `k` with its anchor replaced.
pub open spec fn with_period<T, P>(k: StringKeeper<T, P>, period: KeeperPeriod) -> StringKeeper<
    T,
    P,
> {
    StringKeeper {
        to_parse: k.to_parse,
        pattern: k.pattern,
        until_pattern: k.until_pattern,
        opt: StringKeeperOpts { period, ..k.opt },
    }
}

/// `k` with its inclusivity replaced.
pub open spec fn with_clusivity<T, P>(
    k: StringKeeper<T, P>,
    clusivity: KeeperClusivity,
) -> StringKeeper<T, P> {
    StringKeeper {
        to_parse: k.to_parse,
        pattern: k.pattern,
        until_pattern: k.until_pattern,
        opt: StringKeeperOpts { clusivity, ..k.opt },
    }
}

/// `k` with its cutoff side replaced.
pub open spec fn with_cutoff<T, P>(k: StringKeeper<T, P>, cutoff: KeeperCutoff) -> StringKeeper<
    T,
    P,
> {
    StringKeeper {
        to_parse: k.to_parse,
        pattern: k.pattern,
        until_pattern: k.until_pattern,
        opt: StringKeeperOpts { cutoff, ..k.opt },
    }
}

/// `k` with a secondary pattern and its run rule installed.
pub open spec fn with_until<T, P>(
    k: StringKeeper<T, P>,
    until_pattern: T,
    until_match: KeeperUntilMatch,
) -> StringKeeper<T, P> {
    StringKeeper {
        to_parse: k.to_parse,
        pattern: k.pattern,
        until_pattern: Some(until_pattern),
        opt: StringKeeperOpts { until_match: Some(until_match), ..k.opt },
    }
}

/// `k` with its encoding replaced.
pub open spec fn with_encoding<T, P>(
    k: StringKeeper<T, P>,
    encoding: KeeperEncoding,
) -> StringKeeper<T, P> {
    StringKeeper {
        to_parse: k.to_parse,
        pattern: k.pattern,
        until_pattern: k.until_pattern,
        opt: StringKeeperOpts { encoding: Some(encoding), ..k.opt },
    }
}

/// Starts an extraction over a value: `keep` selects a region of it,
/// `cut` removes the narrowed region instead.
pub trait StringKeeperCommonExt<T, P>: Sized {
    /// The text the extraction will parse.
    spec fn parse_source(self) -> P;

    /// An extraction that keeps the selected region.
    fn keep(self, pattern: T) -> (k: StringKeeper<T, P>)
        ensures
            k == (StringKeeper {
                to_parse: self.parse_source(),
                pattern,
                until_pattern: None::<T>,
                opt: initial_opts(StringKeeperMode::Keep),
            }),
    ;

    /// An extraction that cuts the narrowed region out.
    fn cut(self, pattern: T) -> (k: StringKeeper<T, P>)
        ensures
            k == (StringKeeper {
                to_parse: self.parse_source(),
                pattern,
                until_pattern: None::<T>,
                opt: initial_opts(StringKeeperMode::Cut),
            }),
    ;
}

impl<T, P> StringKeeperCommonExt<T, P> for P {
    open spec fn parse_source(self) -> P {
        self
    }

    fn keep(self, pattern: T) -> (k: StringKeeper<T, P>) {
        StringKeeper {
            pattern,
            to_parse: self,
            until_pattern: None,
            opt: StringKeeperOpts {
                until_match: None,
                mode: StringKeeperMode::Keep,
                period: KeeperPeriod::Start,
                cutoff: KeeperCutoff::After,
                clusivity: KeeperClusivity::Including,
                encoding: None,
            },
        }
    }

    fn cut(self, pattern: T) -> (k: StringKeeper<T, P>) {
        StringKeeper {
            pattern,
            to_parse: self,
            until_pattern: None,
            opt: StringKeeperOpts {
                until_match: None,
                mode: StringKeeperMode::Cut,
                period: KeeperPeriod::Start,
                cutoff: KeeperCutoff::After,
                clusivity: KeeperClusivity::Including,
                encoding: None,
            },
        }
    }
}

/// The fluent configuration steps: each consumes the keeper and returns
/// it with one axis replaced.
pub trait KeeperCommonExt<T, P>: Sized {
    /// The keeper this configuration step starts from.
    spec fn keeper_value(self) -> StringKeeper<T, P>;

    /// Anchor at the first occurrence of the pattern.
    fn beginning_of_string(self) -> (k: StringKeeper<T, P>)
        ensures
            k == with_period(self.keeper_value(), KeeperPeriod::Start),
    ;

    /// Anchor at the last occurrence of the pattern.
    fn end_of_string(self) -> (k: StringKeeper<T, P>)
        ensures
            k == with_period(self.keeper_value(), KeeperPeriod::End),
    ;

    /// The matched pattern belongs to the selected region.
    fn including_pattern(self) -> (k: StringKeeper<T, P>)
        ensures
            k == with_clusivity(self.keeper_value(), KeeperClusivity::Including),
    ;

    /// The matched pattern stays outside the selected region.
    fn excluding_pattern(self) -> (k: StringKeeper<T, P>)
        ensures
            k == with_clusivity(self.keeper_value(), KeeperClusivity::Excluding),
    ;

    /// Select the region before the match.
    fn before_pattern(self) -> (k: StringKeeper<T, P>)
        ensures
            k == with_cutoff(self.keeper_value(), KeeperCutoff::Before),
    ;

    /// Select the region after the match.
    fn after_pattern(self) -> (k: StringKeeper<T, P>)
        ensures
            k == with_cutoff(self.keeper_value(), KeeperCutoff::After),
    ;

    /// Narrow the selection at the first further occurrence of
    /// `until_pattern`.
    fn until_first_matched_pattern(self, until_pattern: T) -> (k: StringKeeper<T, P>)
        ensures
            k == with_until(self.keeper_value(), until_pattern, KeeperUntilMatch::FirstMatch),
    ;

    /// Narrow the selection to a contiguous run of `until_pattern`,
    /// stopping at the first character that no longer matches.
    fn until_no_matched_pattern(self, until_pattern: T) -> (k: StringKeeper<T, P>)
        ensures
            k == with_until(self.keeper_value(), until_pattern, KeeperUntilMatch::NoMatch),
    ;

    /// Measure the last character of a regular expression match in UTF-8
    /// bytes.
    fn utf8_encoding(self) -> (k: StringKeeper<T, P>)
        ensures
            k == with_encoding(self.keeper_value(), KeeperEncoding::Utf8),
    ;

    /// Measure the last character of a regular expression match in UTF-16
    /// code units.
    fn utf16_encoding(self) -> (k: StringKeeper<T, P>)
        ensures
            k == with_encoding(self.keeper_value(), KeeperEncoding::Utf16),
    ;

    /// Measure the last character of a regular expression match in the
    /// given encoding.
    fn set_encoding(self, enc: KeeperEncoding) -> (k: StringKeeper<T, P>)
        ensures
            k == with_encoding(self.keeper_value(), enc),
    ;
}

impl<T, P> KeeperCommonExt<T, P> for StringKeeper<T, P> {
    open spec fn keeper_value(self) -> StringKeeper<T, P> {
        self
    }

    fn beginning_of_string(self) -> (k: StringKeeper<T, P>) {
        StringKeeper { opt: StringKeeperOpts { period: KeeperPeriod::Start, ..self.opt }, ..self }
    }

    fn end_of_string(self) -> (k: StringKeeper<T, P>) {
        StringKeeper { opt: StringKeeperOpts { period: KeeperPeriod::End, ..self.opt }, ..self }
    }

    fn including_pattern(self) -> (k: StringKeeper<T, P>) {
        StringKeeper {
            opt: StringKeeperOpts { clusivity: KeeperClusivity::Including, ..self.opt },
            ..self
        }
    }

    fn excluding_pattern(self) -> (k: StringKeeper<T, P>) {
        StringKeeper {
            opt: StringKeeperOpts { clusivity: KeeperClusivity::Excluding, ..self.opt },
            ..self
        }
    }

    fn before_pattern(self) -> (k: StringKeeper<T, P>) {
        StringKeeper { opt: StringKeeperOpts { cutoff: KeeperCutoff::Before, ..self.opt }, ..self }
    }

    fn after_pattern(self) -> (k: StringKeeper<T, P>) {
        StringKeeper { opt: StringKeeperOpts { cutoff: KeeperCutoff::After, ..self.opt }, ..self }
    }

    fn until_first_matched_pattern(self, until_pattern: T) -> (k: StringKeeper<T, P>) {
        StringKeeper {
            until_pattern: Some(until_pattern),
            opt: StringKeeperOpts {
                until_match: Some(KeeperUntilMatch::FirstMatch),
                ..self.opt
            },
            ..self
        }
    }

    fn until_no_matched_pattern(self, until_pattern: T) -> (k: StringKeeper<T, P>) {
        StringKeeper {
            until_pattern: Some(until_pattern),
            opt: StringKeeperOpts { until_match: Some(KeeperUntilMatch::NoMatch), ..self.opt },
            ..self
        }
    }

    fn utf8_encoding(self) -> (k: StringKeeper<T, P>) {
        StringKeeper {
            opt: StringKeeperOpts { encoding: Some(KeeperEncoding::Utf8), ..self.opt },
            ..self
        }
    }

    fn utf16_encoding(self) -> (k: StringKeeper<T, P>) {
        StringKeeper {
            opt: StringKeeperOpts { encoding: Some(KeeperEncoding::Utf16), ..self.opt },
            ..self
        }
    }

    fn set_encoding(self, enc: KeeperEncoding) -> (k: StringKeeper<T, P>) {
        StringKeeper { opt: StringKeeperOpts { encoding: Some(enc), ..self.opt }, ..self }
    }
}

/// The combined capability of a value that can start and configure an
/// extraction.
pub trait StringKeeperExt<T, P>: StringKeeperCommonExt<T, P> {

}

} // verus!
