//! Character-index-safe substring extraction and pattern-anchored text
//! trimming: slicing by logical character position with graceful clamping,
//! and a configurable keeper/cutter that selects the region of a text
//! before or after a located pattern.

pub mod keeper;
pub mod laws;
pub mod prelude;
pub mod ranges;
pub mod regex_pattern;
pub mod render;
pub mod search;
pub mod substring;

pub use keeper::KeeperClusivity;
pub use keeper::KeeperCommonExt;
pub use keeper::KeeperCutoff;
pub use keeper::KeeperEncoding;
pub use keeper::KeeperPeriod;
pub use keeper::KeeperUntilMatch;
pub use keeper::StringKeeper;
pub use keeper::StringKeeperCommonExt;
pub use keeper::StringKeeperExt;
pub use keeper::StringKeeperMode;
pub use keeper::StringKeeperOpts;
pub use ranges::CharBound;
pub use ranges::CharRange;
pub use regex_pattern::RegexMatch;
pub use substring::SubstringExt;
