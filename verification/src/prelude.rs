//! The traits a caller usually wants in scope.

pub use crate::keeper::KeeperCommonExt;
pub use crate::keeper::StringKeeperCommonExt;
pub use crate::substring::SubstringExt;
