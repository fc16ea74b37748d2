//! A soft-delete ledger: files are moved into a trash directory instead of
//! being destroyed, and a ledger records where each of them came from so that
//! it can be put back, listed or purged.
//!
//! The crate holds the decisions only. Callers look at the file system, hand
//! what they saw to the functions of [`actions`], carry out the [`Action`]
//! they get back and record it in the [`FileList`].

pub mod actions;
pub mod argparse;
pub mod error;
pub mod file_list;
pub mod laws;
pub mod path;
pub mod trusted;

pub use crate::actions::{Action, FileKind};
pub use crate::error::Error;
pub use crate::file_list::{FileInfo, FileList};
pub use crate::path::WrmPath;
