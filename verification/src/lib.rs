//! Directory listing core: turns the entries of a directory walk into
//! filtered, formatted records.
//!
//! The library never touches the file system. A caller walks the tree and
//! hands each entry over as plain values; the library decides whether the
//! entry is shown and renders its line.

pub mod text;
pub mod units;
pub mod cli;
pub mod error;
pub mod entry;
pub mod path;
pub mod style;
pub mod pattern;
pub mod filter;
pub mod record;
pub mod config;
pub mod scan;
pub mod guarantees;
pub mod order;
pub mod prune;
pub mod align;

pub use cli::{log_level, LevelFilter, Opt};
pub use config::ScanConfig;
pub use entry::{is_hidden, Entry, EntryKind};
pub use error::ScanError;
pub use scan::{scan, search_dir, Listing, Scanner};
pub use units::{size_trans, time_trans};
