//! The options of one invocation, as the command line gives them.

use vstd::prelude::*;

verus! {

/// The options of one invocation, field for field as they are read from the
/// command line.
pub struct Opt {
    /// The root directory to search; the current directory when absent.
    pub rootdir: Option<String>,
    /// Show every column: type, size, creation age, name and full path.
    pub show_all: bool,
    /// The maximum search depth; `usize::MAX` stands for no limit.
    pub deepth: usize,
    /// Show the type column.
    pub show_type: bool,
    /// Show the size column.
    pub show_size: bool,
    /// The unit of the size column: `k`, `m` or `g`; anything else is bytes.
    pub size_fmt: String,
    /// Show the creation age column.
    pub created_time: bool,
    /// Show hidden entries.
    pub show_hiden: bool,
    /// Show the path joined to the current working directory.
    pub full_path: bool,
    /// Show the name column.
    pub name: bool,
    /// List a directory after its contents instead of before them.
    pub depth: bool,
    /// Descend into directories that are reached through symbolic links.
    pub show_link_dir: bool,
    /// Keep only entries with this extension, written without the dot.
    pub ext: Option<String>,
    /// Keep only entries whose shown path matches this regular expression.
    pub regex: Option<String>,
    /// Match the regular expression without regard to case.
    pub ignore_case: bool,
    /// Keep only entries of at most this many bytes.
    pub file_size_max: Option<u64>,
    /// Keep only entries of at least this many bytes.
    pub file_size_min: Option<u64>,
    /// Leave out the header row.
    pub header: bool,
    /// Keep only one type: `f` for files, `d` for directories, `l` for
    /// symbolic links.
    pub filetype: Option<String>,
    /// Write the listing to this file instead of standard output.
    pub out: Option<String>,
    /// Set when help was asked for.
    pub help: Option<String>,
    /// Set when the version was asked for.
    pub version: Option<String>,
}

/// The mathematical content of the options.
pub struct OptView {
    pub rootdir: Option<Seq<char>>,
    pub show_all: bool,
    pub deepth: nat,
    pub show_type: bool,
    pub show_size: bool,
    pub size_fmt: Seq<char>,
    pub created_time: bool,
    pub show_hiden: bool,
    pub full_path: bool,
    pub name: bool,
    pub depth: bool,
    pub show_link_dir: bool,
    pub ext: Option<Seq<char>>,
    pub regex: Option<Seq<char>>,
    pub ignore_case: bool,
    pub file_size_max: Option<nat>,
    pub file_size_min: Option<nat>,
    pub header: bool,
    pub filetype: Option<Seq<char>>,
    pub out: Option<Seq<char>>,
}

/// The view of an optional text.
pub open spec fn text_view(text: Option<String>) -> Option<Seq<char>> {
    match text {
        Some(t) => Some(t@),
        None => None,
    }
}

/// The view of an optional number.
pub open spec fn number_view(number: Option<u64>) -> Option<nat> {
    match number {
        Some(n) => Some(n as nat),
        None => None,
    }
}

impl View for Opt {
    type V = OptView;

    open spec fn view(&self) -> OptView {
        OptView {
            rootdir: text_view(self.rootdir),
            show_all: self.show_all,
            deepth: self.deepth as nat,
            show_type: self.show_type,
            show_size: self.show_size,
            size_fmt: self.size_fmt@,
            created_time: self.created_time,
            show_hiden: self.show_hiden,
            full_path: self.full_path,
            name: self.name,
            depth: self.depth,
            show_link_dir: self.show_link_dir,
            ext: text_view(self.ext),
            regex: text_view(self.regex),
            ignore_case: self.ignore_case,
            file_size_max: number_view(self.file_size_max),
            file_size_min: number_view(self.file_size_min),
            header: self.header,
            filetype: text_view(self.filetype),
            out: text_view(self.out),
        }
    }
}

/// How much the program logs.
#[derive(Clone, Copy, Debug, PartialEq, Eq, Structural)]
pub enum LevelFilter {
    /// Nothing is logged.
    Off,
    /// Errors only.
    Error,
    /// Warnings and errors.
    Warn,
    /// Informational messages and above.
    Info,
    /// Debugging messages and above.
    Debug,
    /// Everything.
    Trace,
}

/// The level that a verbosity count selects.
pub open spec fn level_of(verbose: u8) -> LevelFilter {
    if verbose == 1 {
        LevelFilter::Error
    } else if verbose == 2 {
        LevelFilter::Warn
    } else if verbose == 3 {
        LevelFilter::Info
    } else if verbose == 4 {
        LevelFilter::Debug
    } else if verbose == 5 {
        LevelFilter::Trace
    } else {
        LevelFilter::Off
    }
}

/// Maps a verbosity count to a log level: one to five select the levels from
/// errors up to traces, every other count switches logging off.
pub fn log_level(verbose: u8) -> (level: LevelFilter)
    ensures
        level == level_of(verbose),
{
    match verbose {
        1 => LevelFilter::Error,
        2 => LevelFilter::Warn,
        3 => LevelFilter::Info,
        4 => LevelFilter::Debug,
        5 => LevelFilter::Trace,
        _ => LevelFilter::Off,
    }
}

} // verus!
