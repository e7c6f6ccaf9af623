//! The configuration of one run, put together once and read everywhere.

use vstd::prelude::*;
use vstd::string::*;
use crate::cli::{text_view, Opt, OptView};
use crate::entry::{is_hidden, is_hidden_name};
use crate::error::ScanError;
use crate::filter::{type_filter_of, Filters, FiltersView, TypeFilter};
use crate::pattern::PathPattern;
use crate::record::Columns;
use crate::units::{unit_of, SizeUnit};

verus! {

/// The order in which a directory and what lies below it are listed.
#[derive(Clone, Copy, Debug, PartialEq, Eq, Structural)]
pub enum Order {
    /// A directory comes before its contents.
    BreadthFirst,
    /// A directory comes after its contents.
    DepthFirst,
}

/// Where the listing goes.
#[derive(Clone, Debug)]
pub enum Destination {
    /// Standard output: coloured, with aligned columns.
    Stdout,
    /// A file of this path: plain text, tab-separated.
    File(String),
}

/// The mathematical content of a `Destination`.
pub enum DestinationView {
    Stdout,
    File(Seq<char>),
}

impl View for Destination {
    type V = DestinationView;

    open spec fn view(&self) -> DestinationView {
        match self {
            Destination::Stdout => DestinationView::Stdout,
            Destination::File(path) => DestinationView::File(path@),
        }
    }
}

/// The configuration of one run.
pub struct ScanConfig {
    /// The root of the walk.
    pub root: String,
    /// Entries deeper than this are not listed; `usize::MAX` is no limit.
    pub max_depth: usize,
    /// The order of the walk.
    pub order: Order,
    /// Whether the walk follows symbolic links to directories.
    pub follow_symlinks: bool,
    /// Whether hidden entries are listed.
    pub show_hidden: bool,
    /// The optional columns.
    pub columns: Columns,
    /// Whether paths are joined to the working directory.
    pub full_path: bool,
    /// The unit of the size column.
    pub size_unit: SizeUnit,
    /// The filter chain.
    pub filters: Filters,
    /// Whether a header precedes the records.
    pub header: bool,
    /// Where the listing goes.
    pub destination: Destination,
}

/// The mathematical content of a `ScanConfig`.
pub struct ScanConfigView {
    pub root: Seq<char>,
    pub max_depth: nat,
    pub order: Order,
    pub follow_symlinks: bool,
    pub show_hidden: bool,
    pub columns: Columns,
    pub full_path: bool,
    pub size_unit: SizeUnit,
    pub filters: FiltersView,
    pub header: bool,
    pub destination: DestinationView,
}

impl View for ScanConfig {
    type V = ScanConfigView;

    open spec fn view(&self) -> ScanConfigView {
        ScanConfigView {
            root: self.root@,
            max_depth: self.max_depth as nat,
            order: self.order,
            follow_symlinks: self.follow_symlinks,
            show_hidden: self.show_hidden,
            columns: self.columns,
            full_path: self.full_path,
            size_unit: self.size_unit,
            filters: self.filters@,
            header: self.header,
            destination: self.destination@,
        }
    }
}

/// The type filter that an optional word selects.
pub open spec fn wanted_kind(word: Option<Seq<char>>) -> Option<TypeFilter> {
    match word {
        Some(w) => type_filter_of(w),
        None => None,
    }
}

/// The path filter that a set of options stands for.
pub open spec fn wanted_pattern(opt: OptView) -> Option<PathPattern> {
    match opt.regex {
        Some(source) => Some(PathPattern::of(source, opt.ignore_case)),
        None => None,
    }
}

/// The configuration that a set of options stands for.
///
/// The root is `.` where none is named. `show_all` switches on every column
/// and full paths. `header` in the options asks for no header. Without an
/// output file the listing goes to standard output.
pub open spec fn config_of(opt: OptView) -> ScanConfigView {
    config_with(opt, wanted_pattern(opt))
}

/// The configuration that a set of options stands for, with `pattern` in
/// the place of the path filter.
pub open spec fn config_with(opt: OptView, pattern: Option<PathPattern>) -> ScanConfigView {
    ScanConfigView {
        root: match opt.rootdir {
            Some(dir) => dir,
            None => "."@,
        },
        max_depth: opt.deepth,
        order: if opt.depth {
            Order::DepthFirst
        } else {
            Order::BreadthFirst
        },
        follow_symlinks: opt.show_link_dir,
        show_hidden: opt.show_hiden,
        columns: Columns {
            kind: opt.show_all || opt.show_type,
            size: opt.show_all || opt.show_size,
            ctime: opt.show_all || opt.created_time,
            name: opt.show_all || opt.name,
        },
        full_path: opt.show_all || opt.full_path,
        size_unit: unit_of(opt.size_fmt),
        filters: FiltersView {
            kind: wanted_kind(opt.filetype),
            extension: opt.ext,
            path_regex: pattern,
            min_size: opt.file_size_min,
            max_size: opt.file_size_max,
        },
        header: !opt.header,
        destination: match opt.out {
            Some(path) => DestinationView::File(path),
            None => DestinationView::Stdout,
        },
    }
}

/// A copy of an optional text.
fn copy_text(text: &Option<String>) -> (copy: Option<String>)
    ensures
        text_view(copy) == text_view(*text),
{
    match text {
        Some(t) => Some(t.clone()),
        None => None,
    }
}

/// Whether the output is coloured and aligned: it is when the listing goes
/// to standard output, and never when it goes to a file.
pub open spec fn colorized(config: ScanConfigView) -> bool {
    config.destination is Stdout
}

/// Whether a run passes over every entry of this name, and with it over
/// all that lies below a directory of this name: it does so for a hidden
/// name, unless hidden entries are asked for.
pub open spec fn passes_over(config: ScanConfigView, name: Seq<char>) -> bool {
    !config.show_hidden && is_hidden_name(name)
}

impl ScanConfig {
    /// Whether the run passes over every entry of this name; a walk need
    /// not descend into a directory of such a name.
    pub fn passes_over(&self, name: &str) -> (yes: bool)
        ensures
            yes == passes_over(self@, name@),
    {
        !self.show_hidden && is_hidden(name)
    }

    /// Whether the output is coloured and aligned.
    pub fn colorize(&self) -> (yes: bool)
        ensures
            yes == colorized(self@),
    {
        match self.destination {
            Destination::Stdout => true,
            Destination::File(_) => false,
        }
    }

    /// The configuration for a set of options whose regular expression, if
    /// they have one, has been compiled to `pattern`.
    pub fn with_pattern(opt: &Opt, pattern: Option<PathPattern>) -> (config: ScanConfig)
        ensures
            config@ == config_with(opt@, pattern),
    {
        let all = opt.show_all;
        ScanConfig {
            root: match &opt.rootdir {
                Some(dir) => dir.clone(),
                None => String::from_str("."),
            },
            max_depth: opt.deepth,
            order: if opt.depth {
                Order::DepthFirst
            } else {
                Order::BreadthFirst
            },
            follow_symlinks: opt.show_link_dir,
            show_hidden: opt.show_hiden,
            columns: Columns {
                kind: all || opt.show_type,
                size: all || opt.show_size,
                ctime: all || opt.created_time,
                name: all || opt.name,
            },
            full_path: all || opt.full_path,
            size_unit: SizeUnit::parse(opt.size_fmt.as_str()),
            filters: Filters {
                kind: match &opt.filetype {
                    Some(word) => TypeFilter::parse(word.as_str()),
                    None => None,
                },
                extension: copy_text(&opt.ext),
                path_regex: pattern,
                min_size: opt.file_size_min,
                max_size: opt.file_size_max,
            },
            header: !opt.header,
            destination: match &opt.out {
                Some(path) => Destination::File(path.clone()),
                None => Destination::Stdout,
            },
        }
    }

    /// The configuration for a set of options. Options without a regular
    /// expression always give one. With a regular expression the `regex`
    /// crate decides: a pattern that it refuses gives `BadPattern`, one
    /// that it takes gives the configuration.
    pub fn from_opt(opt: &Opt) -> (made: Result<ScanConfig, ScanError>)
        ensures
            opt.regex is None ==> made is Ok,
            made is Err ==> made == Err::<ScanConfig, ScanError>(ScanError::BadPattern),
            made is Ok ==> made->Ok_0@ == config_of(opt@),
    {
        let pattern = match &opt.regex {
            None => None,
            Some(source) => match PathPattern::new(source.as_str(), opt.ignore_case) {
                Ok(pattern) => Some(pattern),
                Err(err) => {
                    return Err(err);
                },
            },
        };
        Ok(ScanConfig::with_pattern(opt, pattern))
    }
}

} // verus!
