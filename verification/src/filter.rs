//! The filter chain: independent tests, each of which may be switched off;
//! an entry is kept when it passes all that are switched on.

use vstd::prelude::*;
use vstd::string::*;
use crate::entry::{extension, listed_size, Entry, EntryKind, EntryView};
use crate::pattern::PathPattern;
use crate::text::{chars_of, find_last, str_eq, tail_is};

verus! {

/// The one kind of entry that a type filter keeps.
#[derive(Clone, Copy, Debug, PartialEq, Eq, Structural)]
pub enum TypeFilter {
    /// Regular files only.
    File,
    /// Directories only.
    Dir,
    /// Symbolic links only.
    Symlink,
}

/// The filter that a word selects: `f`, `d` or `l`; any other word selects
/// none.
pub open spec fn type_filter_of(word: Seq<char>) -> Option<TypeFilter> {
    if word == "d"@ {
        Some(TypeFilter::Dir)
    } else if word == "f"@ {
        Some(TypeFilter::File)
    } else if word == "l"@ {
        Some(TypeFilter::Symlink)
    } else {
        None
    }
}

impl TypeFilter {
    /// Reads the filter from a word.
    pub fn parse(word: &str) -> (filter: Option<TypeFilter>)
        ensures
            filter == type_filter_of(word@),
    {
        if str_eq(word, "d") {
            Some(TypeFilter::Dir)
        } else if str_eq(word, "f") {
            Some(TypeFilter::File)
        } else if str_eq(word, "l") {
            Some(TypeFilter::Symlink)
        } else {
            None
        }
    }
}

/// The filters of one run; an absent one is switched off.
pub struct Filters {
    /// Keep one kind of entry only.
    pub kind: Option<TypeFilter>,
    /// Keep only names with this extension.
    pub extension: Option<String>,
    /// Keep only entries whose shown path matches.
    pub path_regex: Option<PathPattern>,
    /// Keep only entries of at least this many bytes.
    pub min_size: Option<u64>,
    /// Keep only entries of at most this many bytes.
    pub max_size: Option<u64>,
}

/// The mathematical content of `Filters`.
pub struct FiltersView {
    pub kind: Option<TypeFilter>,
    pub extension: Option<Seq<char>>,
    pub path_regex: Option<PathPattern>,
    pub min_size: Option<nat>,
    pub max_size: Option<nat>,
}

impl View for Filters {
    type V = FiltersView;

    open spec fn view(&self) -> FiltersView {
        FiltersView {
            kind: self.kind,
            extension: match self.extension {
                Some(e) => Some(e@),
                None => None,
            },
            path_regex: self.path_regex,
            min_size: match self.min_size {
                Some(n) => Some(n as nat),
                None => None,
            },
            max_size: match self.max_size {
                Some(n) => Some(n as nat),
                None => None,
            },
        }
    }
}

/// The type filter: an entry passes when it is of the wanted kind. An entry
/// that is neither file, directory nor link passes no type filter.
pub open spec fn kind_passes(want: Option<TypeFilter>, kind: EntryKind) -> bool {
    match want {
        None => true,
        Some(TypeFilter::File) => kind == EntryKind::File,
        Some(TypeFilter::Dir) => kind == EntryKind::Dir,
        Some(TypeFilter::Symlink) => kind == EntryKind::Symlink,
    }
}

/// The extension filter: a name passes when it has an extension and that
/// extension is the wanted one, character for character.
pub open spec fn extension_passes(want: Option<Seq<char>>, name: Seq<char>) -> bool {
    match want {
        None => true,
        Some(ext) => extension(name) == Some(ext),
    }
}

/// The lower size bound.
pub open spec fn min_size_passes(min: Option<nat>, size: nat) -> bool {
    match min {
        None => true,
        Some(bound) => size >= bound,
    }
}

/// The upper size bound.
pub open spec fn max_size_passes(max: Option<nat>, size: nat) -> bool {
    match max {
        None => true,
        Some(bound) => size <= bound,
    }
}

/// The path filter: the shown path passes when the pattern matches
/// somewhere in it.
pub open spec fn pattern_passes(want: Option<PathPattern>, shown: Seq<char>) -> bool {
    match want {
        None => true,
        Some(pattern) => pattern.matches(shown),
    }
}

/// The whole chain: an entry, with the path as it is shown, passes when it
/// passes each of the five filters.
pub open spec fn passes(filters: FiltersView, e: EntryView, shown: Seq<char>) -> bool {
    &&& kind_passes(filters.kind, e.kind)
    &&& extension_passes(filters.extension, e.name)
    &&& min_size_passes(filters.min_size, listed_size(e))
    &&& max_size_passes(filters.max_size, listed_size(e))
    &&& pattern_passes(filters.path_regex, shown)
}

/// Whether no filter is switched on.
pub open spec fn all_off(filters: FiltersView) -> bool {
    &&& filters.kind is None
    &&& filters.extension is None
    &&& filters.min_size is None
    &&& filters.max_size is None
    &&& filters.path_regex is None
}

impl Filters {
    /// Filters that keep everything.
    pub fn none() -> (filters: Filters)
        ensures
            all_off(filters@),
    {
        Filters { kind: None, extension: None, path_regex: None, min_size: None, max_size: None }
    }

    /// Whether the entry passes the type filter.
    pub fn kind_passes(&self, kind: EntryKind) -> (kept: bool)
        ensures
            kept == kind_passes(self@.kind, kind),
    {
        match self.kind {
            None => true,
            Some(TypeFilter::File) => kind == EntryKind::File,
            Some(TypeFilter::Dir) => kind == EntryKind::Dir,
            Some(TypeFilter::Symlink) => kind == EntryKind::Symlink,
        }
    }

    /// Whether a name, given as its characters, passes the extension
    /// filter.
    pub fn extension_passes(&self, name: &Vec<char>) -> (kept: bool)
        ensures
            kept == extension_passes(self@.extension, name@),
    {
        match &self.extension {
            None => true,
            Some(want) => {
                assert(name@.take(name.len() as int) =~= name@);
                match find_last(name, name.len(), '.') {
                    None => false,
                    Some(dot) => tail_is(name, dot + 1, want.as_str()),
                }
            },
        }
    }

    /// Whether a size passes both size bounds.
    pub fn size_passes(&self, size: u64) -> (kept: bool)
        ensures
            kept == (min_size_passes(self@.min_size, size as nat) && max_size_passes(
                self@.max_size,
                size as nat,
            )),
    {
        let above = match self.min_size {
            None => true,
            Some(bound) => size >= bound,
        };
        let below = match self.max_size {
            None => true,
            Some(bound) => size <= bound,
        };
        above && below
    }

    /// Whether the shown path passes the path filter.
    pub fn pattern_passes(&self, shown: &str) -> (kept: bool)
        ensures
            kept == pattern_passes(self@.path_regex, shown@),
    {
        match &self.path_regex {
            None => true,
            Some(pattern) => pattern.is_match(shown),
        }
    }

    /// Whether an entry passes the whole chain, where `matched` is the
    /// answer of the path filter: the entry passes when it passes the filters
    /// on kind, extension and size, and `matched` holds.
    pub fn passes_given(&self, entry: &Entry, matched: bool) -> (kept: bool)
        ensures
            kept == (kind_passes(self@.kind, entry@.kind) && extension_passes(
                self@.extension,
                entry@.name,
            ) && min_size_passes(self@.min_size, listed_size(entry@)) && max_size_passes(
                self@.max_size,
                listed_size(entry@),
            ) && matched),
    {
        let name = chars_of(entry.name.as_str());
        self.kind_passes(entry.kind) && self.extension_passes(&name) && self.size_passes(
            entry.listed_size(),
        ) && matched
    }

    /// Whether an entry passes the whole chain; `shown` is its path as it is
    /// shown.
    pub fn passes(&self, entry: &Entry, shown: &str) -> (kept: bool)
        ensures
            kept == passes(self@, entry@, shown@),
    {
        let matched = self.pattern_passes(shown);
        self.passes_given(entry, matched)
    }
}

} // verus!
