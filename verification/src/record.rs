//! The line of one entry, and the header above the listing.

use vstd::prelude::*;
use vstd::string::*;
use crate::entry::{listed_size, Entry, EntryKind, EntryView};
use crate::error::ScanError;
use crate::style::{kind_color, name_color, painted, push_painted, Color};
use crate::text::chars_of;
use crate::units::{duration_text, push_size, size_text, time_trans, SizeUnit};

verus! {

/// Which of the optional columns are shown. The path column is not among
/// them: it is always shown, and always last.
#[derive(Clone, Copy, Debug, PartialEq, Eq, Structural)]
pub struct Columns {
    /// The kind of the entry.
    pub kind: bool,
    /// Its size.
    pub size: bool,
    /// The time since its creation.
    pub ctime: bool,
    /// Its bare name.
    pub name: bool,
}

/// The word that stands for a kind in the type column.
pub open spec fn kind_token(kind: EntryKind) -> Seq<char> {
    match kind {
        EntryKind::Dir => "dir"@,
        EntryKind::File => "file"@,
        EntryKind::Symlink => "symlink"@,
        EntryKind::Other => "other"@,
    }
}

/// One column of a header or record, if it is shown: its text and the tab
/// that ends it.
pub open spec fn column(shown: bool, text: Seq<char>) -> Seq<char> {
    if shown {
        text + "\t"@
    } else {
        Seq::empty()
    }
}

/// The header: the titles of the shown columns in their fixed order, each
/// followed by a tab, then the title of the path column and a newline.
pub open spec fn header_text(columns: Columns) -> Seq<char> {
    column(columns.kind, "Type"@) + column(columns.size, "Size"@) + column(columns.ctime, "Ctime"@)
        + column(columns.name, "Name"@) + "Path"@ + "\n"@
}

/// The text of the creation-age column; empty for an entry without an age.
pub open spec fn age_text(age: Option<nat>) -> Seq<char> {
    match age {
        Some(seconds) => duration_text(seconds),
        None => Seq::empty(),
    }
}

/// The line of an entry: the shown columns in the order type, size,
/// creation age, name, each followed by a tab, then the shown path and a
/// newline. With `colorize` every field stands between a colour code and the
/// reset code: type and path in the colour of the kind, the name in the
/// colour of its extension, size and age in white.
pub open spec fn record_text(
    columns: Columns,
    unit: SizeUnit,
    colorize: bool,
    e: EntryView,
    shown: Seq<char>,
) -> Seq<char> {
    column(columns.kind, painted(kind_token(e.kind), kind_color(e.kind), colorize)) + column(
        columns.size,
        painted(size_text(listed_size(e), unit), Color::White, colorize),
    ) + column(columns.ctime, painted(age_text(e.age), Color::White, colorize)) + column(
        columns.name,
        painted(e.name, name_color(e.name), colorize),
    ) + painted(shown, kind_color(e.kind), colorize) + "\n"@
}

/// An entry cannot be rendered when the creation-age column is shown and
/// the entry has no age.
pub open spec fn lacks_age(columns: Columns, e: EntryView) -> bool {
    columns.ctime && e.age is None
}

impl EntryKind {
    /// The word that stands for the kind in the type column.
    pub fn token(self) -> (word: &'static str)
        ensures
            word@ == kind_token(self),
    {
        match self {
            EntryKind::Dir => "dir",
            EntryKind::File => "file",
            EntryKind::Symlink => "symlink",
            EntryKind::Other => "other",
        }
    }
}

impl Columns {
    /// All four optional columns.
    pub fn all() -> (columns: Columns)
        ensures
            columns == (Columns { kind: true, size: true, ctime: true, name: true }),
    {
        Columns { kind: true, size: true, ctime: true, name: true }
    }

    /// The path column alone.
    pub fn path_only() -> (columns: Columns)
        ensures
            columns == (Columns { kind: false, size: false, ctime: false, name: false }),
    {
        Columns { kind: false, size: false, ctime: false, name: false }
    }
}

/// Appends one column of the header to `out`, if it is shown.
fn push_title(out: &mut String, shown: bool, title: &str)
    ensures
        final(out)@ == old(out)@ + column(shown, title@),
{
    if shown {
        out.append(title);
        out.append("\t");
    }
}

/// The header line for the given columns.
pub fn render_header(columns: Columns) -> (header: String)
    ensures
        header@ == header_text(columns),
{
    let mut header = String::new();
    push_title(&mut header, columns.kind, "Type");
    push_title(&mut header, columns.size, "Size");
    push_title(&mut header, columns.ctime, "Ctime");
    push_title(&mut header, columns.name, "Name");
    header.append("Path");
    header.append("\n");
    header
}

/// Appends one field of a record and its tab to `out`.
fn push_cell(out: &mut String, text: &str, color: Color, colorize: bool)
    ensures
        final(out)@ == old(out)@ + column(true, painted(text@, color, colorize)),
{
    push_painted(out, text, color, colorize);
    out.append("\t");
}

/// The line of an entry whose path is shown as `shown`; see `record_text`.
/// Fails with `TraversalIo` exactly when the creation-age column is shown
/// and the entry has no age.
pub fn render_record(
    columns: Columns,
    unit: SizeUnit,
    colorize: bool,
    entry: &Entry,
    shown: &str,
) -> (line: Result<String, ScanError>)
    ensures
        line is Err <==> lacks_age(columns, entry@),
        line is Err ==> line == Err::<String, ScanError>(ScanError::TraversalIo),
        line is Ok ==> line->Ok_0@ == record_text(columns, unit, colorize, entry@, shown@),
{
    let mut out = String::new();
    let kind_color = Color::of_kind(entry.kind);
    if columns.kind {
        push_cell(&mut out, entry.kind.token(), kind_color, colorize);
    }
    if columns.size {
        let mut size = String::new();
        push_size(&mut size, entry.listed_size(), unit);
        push_cell(&mut out, size.as_str(), Color::White, colorize);
    }
    if columns.ctime {
        match entry.age {
            None => {
                return Err(ScanError::TraversalIo);
            },
            Some(seconds) => {
                let age = time_trans(seconds);
                push_cell(&mut out, age.as_str(), Color::White, colorize);
            },
        }
    }
    if columns.name {
        let name = chars_of(entry.name.as_str());
        push_cell(&mut out, entry.name.as_str(), Color::of_name(&name), colorize);
    }
    push_painted(&mut out, shown, kind_color, colorize);
    out.append("\n");
    Ok(out)
}

} // verus!
