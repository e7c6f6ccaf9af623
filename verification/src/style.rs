//! Colours: which one a field gets, and how it is written for a terminal.

use vstd::prelude::*;
use vstd::string::*;
use crate::entry::{extension, EntryKind};
use crate::text::{find_last, tail_is};

verus! {

/// A foreground colour of the terminal.
#[derive(Clone, Copy, Debug, PartialEq, Eq, Structural)]
pub enum Color {
    Red,
    Green,
    Yellow,
    Blue,
    Magenta,
    Cyan,
    White,
}

/// The escape sequence that switches a colour on.
pub open spec fn color_code(color: Color) -> Seq<char> {
    match color {
        Color::Red => "\x1b[31m"@,
        Color::Green => "\x1b[32m"@,
        Color::Yellow => "\x1b[33m"@,
        Color::Blue => "\x1b[34m"@,
        Color::Magenta => "\x1b[35m"@,
        Color::Cyan => "\x1b[36m"@,
        Color::White => "\x1b[37m"@,
    }
}

/// The escape sequence that switches all colours off.
pub open spec fn reset_code() -> Seq<char> {
    "\x1b[0m"@
}

/// A field as it is written: with `colorize`, between the code of its
/// colour and the reset code; without, bare.
pub open spec fn painted(text: Seq<char>, color: Color, colorize: bool) -> Seq<char> {
    if colorize {
        color_code(color) + text + reset_code()
    } else {
        text
    }
}

/// The colour of an entry's kind: directories blue, symbolic links cyan,
/// regular files white, everything else red.
pub open spec fn kind_color(kind: EntryKind) -> Color {
    match kind {
        EntryKind::Dir => Color::Blue,
        EntryKind::Symlink => Color::Cyan,
        EntryKind::File => Color::White,
        EntryKind::Other => Color::Red,
    }
}

/// Extensions of archives and compressed files.
pub open spec fn is_archive(ext: Seq<char>) -> bool {
    ext == "gz"@ || ext == "bz2"@ || ext == "zip"@ || ext == "tar"@ || ext == "xz"@ || ext
        == "lz4"@ || ext == "zst"@
}

/// Extensions of images.
pub open spec fn is_image(ext: Seq<char>) -> bool {
    ext == "png"@ || ext == "jpeg"@ || ext == "jpg"@ || ext == "svg"@ || ext == "tiff"@ || ext
        == "bmp"@
}

/// Extensions of documents and structured data.
pub open spec fn is_document(ext: Seq<char>) -> bool {
    ext == "pdf"@ || ext == "html"@ || ext == "xml"@ || ext == "json"@ || ext == "tsv"@ || ext
        == "csv"@ || ext == "xlsx"@
}

/// Extensions of plain text and configuration files.
pub open spec fn is_plain_text(ext: Seq<char>) -> bool {
    ext == "log"@ || ext == "txt"@ || ext == "md"@ || ext == "yaml"@ || ext == "yml"@ || ext
        == "toml"@ || ext == "ini"@
}

/// Extensions of source code.
pub open spec fn is_source_code(ext: Seq<char>) -> bool {
    ext == "rs"@ || ext == "go"@ || ext == "py"@ || ext == "pl"@ || ext == "java"@ || ext == "js"@
        || ext == "ts"@ || ext == "c"@ || ext == "cpp"@ || ext == "sh"@ || ext == "bash"@ || ext
        == "zsh"@ || ext == "fish"@ || ext == "r"@
}

/// The colour of a name, chosen by its extension: archives red, images
/// magenta, documents yellow, plain text cyan, source code green, and white
/// for every other name.
pub open spec fn name_color(name: Seq<char>) -> Color {
    match extension(name) {
        None => Color::White,
        Some(ext) => if is_archive(ext) {
            Color::Red
        } else if is_image(ext) {
            Color::Magenta
        } else if is_document(ext) {
            Color::Yellow
        } else if is_plain_text(ext) {
            Color::Cyan
        } else if is_source_code(ext) {
            Color::Green
        } else {
            Color::White
        },
    }
}

impl Color {
    /// The escape sequence that switches the colour on.
    pub fn code(self) -> (code: &'static str)
        ensures
            code@ == color_code(self),
    {
        match self {
            Color::Red => "\x1b[31m",
            Color::Green => "\x1b[32m",
            Color::Yellow => "\x1b[33m",
            Color::Blue => "\x1b[34m",
            Color::Magenta => "\x1b[35m",
            Color::Cyan => "\x1b[36m",
            Color::White => "\x1b[37m",
        }
    }

    /// The colour of an entry's kind.
    pub fn of_kind(kind: EntryKind) -> (color: Color)
        ensures
            color == kind_color(kind),
    {
        match kind {
            EntryKind::Dir => Color::Blue,
            EntryKind::Symlink => Color::Cyan,
            EntryKind::File => Color::White,
            EntryKind::Other => Color::Red,
        }
    }

    /// The colour of a name, given as its characters.
    pub fn of_name(name: &Vec<char>) -> (color: Color)
        ensures
            color == name_color(name@),
    {
        assert(name@.take(name.len() as int) =~= name@);
        let at: usize = match find_last(name, name.len(), '.') {
            None => {
                return Color::White;
            },
            Some(dot) => dot + 1,
        };
        if tail_is(name, at, "gz") || tail_is(name, at, "bz2") || tail_is(name, at, "zip")
            || tail_is(name, at, "tar") || tail_is(name, at, "xz") || tail_is(name, at, "lz4")
            || tail_is(name, at, "zst") {
            Color::Red
        } else if tail_is(name, at, "png") || tail_is(name, at, "jpeg") || tail_is(name, at, "jpg")
            || tail_is(name, at, "svg") || tail_is(name, at, "tiff") || tail_is(name, at, "bmp") {
            Color::Magenta
        } else if tail_is(name, at, "pdf") || tail_is(name, at, "html") || tail_is(name, at, "xml")
            || tail_is(name, at, "json") || tail_is(name, at, "tsv") || tail_is(name, at, "csv")
            || tail_is(name, at, "xlsx") {
            Color::Yellow
        } else if tail_is(name, at, "log") || tail_is(name, at, "txt") || tail_is(name, at, "md")
            || tail_is(name, at, "yaml") || tail_is(name, at, "yml") || tail_is(name, at, "toml")
            || tail_is(name, at, "ini") {
            Color::Cyan
        } else if tail_is(name, at, "rs") || tail_is(name, at, "go") || tail_is(name, at, "py")
            || tail_is(name, at, "pl") || tail_is(name, at, "java") || tail_is(name, at, "js")
            || tail_is(name, at, "ts") || tail_is(name, at, "c") || tail_is(name, at, "cpp")
            || tail_is(name, at, "sh") || tail_is(name, at, "bash") || tail_is(name, at, "zsh")
            || tail_is(name, at, "fish") || tail_is(name, at, "r") {
            Color::Green
        } else {
            Color::White
        }
    }
}

/// Appends a field to `out` as it is written; see `painted`.
pub fn push_painted(out: &mut String, text: &str, color: Color, colorize: bool)
    ensures
        final(out)@ == old(out)@ + painted(text@, color, colorize),
{
    if colorize {
        out.append(color.code());
        out.append(text);
        out.append("\x1b[0m");
    } else {
        out.append(text);
    }
}

} // verus!
