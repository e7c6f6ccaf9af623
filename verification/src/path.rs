//! How the path of an entry is shown.

use vstd::prelude::*;
use vstd::string::*;
use crate::text::chars_of;

verus! {

/// A path without its leading `./`, if it has one.
pub open spec fn strip_cur_dir(path: Seq<char>) -> Seq<char> {
    if path.len() >= 2 && path[0] == '.' && path[1] == '/' {
        path.subrange(2, path.len() as int)
    } else {
        path
    }
}

/// A path is absolute when it starts with `/`.
pub open spec fn is_absolute(path: Seq<char>) -> bool {
    path.len() > 0 && path[0] == '/'
}

/// `rel` below `base`: the two are joined by one `/`, which is left out
/// where `base` is empty or already ends with one.
pub open spec fn join_path(base: Seq<char>, rel: Seq<char>) -> Seq<char> {
    if base.len() == 0 || base.last() == '/' {
        base + rel
    } else {
        base + "/"@ + rel
    }
}

/// The part of a relative path that is joined to the working directory:
/// nothing for the directory `.` itself, else the path without its leading
/// `./`.
pub open spec fn below_cur_dir(path: Seq<char>) -> Seq<char> {
    if path == seq!['.'] {
        Seq::empty()
    } else {
        strip_cur_dir(path)
    }
}

/// The path as it is shown. Without `full` it is the path that the walk
/// gave, less a leading `./`. With `full` an absolute path stays as it is,
/// and a relative one is joined to the working directory `cwd`.
pub open spec fn shown_path(full: bool, cwd: Seq<char>, path: Seq<char>) -> Seq<char> {
    if !full {
        strip_cur_dir(path)
    } else if is_absolute(path) {
        path
    } else {
        join_path(cwd, below_cur_dir(path))
    }
}

/// The path as it is shown; see `shown_path`.
pub fn render_path(full: bool, cwd: &str, path: &str) -> (shown: String)
    ensures
        shown@ == shown_path(full, cwd@, path@),
{
    let v = chars_of(path);
    let n = v.len();
    let stripped: &str = if n >= 2 && v[0] == '.' && v[1] == '/' {
        path.substring_char(2, n)
    } else {
        path
    };
    if !full {
        return String::from_str(stripped);
    }
    if n > 0 && v[0] == '/' {
        return String::from_str(path);
    }
    let c = chars_of(cwd);
    let mut shown = String::from_str(cwd);
    if c.len() > 0 && c[c.len() - 1] != '/' {
        shown.append("/");
    }
    if n == 1 && v[0] == '.' {
        assert(path@ =~= seq!['.']);
    } else {
        shown.append(stripped);
    }
    shown
}

} // verus!
