//! One node of the directory tree, as the walk reports it, and the rule
//! that decides which nodes are hidden.

use vstd::prelude::*;
use vstd::string::*;
use crate::text::{chars_of, find_last, last_index_of};

verus! {

/// What kind of node an entry is.
#[derive(Clone, Copy, Debug, PartialEq, Eq, Structural)]
pub enum EntryKind {
    /// A regular file.
    File,
    /// A directory.
    Dir,
    /// A symbolic link that was not followed.
    Symlink,
    /// Anything else: a socket, a device, a pipe.
    Other,
}

/// One node visited by the walk.
#[derive(Clone, Debug)]
pub struct Entry {
    /// The final component of the path.
    pub name: String,
    /// The path as the walk gives it: the root as it was written, followed
    /// by one component for each level below it.
    pub path: String,
    /// The kind of node.
    pub kind: EntryKind,
    /// The size in bytes that the file system reports.
    pub size: u64,
    /// Whole seconds since the node was created, where the platform records
    /// creation times.
    pub age: Option<u64>,
    /// The number of levels below the root; the root itself is at depth 0.
    pub depth: usize,
}

/// The mathematical content of an `Entry`.
pub struct EntryView {
    pub name: Seq<char>,
    pub path: Seq<char>,
    pub kind: EntryKind,
    pub size: nat,
    pub age: Option<nat>,
    pub depth: nat,
}

impl View for Entry {
    type V = EntryView;

    open spec fn view(&self) -> EntryView {
        EntryView {
            name: self.name@,
            path: self.path@,
            kind: self.kind,
            size: self.size as nat,
            age: match self.age {
                Some(a) => Some(a as nat),
                None => None,
            },
            depth: self.depth as nat,
        }
    }
}

/// The size that the listing works with: a directory counts as empty.
pub open spec fn listed_size(e: EntryView) -> nat {
    if e.kind == EntryKind::Dir {
        0
    } else {
        e.size
    }
}

/// The extension of a name: what follows its last dot. A name without a dot
/// has none.
pub open spec fn extension(name: Seq<char>) -> Option<Seq<char>> {
    if last_index_of(name, '.') < 0 {
        None
    } else {
        Some(name.skip(last_index_of(name, '.') + 1))
    }
}

/// A name is hidden when it starts with a dot and is neither `.` nor `..`.
pub open spec fn is_hidden_name(name: Seq<char>) -> bool {
    name.len() > 0 && name[0] == '.' && name != seq!['.'] && name != seq!['.', '.']
}

/// The part of a path after its last `/`; the whole path when it has none.
pub open spec fn last_component(path: Seq<char>) -> Seq<char> {
    path.subrange(last_index_of(path, '/') + 1, path.len() as int)
}

/// The part of a path before its last `/`; empty when it has none.
pub open spec fn parent_path(path: Seq<char>) -> Seq<char> {
    if last_index_of(path, '/') < 0 {
        Seq::empty()
    } else {
        path.subrange(0, last_index_of(path, '/'))
    }
}

/// Whether one of the last `levels` components of `path` is a hidden name.
pub open spec fn has_hidden_component(path: Seq<char>, levels: nat) -> bool
    decreases levels,
{
    if levels == 0 {
        false
    } else {
        is_hidden_name(last_component(path)) || (last_index_of(path, '/') >= 0
            && has_hidden_component(parent_path(path), (levels - 1) as nat))
    }
}

/// An entry is hidden when its own name is hidden, or the name of a
/// directory above it, up to and including the root of the walk.
pub open spec fn is_hidden_entry(e: EntryView) -> bool {
    is_hidden_name(e.name) || has_hidden_component(parent_path(e.path), e.depth)
}

/// Whether the characters of `v` from `start` up to `end` form a hidden name.
fn hidden_range(v: &Vec<char>, start: usize, end: usize) -> (hidden: bool)
    requires
        start <= end <= v.len(),
    ensures
        hidden == is_hidden_name(v@.subrange(start as int, end as int)),
{
    let ghost name = v@.subrange(start as int, end as int);
    if end - start == 0 {
        return false;
    }
    if v[start] != '.' {
        return false;
    }
    if end - start == 1 {
        assert(name =~= seq!['.']);
        return false;
    }
    if end - start == 2 && v[start + 1] == '.' {
        assert(name =~= seq!['.', '.']);
        return false;
    }
    assert(seq!['.'].len() == 1);
    true
}

/// Whether a name is hidden: it starts with a dot and is neither `.` nor
/// `..`.
pub fn is_hidden(name: &str) -> (hidden: bool)
    ensures
        hidden == is_hidden_name(name@),
{
    let v = chars_of(name);
    assert(v@.subrange(0, v@.len() as int) =~= v@);
    hidden_range(&v, 0, v.len())
}

impl Entry {
    /// The size that the listing works with: a directory counts as empty.
    pub fn listed_size(&self) -> (size: u64)
        ensures
            size == listed_size(self@),
    {
        match self.kind {
            EntryKind::Dir => 0,
            _ => self.size,
        }
    }

    /// Whether the entry is hidden: by its own name, or by the name of a
    /// directory above it, up to and including the root of the walk.
    pub fn is_hidden(&self) -> (hidden: bool)
        ensures
            hidden == is_hidden_entry(self@),
    {
        if is_hidden(self.name.as_str()) {
            return true;
        }
        let v = chars_of(self.path.as_str());
        let ghost path = v@;
        let mut end: usize = match find_last(&v, v.len(), '/') {
            Some(i) => i,
            None => 0,
        };
        assert(v@.take(v.len() as int) =~= v@);
        let mut levels: usize = self.depth;
        while levels > 0
            invariant
                end <= v.len(),
                path == self@.path,
                !is_hidden_name(self@.name),
                has_hidden_component(parent_path(path), self.depth as nat) == has_hidden_component(
                    v@.take(end as int),
                    levels as nat,
                ),
            decreases levels,
        {
            let ghost cur = v@.take(end as int);
            let slash = find_last(&v, end, '/');
            let start: usize = match slash {
                Some(i) => i + 1,
                None => 0,
            };
            assert(v@.subrange(start as int, end as int) =~= last_component(cur));
            if hidden_range(&v, start, end) {
                return true;
            }
            match slash {
                Some(i) => {
                    assert(v@.take(i as int) =~= parent_path(cur));
                    end = i;
                    levels -= 1;
                },
                None => {
                    return false;
                },
            }
        }
        false
    }
}

} // verus!
