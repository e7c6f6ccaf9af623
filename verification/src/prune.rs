//! Why a walk may leave out what lies below a hidden directory: the run
//! would pass over all of it anyway.

use vstd::prelude::*;
use crate::config::{passes_over, ScanConfigView};
use crate::entry::{
    has_hidden_component, is_hidden_entry, is_hidden_name, last_component, parent_path, EntryView,
};
use crate::scan::in_reach;
use crate::text::last_index_of;

verus! {

/// The number of `/` in a text.
pub open spec fn slashes(s: Seq<char>) -> nat
    decreases s.len(),
{
    if s.len() == 0 {
        0
    } else if s.last() == '/' {
        slashes(s.drop_last()) + 1
    } else {
        slashes(s.drop_last())
    }
}

/// The last `/` of a text that holds one is counted once, the others lie
/// before it; a text without any has no last one.
proof fn lemma_slashes_before_last(s: Seq<char>)
    ensures
        last_index_of(s, '/') < 0 <==> slashes(s) == 0,
        last_index_of(s, '/') >= 0 ==> slashes(s) == slashes(s.take(last_index_of(s, '/'))) + 1,
        -1 <= last_index_of(s, '/') < s.len(),
    decreases s.len(),
{
    if s.len() > 0 && s.last() != '/' {
        lemma_slashes_before_last(s.drop_last());
        let at = last_index_of(s.drop_last(), '/');
        if at >= 0 {
            assert(s.take(at) =~= s.drop_last().take(at));
        }
    }
}

/// The last `/` of `a + b` is the last one of `b`, if `b` holds one, and
/// else the last one of `a`.
proof fn lemma_last_index_of_concat(a: Seq<char>, b: Seq<char>)
    ensures
        last_index_of(a + b, '/') == if last_index_of(b, '/') >= 0 {
            a.len() + last_index_of(b, '/')
        } else {
            last_index_of(a, '/')
        },
    decreases b.len(),
{
    if b.len() > 0 {
        assert((a + b).drop_last() =~= a + b.drop_last());
        if b.last() != '/' {
            lemma_last_index_of_concat(a, b.drop_last());
        }
    }
}

/// A path that goes on below a directory of a hidden name has a hidden
/// component above its last one, however many components it goes on for,
/// as long as that many levels are looked at.
pub proof fn lemma_hidden_above(dir: Seq<char>, rest: Seq<char>, levels: nat)
    requires
        is_hidden_name(last_component(dir)),
        levels > slashes(rest),
    ensures
        has_hidden_component(parent_path(dir + seq!['/'] + rest), levels),
    decreases rest.len(),
{
    let head = dir + seq!['/'];
    let path = head + rest;
    lemma_slashes_before_last(rest);
    lemma_last_index_of_concat(head, rest);
    assert(last_index_of(head, '/') == dir.len());
    let at = last_index_of(rest, '/');
    if at < 0 {
        assert(parent_path(path) =~= dir);
    } else {
        let shorter = rest.take(at);
        let above = head + shorter;
        assert(parent_path(path) =~= above);
        lemma_hidden_above(dir, shorter, (levels - 1) as nat);
        lemma_last_index_of_concat(head, shorter);
        lemma_slashes_before_last(shorter);
    }
}

/// What lies below a directory whose name a run passes over is out of
/// reach of the run: an entry whose path goes on below the directory's path
/// by `rest`, and whose depth counts at least the components of `rest`.
pub proof fn lemma_below_passed_over(
    config: ScanConfigView,
    dir: Seq<char>,
    rest: Seq<char>,
    e: EntryView,
)
    requires
        passes_over(config, last_component(dir)),
        e.path == dir + seq!['/'] + rest,
        e.depth > slashes(rest),
    ensures
        is_hidden_entry(e),
        !in_reach(config, e),
{
    lemma_hidden_above(dir, rest, e.depth);
}

} // verus!
