//! What the order of a walk means, and that listing keeps it.

use vstd::prelude::*;
use crate::config::{Order, ScanConfigView};
use crate::entry::{parent_path, EntryView};
use crate::path::join_path;
use crate::guarantees::lemma_order_carries_over;
use crate::scan::shown_entries;
use crate::text::chars_of;

verus! {

/// Whether `a` comes strictly before `b` when names are compared character
/// by character; a name comes after each of its proper prefixes. For names
/// this is the order of their bytes.
pub open spec fn name_less(a: Seq<char>, b: Seq<char>) -> bool
    decreases a.len(),
{
    if b.len() == 0 {
        false
    } else if a.len() == 0 {
        true
    } else if a[0] != b[0] {
        (a[0] as int) < (b[0] as int)
    } else {
        name_less(a.drop_first(), b.drop_first())
    }
}

/// How one name stands to another in the order of names.
#[derive(Clone, Copy, Debug, PartialEq, Eq, Structural)]
pub enum NameOrder {
    /// The first name comes before the second.
    Before,
    /// The two names are the same.
    Same,
    /// The first name comes after the second.
    After,
}

/// How `a` stands to `b` in the order of names.
pub open spec fn name_order(a: Seq<char>, b: Seq<char>) -> NameOrder {
    if name_less(a, b) {
        NameOrder::Before
    } else if name_less(b, a) {
        NameOrder::After
    } else {
        NameOrder::Same
    }
}

/// No name comes before itself.
pub proof fn lemma_name_order_irreflexive(a: Seq<char>)
    ensures
        !name_less(a, a),
    decreases a.len(),
{
    if a.len() > 0 {
        lemma_name_order_irreflexive(a.drop_first());
    }
}

/// Of two different names one comes before the other, and never both ways.
pub proof fn lemma_name_order_total(a: Seq<char>, b: Seq<char>)
    ensures
        name_less(a, b) || name_less(b, a) || a == b,
        !(name_less(a, b) && name_less(b, a)),
    decreases a.len(),
{
    if a.len() > 0 && b.len() > 0 && a[0] == b[0] {
        lemma_name_order_total(a.drop_first(), b.drop_first());
        if a.drop_first() == b.drop_first() {
            assert(b =~= seq![b[0]] + b.drop_first());
        }
    }
}

/// The order of names is transitive.
pub proof fn lemma_name_order_transitive(a: Seq<char>, b: Seq<char>, c: Seq<char>)
    requires
        name_less(a, b),
        name_less(b, c),
    ensures
        name_less(a, c),
    decreases a.len(),
{
    if a.len() > 0 && a[0] == b[0] && b[0] == c[0] {
        lemma_name_order_transitive(a.drop_first(), b.drop_first(), c.drop_first());
    }
}

/// Compares two names character by character.
pub fn compare_names(a: &str, b: &str) -> (order: NameOrder)
    ensures
        order == name_order(a@, b@),
{
    let x = chars_of(a);
    let y = chars_of(b);
    let mut i: usize = 0;
    assert(x@.skip(0) =~= x@ && y@.skip(0) =~= y@);
    while i < x.len() && i < y.len()
        invariant
            x@ == a@,
            y@ == b@,
            i <= x.len(),
            i <= y.len(),
            name_order(a@, b@) == name_order(x@.skip(i as int), y@.skip(i as int)),
        decreases x.len() - i,
    {
        let ghost s = x@.skip(i as int);
        let ghost t = y@.skip(i as int);
        if x[i] != y[i] {
            return if x[i] < y[i] {
                NameOrder::Before
            } else {
                NameOrder::After
            };
        }
        assert(s.drop_first() =~= x@.skip(i as int + 1));
        assert(t.drop_first() =~= y@.skip(i as int + 1));
        i += 1;
    }
    if i < y.len() {
        NameOrder::Before
    } else if i < x.len() {
        NameOrder::After
    } else {
        NameOrder::Same
    }
}

/// Two entries are siblings when they lie in the same directory.
pub open spec fn siblings(a: EntryView, b: EntryView) -> bool {
    a.depth == b.depth && parent_path(a.path) == parent_path(b.path)
}

/// Whether `e` lies below the directory `dir`, at any depth.
pub open spec fn lies_below(e: EntryView, dir: EntryView) -> bool {
    let prefix = join_path(dir.path, Seq::empty());
    prefix.len() < e.path.len() && prefix.is_prefix_of(e.path)
}

/// Whether the first of two entries may come before the second in a walk
/// that sorts by name: always, unless they are siblings whose names are not
/// ascending.
pub open spec fn names_ascend(first: EntryView, second: EntryView) -> bool {
    siblings(first, second) ==> name_less(first.name, second.name)
}

/// Whether the first of two entries may come before the second in a walk
/// of the given order. Breadth first, nothing comes before a directory that
/// it lies below; depth first, nothing comes after one.
pub open spec fn keeps_order(order: Order, first: EntryView, second: EntryView) -> bool {
    match order {
        Order::BreadthFirst => !lies_below(first, second),
        Order::DepthFirst => !lies_below(second, first),
    }
}

/// A sequence of entries in which siblings come in strictly ascending order
/// of name.
pub open spec fn sorted_by_name(entries: Seq<EntryView>) -> bool {
    forall|i: int, j: int| 0 <= i < j < entries.len() ==> names_ascend(entries[i], entries[j])
}

/// A sequence of entries in which every directory stands on the side of
/// its contents that the order asks for.
pub open spec fn in_walk_order(order: Order, entries: Seq<EntryView>) -> bool {
    forall|i: int, j: int| 0 <= i < j < entries.len() ==> keeps_order(order, entries[i], entries[j])
}

/// If the siblings of a walk come in strictly ascending order of name, so
/// do the listed siblings.
pub proof fn lemma_listing_sorted_by_name(
    config: ScanConfigView,
    cwd: Seq<char>,
    entries: Seq<EntryView>,
)
    requires
        sorted_by_name(entries),
    ensures
        sorted_by_name(shown_entries(config, cwd, entries)),
{
    lemma_order_carries_over(
        config,
        cwd,
        entries,
        |first: EntryView, second: EntryView| names_ascend(first, second),
    );
}

/// If a walk lists every directory before what lies below it, the listing
/// does; if after, the listing does that.
pub proof fn lemma_listing_in_walk_order(
    config: ScanConfigView,
    cwd: Seq<char>,
    entries: Seq<EntryView>,
)
    requires
        in_walk_order(config.order, entries),
    ensures
        in_walk_order(config.order, shown_entries(config, cwd, entries)),
{
    lemma_order_carries_over(
        config,
        cwd,
        entries,
        |first: EntryView, second: EntryView| keeps_order(config.order, first, second),
    );
}

} // verus!
