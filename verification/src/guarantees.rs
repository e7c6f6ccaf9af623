//! What holds of every listing, whatever the walk and the options.

use vstd::prelude::*;
use crate::config::{passes_over, ScanConfigView};
use crate::entry::{has_hidden_component, is_hidden_name, listed_size, parent_path, EntryView};
use crate::filter::{
    all_off, extension_passes, kind_passes, max_size_passes, min_size_passes, passes,
    pattern_passes, FiltersView,
};
use crate::record::lacks_age;
use crate::scan::{emitted, in_reach, lemma_records_push, shown_entries};

verus! {

/// No listed entry lies deeper than the depth limit.
pub proof fn lemma_listed_within_depth(
    config: ScanConfigView,
    cwd: Seq<char>,
    entries: Seq<EntryView>,
    k: int,
)
    requires
        0 <= k < shown_entries(config, cwd, entries).len(),
    ensures
        shown_entries(config, cwd, entries)[k].depth <= config.max_depth,
{
    entries.lemma_filter_pred(|e: EntryView| emitted(config, cwd, e), k);
}

/// No depth limit excludes the root: an entry at depth 0 is in reach
/// whenever its own name is not hidden, or hidden entries are asked for.
pub proof fn lemma_root_in_reach(config: ScanConfigView, e: EntryView)
    requires
        e.depth == 0,
    ensures
        in_reach(config, e) <==> config.show_hidden || !is_hidden_name(e.name),
{
}

/// An entry whose name a run passes over is not in reach of it.
pub proof fn lemma_passed_over_out_of_reach(config: ScanConfigView, e: EntryView)
    requires
        passes_over(config, e.name),
    ensures
        !in_reach(config, e),
{
}

/// Unless hidden entries are asked for, no listed entry is hidden: neither
/// its name nor the name of any directory above it is a hidden name.
pub proof fn lemma_listed_not_hidden(
    config: ScanConfigView,
    cwd: Seq<char>,
    entries: Seq<EntryView>,
    k: int,
)
    requires
        !config.show_hidden,
        0 <= k < shown_entries(config, cwd, entries).len(),
    ensures
        !is_hidden_name(shown_entries(config, cwd, entries)[k].name),
        !has_hidden_component(
            parent_path(shown_entries(config, cwd, entries)[k].path),
            shown_entries(config, cwd, entries)[k].depth,
        ),
{
    entries.lemma_filter_pred(|e: EntryView| emitted(config, cwd, e), k);
}

/// The filter chain is a conjunction: an entry passes exactly when it
/// passes each filter by itself, and a filter that is switched off rejects
/// nothing.
pub proof fn lemma_filters_conjoin(filters: FiltersView, e: EntryView, shown: Seq<char>)
    ensures
        passes(filters, e, shown) <==> kind_passes(filters.kind, e.kind) && extension_passes(
            filters.extension,
            e.name,
        ) && min_size_passes(filters.min_size, listed_size(e)) && max_size_passes(
            filters.max_size,
            listed_size(e),
        ) && pattern_passes(filters.path_regex, shown),
        filters.kind is None ==> kind_passes(filters.kind, e.kind),
        filters.extension is None ==> extension_passes(filters.extension, e.name),
        filters.min_size is None ==> min_size_passes(filters.min_size, listed_size(e)),
        filters.max_size is None ==> max_size_passes(filters.max_size, listed_size(e)),
        filters.path_regex is None ==> pattern_passes(filters.path_regex, shown),
{
}

/// With every filter switched off, each entry in reach whose line can be
/// rendered is listed, and nothing else is.
pub proof fn lemma_no_filter_lists_all(config: ScanConfigView, cwd: Seq<char>, e: EntryView)
    requires
        all_off(config.filters),
    ensures
        emitted(config, cwd, e) <==> in_reach(config, e) && !lacks_age(config.columns, e),
{
}

/// Every listed entry is one of the entries that came in.
pub proof fn lemma_listed_came_in(
    config: ScanConfigView,
    cwd: Seq<char>,
    entries: Seq<EntryView>,
    k: int,
)
    requires
        0 <= k < shown_entries(config, cwd, entries).len(),
    ensures
        exists|i: int|
            0 <= i < entries.len() && #[trigger] entries[i] == shown_entries(
                config,
                cwd,
                entries,
            )[k],
    decreases entries.len(),
{
    if entries.len() == 0 {
        reveal(Seq::filter);
    } else {
        let init = entries.drop_last();
        let last = entries.last();
        assert(init.push(last) =~= entries);
        lemma_records_push(config, cwd, init, last);
        if k < shown_entries(config, cwd, init).len() {
            lemma_listed_came_in(config, cwd, init, k);
            let i = choose|i: int|
                0 <= i < init.len() && #[trigger] init[i] == shown_entries(config, cwd, init)[k];
            assert(entries[i] == init[i]);
        } else {
            assert(entries[entries.len() - 1] == last);
        }
    }
}

/// Listing keeps the order of the walk: of two listed entries, the one
/// listed first also came in first.
pub proof fn lemma_listed_in_order(
    config: ScanConfigView,
    cwd: Seq<char>,
    entries: Seq<EntryView>,
    a: int,
    b: int,
)
    requires
        0 <= a < b < shown_entries(config, cwd, entries).len(),
    ensures
        exists|i: int, j: int|
            0 <= i < j < entries.len() && #[trigger] entries[i] == shown_entries(
                config,
                cwd,
                entries,
            )[a] && #[trigger] entries[j] == shown_entries(config, cwd, entries)[b],
    decreases entries.len(),
{
    if entries.len() == 0 {
        reveal(Seq::filter);
    } else {
        let init = entries.drop_last();
        let last = entries.last();
        assert(init.push(last) =~= entries);
        lemma_records_push(config, cwd, init, last);
        let listed = shown_entries(config, cwd, init);
        if b < listed.len() {
            lemma_listed_in_order(config, cwd, init, a, b);
            let (i, j) = choose|i: int, j: int|
                0 <= i < j < init.len() && #[trigger] init[i] == listed[a] && #[trigger] init[j]
                    == listed[b];
            assert(entries[i] == init[i] && entries[j] == init[j]);
        } else {
            lemma_listed_came_in(config, cwd, init, a);
            let i = choose|i: int| 0 <= i < init.len() && #[trigger] init[i] == listed[a];
            assert(entries[i] == init[i] && entries[entries.len() - 1] == last);
        }
    }
}

/// Whatever order holds between each entry of the walk and every later one
/// (names ascending among the entries of one directory, a directory before
/// what lies below it, or after it) holds between the listed entries too.
pub proof fn lemma_order_carries_over(
    config: ScanConfigView,
    cwd: Seq<char>,
    entries: Seq<EntryView>,
    before: spec_fn(EntryView, EntryView) -> bool,
)
    requires
        forall|i: int, j: int| 0 <= i < j < entries.len() ==> before(entries[i], entries[j]),
    ensures
        forall|a: int, b: int|
            0 <= a < b < shown_entries(config, cwd, entries).len() ==> before(
                #[trigger] shown_entries(config, cwd, entries)[a],
                #[trigger] shown_entries(config, cwd, entries)[b],
            ),
{
    let listed = shown_entries(config, cwd, entries);
    assert forall|a: int, b: int| 0 <= a < b < listed.len() implies before(
        #[trigger] listed[a],
        #[trigger] listed[b],
    ) by {
        lemma_listed_in_order(config, cwd, entries, a, b);
        let (i, j) = choose|i: int, j: int|
            0 <= i < j < entries.len() && #[trigger] entries[i] == listed[a]
                && #[trigger] entries[j] == listed[b];
        assert(before(entries[i], entries[j]));
    }
}

} // verus!
