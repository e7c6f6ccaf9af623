//! The pipeline: entries come in, in the order of the walk; each is tested,
//! rendered and counted; text for the sink comes out.

use vstd::prelude::*;
use vstd::string::*;
use crate::align::{tab_align, tab_aligned};
use crate::cli::{number_view, text_view, Opt, OptView};
use crate::config::{colorized, config_of, ScanConfig, ScanConfigView};
use crate::entry::{is_hidden_entry, Entry, EntryView};
use crate::error::ScanError;
use crate::filter::passes;
use crate::path::{render_path, shown_path};
use crate::record::{header_text, lacks_age, record_text, render_header, render_record};
use crate::text::{decimal, push_decimal};

verus! {

/// An entry is in reach of a run when it lies no deeper than the depth
/// limit and is not hidden, unless hidden entries are asked for.
pub open spec fn in_reach(config: ScanConfigView, e: EntryView) -> bool {
    e.depth <= config.max_depth && (config.show_hidden || !is_hidden_entry(e))
}

/// The path of an entry as a run shows it.
pub open spec fn shown_as(config: ScanConfigView, cwd: Seq<char>, e: EntryView) -> Seq<char> {
    shown_path(config.full_path, cwd, e.path)
}

/// An entry on which a run fails: it is in reach, and its line cannot be
/// rendered.
pub open spec fn unreadable(config: ScanConfigView, e: EntryView) -> bool {
    in_reach(config, e) && lacks_age(config.columns, e)
}

/// An entry that a run lists: it is in reach, its line can be rendered, and
/// it passes the filter chain with the path as shown.
pub open spec fn emitted(config: ScanConfigView, cwd: Seq<char>, e: EntryView) -> bool {
    in_reach(config, e) && !lacks_age(config.columns, e) && passes(
        config.filters,
        e,
        shown_as(config, cwd, e),
    )
}

/// The line of an entry in a run.
pub open spec fn record_of(config: ScanConfigView, cwd: Seq<char>, e: EntryView) -> Seq<char> {
    record_text(config.columns, config.size_unit, colorized(config), e, shown_as(config, cwd, e))
}

/// What an entry adds to the listing: its line if it is listed, else
/// nothing.
pub open spec fn line_of(config: ScanConfigView, cwd: Seq<char>, e: EntryView) -> Seq<char> {
    if emitted(config, cwd, e) {
        record_of(config, cwd, e)
    } else {
        Seq::empty()
    }
}

/// What precedes the records: the header, unless it is switched off.
pub open spec fn heading(config: ScanConfigView) -> Seq<char> {
    if config.header {
        header_text(config.columns)
    } else {
        Seq::empty()
    }
}

/// The mathematical content of a sequence of entries.
pub open spec fn views(entries: Seq<Entry>) -> Seq<EntryView> {
    entries.map_values(|e: Entry| e@)
}

/// Whether a run fails on one of the entries.
pub open spec fn any_unreadable(config: ScanConfigView, entries: Seq<EntryView>) -> bool {
    exists|i: int| 0 <= i < entries.len() && unreadable(config, #[trigger] entries[i])
}

/// The entries that a run lists, in the order in which they came.
pub open spec fn shown_entries(
    config: ScanConfigView,
    cwd: Seq<char>,
    entries: Seq<EntryView>,
) -> Seq<EntryView> {
    entries.filter(|e: EntryView| emitted(config, cwd, e))
}

/// The lines of the listed entries, one after the other.
pub open spec fn records(
    config: ScanConfigView,
    cwd: Seq<char>,
    entries: Seq<EntryView>,
) -> Seq<char> {
    shown_entries(config, cwd, entries).map_values(
        |e: EntryView| record_of(config, cwd, e),
    ).flatten()
}

/// Header and records before any alignment.
pub open spec fn raw_listing(
    config: ScanConfigView,
    cwd: Seq<char>,
    entries: Seq<EntryView>,
) -> Seq<char> {
    heading(config) + records(config, cwd, entries)
}

/// The text that reaches the sink: for a file, header and records as they
/// are; for standard output, the same laid out in aligned columns, which may
/// fail.
pub open spec fn listing_text(
    config: ScanConfigView,
    cwd: Seq<char>,
    entries: Seq<EntryView>,
) -> Option<Seq<char>> {
    if colorized(config) {
        tab_aligned(raw_listing(config, cwd, entries))
    } else {
        Some(raw_listing(config, cwd, entries))
    }
}

/// What a run over `entries` comes to: `TraversalIo` if it fails on one of
/// them; else `SinkIo` if the text cannot be laid out; else the text for the
/// sink and the number of entries listed.
pub open spec fn outcome(
    config: ScanConfigView,
    cwd: Seq<char>,
    entries: Seq<EntryView>,
) -> Result<(Seq<char>, nat), ScanError> {
    if any_unreadable(config, entries) {
        Err(ScanError::TraversalIo)
    } else {
        match listing_text(config, cwd, entries) {
            None => Err(ScanError::SinkIo),
            Some(text) => Ok((text, shown_entries(config, cwd, entries).len())),
        }
    }
}

/// Adding one entry at the end of the input adds its line, if it is listed,
/// at the end of the records, and changes nothing before it.
pub proof fn lemma_records_push(
    config: ScanConfigView,
    cwd: Seq<char>,
    entries: Seq<EntryView>,
    e: EntryView,
)
    ensures
        shown_entries(config, cwd, entries.push(e)) == if emitted(config, cwd, e) {
            shown_entries(config, cwd, entries).push(e)
        } else {
            shown_entries(config, cwd, entries)
        },
        records(config, cwd, entries.push(e)) == records(config, cwd, entries) + line_of(
            config,
            cwd,
            e,
        ),
{
    let keep = |e: EntryView| emitted(config, cwd, e);
    let render = |e: EntryView| record_of(config, cwd, e);
    entries.lemma_filter_push(e, keep);
    let before = shown_entries(config, cwd, entries);
    if emitted(config, cwd, e) {
        before.lemma_push_map_commute(render, e);
        before.map_values(render).lemma_flatten_push(render(e));
    }
}

/// The result of a complete run.
#[derive(Debug)]
pub struct Listing {
    /// The text for the sink.
    pub text: String,
    /// The number of entries listed.
    pub count: usize,
}

/// Whether the result of a run is the one expected.
pub open spec fn agrees(
    done: Result<Listing, ScanError>,
    expected: Result<(Seq<char>, nat), ScanError>,
) -> bool {
    match expected {
        Ok((text, count)) => done is Ok && done->Ok_0.text@ == text && done->Ok_0.count == count,
        Err(err) => done == Err::<Listing, ScanError>(err),
    }
}

/// A run in progress. Entries are handed to it one at a time; it hands back
/// the text that is due to the sink at that moment. A listing for a file is
/// handed out line by line. A listing for standard output is held back until
/// the end, because its columns are aligned over all lines.
pub struct Scanner<'a> {
    config: &'a ScanConfig,
    cwd: &'a str,
    count: usize,
    pending: String,
}

/// The mathematical content of a `Scanner`.
pub struct ScannerView {
    /// The configuration of the run.
    pub config: ScanConfigView,
    /// The working directory of the run.
    pub cwd: Seq<char>,
    /// The number of entries listed so far.
    pub count: nat,
    /// The text that is held back for alignment.
    pub pending: Seq<char>,
}

impl<'a> View for Scanner<'a> {
    type V = ScannerView;

    closed spec fn view(&self) -> ScannerView {
        ScannerView {
            config: self.config@,
            cwd: self.cwd@,
            count: self.count as nat,
            pending: self.pending@,
        }
    }
}

impl<'a> Scanner<'a> {
    /// Starts a run. The text handed back is due to the sink before
    /// anything else: the header of a listing for a file. The header of a
    /// listing for standard output is held back with the records.
    pub fn start(config: &'a ScanConfig, cwd: &'a str) -> (started: (Scanner<'a>, String))
        ensures
            started.0@.config == config@,
            started.0@.cwd == cwd@,
            started.0@.count == 0,
            started.0@.pending == if colorized(config@) {
                heading(config@)
            } else {
                Seq::empty()
            },
            started.1@ == if colorized(config@) {
                Seq::empty()
            } else {
                heading(config@)
            },
    {
        let header = if config.header {
            render_header(config.columns)
        } else {
            String::new()
        };
        let scanner = if config.colorize() {
            (Scanner { config, cwd, count: 0, pending: header }, String::new())
        } else {
            (Scanner { config, cwd, count: 0, pending: String::new() }, header)
        };
        scanner
    }

    /// The number of entries listed so far.
    pub fn count(&self) -> (count: usize)
        ensures
            count == self@.count,
    {
        self.count
    }

    /// Whether an entry is in reach of the run: no deeper than the depth
    /// limit and, unless hidden entries are asked for, not hidden.
    pub fn in_reach(&self, entry: &Entry) -> (yes: bool)
        ensures
            yes == in_reach(self@.config, entry@),
    {
        entry.depth <= self.config.max_depth && (self.config.show_hidden || !entry.is_hidden())
    }

    /// Takes the next entry of the walk.
    ///
    /// An entry out of reach is passed over. An entry in reach whose line
    /// cannot be rendered fails the run with `TraversalIo`, and leaves the
    /// scanner as it was. Any other entry is rendered and tested against the
    /// filter chain; if it passes, it is counted, and its line is handed back
    /// (for a file) or held back (for standard output). In every other case
    /// the text handed back is empty.
    pub fn visit(&mut self, entry: &Entry) -> (due: Result<String, ScanError>)
        requires
            old(self)@.count < usize::MAX,
        ensures
            final(self)@.config == old(self)@.config,
            final(self)@.cwd == old(self)@.cwd,
            due is Err <==> unreadable(old(self)@.config, entry@),
            due is Err ==> due == Err::<String, ScanError>(ScanError::TraversalIo) && final(self)@
                == old(self)@,
            due is Ok ==> {
                let config = old(self)@.config;
                let cwd = old(self)@.cwd;
                let line = line_of(config, cwd, entry@);
                &&& final(self)@.count == old(self)@.count + if emitted(config, cwd, entry@) {
                    1nat
                } else {
                    0nat
                }
                &&& final(self)@.pending == old(self)@.pending + if colorized(config) {
                    line
                } else {
                    Seq::empty()
                }
                &&& due->Ok_0@ == if colorized(config) {
                    Seq::empty()
                } else {
                    line
                }
            },
    {
        if !self.in_reach(entry) {
            return Ok(String::new());
        }
        let shown = render_path(self.config.full_path, self.cwd, entry.path.as_str());
        let colorize = self.config.colorize();
        let line = match render_record(
            self.config.columns,
            self.config.size_unit,
            colorize,
            entry,
            shown.as_str(),
        ) {
            Ok(line) => line,
            Err(err) => {
                return Err(err);
            },
        };
        if !self.config.filters.passes(entry, shown.as_str()) {
            return Ok(String::new());
        }
        self.count = self.count + 1;
        if colorize {
            self.pending.append(line.as_str());
            Ok(String::new())
        } else {
            Ok(line)
        }
    }

    /// The end of a run for standard output, where `aligned` is what the
    /// alignment made of the text held back: the listing with that text, or
    /// `SinkIo` if the alignment failed.
    pub fn conclude(aligned: Option<String>, count: usize) -> (done: Result<Listing, ScanError>)
        ensures
            match aligned {
                Some(text) => done is Ok && done->Ok_0.text@ == text@ && done->Ok_0.count == count,
                None => done == Err::<Listing, ScanError>(ScanError::SinkIo),
            },
    {
        match aligned {
            Some(text) => Ok(Listing { text, count }),
            None => Err(ScanError::SinkIo),
        }
    }

    /// Ends the run. For a file nothing is left to write. For standard
    /// output everything held back is laid out in aligned columns and handed
    /// over; if that fails, the run fails with `SinkIo`.
    pub fn finish(self) -> (done: Result<Listing, ScanError>)
        ensures
            match done {
                Ok(listing) => {
                    &&& listing.count == self@.count
                    &&& Some(listing.text@) == if colorized(self@.config) {
                        tab_aligned(self@.pending)
                    } else {
                        Some(Seq::empty())
                    }
                },
                Err(err) => err == ScanError::SinkIo && colorized(self@.config) && tab_aligned(
                    self@.pending,
                ) is None,
            },
    {
        if self.config.colorize() {
            Scanner::conclude(tab_align(self.pending.as_str()), self.count)
        } else {
            Ok(Listing { text: String::new(), count: self.count })
        }
    }
}

/// Lists a whole walk at once: `entries` in the order of the walk, `cwd`
/// the working directory.
///
/// The run fails with `TraversalIo` if there is an entry in reach whose line
/// cannot be rendered. Otherwise the listing counts the entries in reach
/// that pass the filter chain, and its text is the header, if asked for,
/// followed by their lines in the order of the walk; for standard output that
/// text is laid out in aligned columns, and the run fails with `SinkIo` if
/// that fails.
pub fn scan(config: &ScanConfig, cwd: &str, entries: &Vec<Entry>) -> (done: Result<
    Listing,
    ScanError,
>)
    ensures
        agrees(done, outcome(config@, cwd@, views(entries@))),
{
    let (mut scanner, mut written) = Scanner::start(config, cwd);
    let ghost all = views(entries@);
    let mut i: usize = 0;
    proof {
        reveal(Seq::filter);
    }
    while i < entries.len()
        invariant
            i <= entries.len(),
            all == views(entries@),
            scanner@.config == config@,
            scanner@.cwd == cwd@,
            !any_unreadable(config@, all.take(i as int)),
            scanner@.count == shown_entries(config@, cwd@, all.take(i as int)).len(),
            scanner@.count <= i,
            colorized(config@) ==> written@ == Seq::<char>::empty() && scanner@.pending
                == raw_listing(config@, cwd@, all.take(i as int)),
            !colorized(config@) ==> scanner@.pending == Seq::<char>::empty() && written@
                == raw_listing(config@, cwd@, all.take(i as int)),
        decreases entries.len() - i,
    {
        let ghost seen = all.take(i as int);
        let ghost e = entries@[i as int]@;
        proof {
            assert(all.take(i as int + 1) =~= seen.push(e));
            lemma_records_push(config@, cwd@, seen, e);
        }
        match scanner.visit(&entries[i]) {
            Err(err) => {
                assert(unreadable(config@, all[i as int]));
                return Err(err);
            },
            Ok(due) => {
                written.append(due.as_str());
                proof {
                    let next = all.take(i as int + 1);
                    assert forall|k: int| 0 <= k < next.len() implies !unreadable(
                        config@,
                        #[trigger] next[k],
                    ) by {
                        if k < i {
                            assert(next[k] == seen[k]);
                        }
                    }
                }
            },
        }
        i += 1;
    }
    assert(all.take(i as int) =~= all);
    match scanner.finish() {
        Ok(rest) => {
            written.append(rest.text.as_str());
            Ok(Listing { text: written, count: rest.count })
        },
        Err(err) => Err(err),
    }
}

/// The view of an optional text that is held by reference.
pub open spec fn word_view(word: Option<&str>) -> Option<Seq<char>> {
    match word {
        Some(w) => Some(w@),
        None => None,
    }
}

/// The view of an optional text that is held by reference.
pub open spec fn string_view(word: Option<&String>) -> Option<Seq<char>> {
    match word {
        Some(w) => Some(w@),
        None => None,
    }
}

/// An owned copy of an optional text.
fn own_word(word: Option<&str>) -> (owned: Option<String>)
    ensures
        text_view(owned) == word_view(word),
{
    match word {
        Some(w) => Some(String::from_str(w)),
        None => None,
    }
}

/// An owned copy of an optional text.
fn own_string(word: Option<&String>) -> (owned: Option<String>)
    ensures
        text_view(owned) == string_view(word),
{
    match word {
        Some(w) => Some(w.clone()),
        None => None,
    }
}

/// Lists the walk of the directory `src`: `entries` are the entries of that
/// walk in its order, `cwd` the working directory, and the remaining
/// arguments the options one by one.
///
/// `all` switches on every column and full paths. `depth` is the depth
/// limit. `no_header` leaves the header out. With `outfile` the listing is
/// plain text for that file; without, it is coloured and aligned for standard
/// output. `depth_first` and `show_link_dir` tell how the walk was made, and
/// do not change how its entries are listed.
///
/// The result is that of `scan` with the configuration that the options
/// stand for, with one exception: where the `regex` crate does not take
/// `regex_pattern`, the result is `BadPattern`.
pub fn search_dir(
    src: &str,
    entries: &Vec<Entry>,
    cwd: &str,
    regex_pattern: Option<&str>,
    ignore_case: bool,
    all: bool,
    depth: usize,
    show_type: bool,
    show_size: bool,
    size_limit_max: Option<u64>,
    size_limit_min: Option<u64>,
    size_fmt: &str,
    created_time: bool,
    filter_type: Option<&String>,
    extension: Option<&str>,
    show_file_name: bool,
    depth_first: bool,
    full_path: bool,
    show_link_dir: bool,
    show_hiden: bool,
    no_header: bool,
    outfile: Option<&String>,
) -> (done: Result<Listing, ScanError>)
    ensures
        ({
            let opt = OptView {
                rootdir: Some(src@),
                show_all: all,
                deepth: depth as nat,
                show_type,
                show_size,
                size_fmt: size_fmt@,
                created_time,
                show_hiden,
                full_path,
                name: show_file_name,
                depth: depth_first,
                show_link_dir,
                ext: word_view(extension),
                regex: word_view(regex_pattern),
                ignore_case,
                file_size_max: number_view(size_limit_max),
                file_size_min: number_view(size_limit_min),
                header: no_header,
                filetype: string_view(filter_type),
                out: string_view(outfile),
            };
            ||| regex_pattern is Some && done == Err::<Listing, ScanError>(ScanError::BadPattern)
            ||| agrees(done, outcome(config_of(opt), cwd@, views(entries@)))
        }),
{
    let opt = Opt {
        rootdir: Some(String::from_str(src)),
        show_all: all,
        deepth: depth,
        show_type,
        show_size,
        size_fmt: String::from_str(size_fmt),
        created_time,
        show_hiden,
        full_path,
        name: show_file_name,
        depth: depth_first,
        show_link_dir,
        ext: own_word(extension),
        regex: own_word(regex_pattern),
        ignore_case,
        file_size_max: size_limit_max,
        file_size_min: size_limit_min,
        header: no_header,
        filetype: own_string(filter_type),
        out: own_string(outfile),
        help: None,
        version: None,
    };
    let config = match ScanConfig::from_opt(&opt) {
        Ok(config) => config,
        Err(err) => {
            return Err(err);
        },
    };
    scan(&config, cwd, entries)
}

/// The closing line that reports how many entries were listed.
pub fn summary_line(count: usize) -> (line: String)
    ensures
        line@ == "total item: "@ + decimal(count as nat),
{
    let mut line = String::from_str("total item: ");
    push_decimal(&mut line, count as u64);
    line
}

} // verus!
