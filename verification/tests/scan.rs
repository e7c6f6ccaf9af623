use fdx::config::{Destination, Order, ScanConfig};
use fdx::entry::{Entry, EntryKind};
use fdx::error::ScanError;
use fdx::filter::{Filters, TypeFilter};
use fdx::pattern::PathPattern;
use fdx::record::Columns;
use fdx::scan::{scan, search_dir, summary_line, Listing, Scanner};
use fdx::units::SizeUnit;

fn entry(path: &str, kind: EntryKind, size: u64, depth: usize) -> Entry {
    let name = path.rsplit('/').next().unwrap().to_string();
    Entry { name, path: path.to_string(), kind, size, age: Some(60), depth }
}

fn to_file() -> ScanConfig {
    ScanConfig {
        root: ".".to_string(),
        max_depth: usize::MAX,
        order: Order::BreadthFirst,
        follow_symlinks: false,
        show_hidden: false,
        columns: Columns::path_only(),
        full_path: false,
        size_unit: SizeUnit::Bytes,
        filters: Filters::none(),
        header: true,
        destination: Destination::File("out.tsv".to_string()),
    }
}

fn to_stdout() -> ScanConfig {
    let mut config = to_file();
    config.destination = Destination::Stdout;
    config
}

fn sample() -> Vec<Entry> {
    vec![
        entry("./a.txt", EntryKind::File, 10, 1),
        entry("./b", EntryKind::Dir, 4096, 1),
        entry("./.hidden", EntryKind::File, 5, 1),
    ]
}

fn tree() -> Vec<Entry> {
    vec![
        entry(".", EntryKind::Dir, 4096, 0),
        entry("./.git", EntryKind::Dir, 4096, 1),
        entry("./.git/config", EntryKind::File, 92, 2),
        entry("./Cargo.toml", EntryKind::File, 200, 1),
        entry("./link", EntryKind::Symlink, 3, 1),
        entry("./src", EntryKind::Dir, 4096, 1),
        entry("./src/lib.rs", EntryKind::File, 2048, 2),
        entry("./src/util", EntryKind::Dir, 4096, 2),
        entry("./src/util/io.rs", EntryKind::File, 512, 3),
    ]
}

fn run(config: &ScanConfig, entries: &Vec<Entry>) -> Listing {
    scan(config, "/work", entries).unwrap()
}

fn default_run(entries: &Vec<Entry>, show_hidden: bool, outfile: Option<&String>) -> Listing {
    search_dir(
        ".", entries, "/work", None, false, false, usize::MAX, false, false, None, None, "b",
        false, None, None, false, false, false, false, show_hidden, false, outfile,
    )
    .unwrap()
}

#[test]
fn default_scan_lists_the_visible_entries() {
    let listing = default_run(&sample(), false, None);
    assert_eq!(listing.count, 2);
    assert_eq!(listing.text, "Path\n\x1b[37ma.txt\x1b[0m\n\x1b[34mb\x1b[0m\n");
}

#[test]
fn default_scan_with_hidden_entries_lists_all() {
    let listing = default_run(&sample(), true, None);
    assert_eq!(listing.count, 3);
    assert_eq!(
        listing.text,
        "Path\n\x1b[37ma.txt\x1b[0m\n\x1b[34mb\x1b[0m\n\x1b[37m.hidden\x1b[0m\n"
    );
}

#[test]
fn default_scan_to_a_file_is_plain() {
    let out = "listing.tsv".to_string();
    let listing = default_run(&sample(), false, Some(&out));
    assert_eq!(listing.count, 2);
    assert_eq!(listing.text, "Path\na.txt\nb\n");
    let listing = default_run(&sample(), true, Some(&out));
    assert_eq!(listing.count, 3);
    assert_eq!(listing.text, "Path\na.txt\nb\n.hidden\n");
}

#[test]
fn an_empty_walk_gives_the_header_alone() {
    let listing = run(&to_file(), &Vec::new());
    assert_eq!(listing.count, 0);
    assert_eq!(listing.text, "Path\n");
    let mut config = to_file();
    config.header = false;
    let listing = run(&config, &Vec::new());
    assert_eq!(listing.count, 0);
    assert_eq!(listing.text, "");
}

#[test]
fn the_root_is_listed_like_any_entry() {
    let listing = run(&to_file(), &tree());
    assert_eq!(listing.count, 7);
    assert_eq!(
        listing.text,
        "Path\n.\nCargo.toml\nlink\nsrc\nsrc/lib.rs\nsrc/util\nsrc/util/io.rs\n"
    );
}

#[test]
fn no_listed_entry_is_deeper_than_the_limit() {
    let mut config = to_file();
    config.header = false;
    config.max_depth = 1;
    let listing = run(&config, &tree());
    assert_eq!(listing.count, 4);
    assert_eq!(listing.text, ".\nCargo.toml\nlink\nsrc\n");
    config.max_depth = 2;
    assert_eq!(run(&config, &tree()).count, 6);
}

#[test]
fn a_limit_of_zero_lists_the_root_alone() {
    let mut config = to_file();
    config.header = false;
    config.max_depth = 0;
    let listing = run(&config, &tree());
    assert_eq!(listing.count, 1);
    assert_eq!(listing.text, ".\n");
}

#[test]
fn what_lies_below_a_hidden_directory_is_not_listed() {
    let mut config = to_file();
    config.header = false;
    let entries = vec![
        entry("./.git/config", EntryKind::File, 92, 2),
        entry("./.git/hooks/pre-commit", EntryKind::File, 92, 3),
        entry("./.git", EntryKind::Dir, 4096, 1),
        entry("./a", EntryKind::File, 1, 1),
        entry(".", EntryKind::Dir, 4096, 0),
    ];
    let listing = run(&config, &entries);
    assert_eq!(listing.count, 2);
    assert_eq!(listing.text, "a\n.\n");
    config.show_hidden = true;
    let listing = run(&config, &entries);
    assert_eq!(listing.count, 5);
    assert_eq!(listing.text, ".git/config\n.git/hooks/pre-commit\n.git\na\n.\n");
}

#[test]
fn filters_choose_what_is_listed_and_counted() {
    let mut config = to_file();
    config.header = false;
    config.filters.kind = Some(TypeFilter::File);
    let listing = run(&config, &tree());
    assert_eq!(listing.count, 3);
    assert_eq!(listing.text, "Cargo.toml\nsrc/lib.rs\nsrc/util/io.rs\n");
    config.filters.extension = Some("rs".to_string());
    let listing = run(&config, &tree());
    assert_eq!(listing.count, 2);
    assert_eq!(listing.text, "src/lib.rs\nsrc/util/io.rs\n");
    config.filters.min_size = Some(1000);
    let listing = run(&config, &tree());
    assert_eq!(listing.count, 1);
    assert_eq!(listing.text, "src/lib.rs\n");
    config.filters.max_size = Some(2000);
    let listing = run(&config, &tree());
    assert_eq!(listing.count, 0);
    assert_eq!(listing.text, "");
}

#[test]
fn a_rejected_directory_does_not_hide_its_contents() {
    let mut config = to_file();
    config.header = false;
    config.filters.extension = Some("rs".to_string());
    let listing = run(&config, &tree());
    assert_eq!(listing.text, "src/lib.rs\nsrc/util/io.rs\n");
}

#[test]
fn the_pattern_sees_the_path_as_it_is_shown() {
    let mut config = to_file();
    config.header = false;
    config.filters.path_regex = Some(PathPattern::new("^src", false).unwrap());
    let listing = run(&config, &tree());
    assert_eq!(listing.count, 4);
    assert_eq!(listing.text, "src\nsrc/lib.rs\nsrc/util\nsrc/util/io.rs\n");
    config.full_path = true;
    assert_eq!(run(&config, &tree()).count, 0);
    config.filters.path_regex = Some(PathPattern::new("^/work/src", false).unwrap());
    let listing = run(&config, &tree());
    assert_eq!(listing.count, 4);
    assert_eq!(
        listing.text,
        "/work/src\n/work/src/lib.rs\n/work/src/util\n/work/src/util/io.rs\n"
    );
}

#[test]
fn listing_keeps_the_order_of_the_walk() {
    let mut config = to_file();
    config.header = false;
    config.order = Order::DepthFirst;
    let entries = vec![
        entry("./a/x", EntryKind::File, 1, 2),
        entry("./a/y", EntryKind::File, 1, 2),
        entry("./a", EntryKind::Dir, 1, 1),
        entry("./b", EntryKind::File, 1, 1),
        entry(".", EntryKind::Dir, 1, 0),
    ];
    assert_eq!(run(&config, &entries).text, "a/x\na/y\na\nb\n.\n");
    config.filters.kind = Some(TypeFilter::Dir);
    assert_eq!(run(&config, &entries).text, "a\n.\n");
}

#[test]
fn all_columns_for_a_file() {
    let mut config = to_file();
    config.columns = Columns::all();
    config.full_path = true;
    config.size_unit = SizeUnit::Kilo;
    let listing = run(&config, &sample());
    assert_eq!(listing.count, 2);
    assert_eq!(
        listing.text,
        "Type\tSize\tCtime\tName\tPath\n\
         file\t0.01K\t1m\ta.txt\t/work/a.txt\n\
         dir\t0.00K\t1m\tb\t/work/b\n"
    );
}

#[test]
fn standard_output_is_aligned_in_columns() {
    let mut config = to_stdout();
    config.columns = Columns { kind: false, size: false, ctime: false, name: true };
    let listing = run(&config, &sample());
    assert_eq!(listing.count, 2);
    assert_eq!(
        listing.text,
        "Name          Path\n\
         \x1b[36ma.txt\x1b[0m  \x1b[37ma.txt\x1b[0m\n\
         \x1b[37mb\x1b[0m      \x1b[34mb\x1b[0m\n"
    );
}

#[test]
fn a_missing_age_fails_the_run() {
    let mut config = to_file();
    config.columns.ctime = true;
    let mut entries = sample();
    entries[1].age = None;
    assert_eq!(scan(&config, "/work", &entries).err(), Some(ScanError::TraversalIo));
    config.destination = Destination::Stdout;
    assert_eq!(scan(&config, "/work", &entries).err(), Some(ScanError::TraversalIo));
}

#[test]
fn a_missing_age_fails_the_run_before_the_filters() {
    let mut config = to_file();
    config.columns.ctime = true;
    config.filters.kind = Some(TypeFilter::File);
    let mut entries = sample();
    entries[1].age = None;
    assert_eq!(scan(&config, "/work", &entries).err(), Some(ScanError::TraversalIo));
}

#[test]
fn a_missing_age_out_of_reach_does_no_harm() {
    let mut config = to_file();
    config.columns.ctime = true;
    let mut entries = sample();
    entries[2].age = None;
    let listing = run(&config, &entries);
    assert_eq!(listing.count, 2);
    assert_eq!(listing.text, "Ctime\tPath\n1m\ta.txt\n1m\tb\n");
    entries[1].age = None;
    entries[1].depth = 5;
    config.max_depth = 4;
    assert_eq!(run(&config, &entries).count, 1);
}

#[test]
fn a_missing_age_does_no_harm_where_ages_are_not_shown() {
    let mut entries = sample();
    entries[0].age = None;
    assert_eq!(run(&to_file(), &entries).count, 2);
}

#[test]
fn search_dir_refuses_a_malformed_pattern() {
    let done = search_dir(
        ".", &sample(), "/work", Some("("), false, false, usize::MAX, false, false, None, None,
        "b", false, None, None, false, false, false, false, false, false, None,
    );
    assert_eq!(done.err(), Some(ScanError::BadPattern));
}

#[test]
fn search_dir_takes_every_option() {
    let kind = "f".to_string();
    let out = "o".to_string();
    let done = search_dir(
        ".", &tree(), "/work", Some("LIB|io"), true, true, 3, false, false, Some(4000),
        Some(100), "k", false, Some(&kind), Some("rs"), false, true, false, true, true, true,
        Some(&out),
    )
    .unwrap();
    assert_eq!(done.count, 2);
    assert_eq!(
        done.text,
        "file\t2.00K\t1m\tlib.rs\t/work/src/lib.rs\n\
         file\t0.50K\t1m\tio.rs\t/work/src/util/io.rs\n"
    );
}

#[test]
fn a_scanner_hands_out_a_file_listing_line_by_line() {
    let config = to_file();
    let (mut scanner, first) = Scanner::start(&config, "/work");
    assert_eq!(first, "Path\n");
    let entries = sample();
    assert_eq!(scanner.visit(&entries[0]).unwrap(), "a.txt\n");
    assert_eq!(scanner.count(), 1);
    assert_eq!(scanner.visit(&entries[1]).unwrap(), "b\n");
    assert_eq!(scanner.visit(&entries[2]).unwrap(), "");
    assert_eq!(scanner.count(), 2);
    let rest = scanner.finish().unwrap();
    assert_eq!(rest.text, "");
    assert_eq!(rest.count, 2);
}

#[test]
fn a_scanner_holds_a_terminal_listing_back_until_the_end() {
    let config = to_stdout();
    let (mut scanner, first) = Scanner::start(&config, "/work");
    assert_eq!(first, "");
    let entries = sample();
    assert_eq!(scanner.visit(&entries[0]).unwrap(), "");
    assert_eq!(scanner.visit(&entries[1]).unwrap(), "");
    assert_eq!(scanner.visit(&entries[2]).unwrap(), "");
    let rest = scanner.finish().unwrap();
    assert_eq!(rest.text, "Path\n\x1b[37ma.txt\x1b[0m\n\x1b[34mb\x1b[0m\n");
    assert_eq!(rest.count, 2);
}

#[test]
fn a_failed_visit_leaves_the_scanner_as_it_was() {
    let mut config = to_file();
    config.columns.ctime = true;
    let (mut scanner, _) = Scanner::start(&config, "/work");
    let mut entries = sample();
    entries[1].age = None;
    assert_eq!(scanner.visit(&entries[0]).unwrap(), "1m\ta.txt\n");
    assert_eq!(scanner.visit(&entries[1]).err(), Some(ScanError::TraversalIo));
    assert_eq!(scanner.count(), 1);
    assert_eq!(scanner.finish().unwrap().count, 1);
}

#[test]
fn a_scanner_tells_what_is_in_reach() {
    let mut config = to_file();
    config.max_depth = 1;
    let (scanner, _) = Scanner::start(&config, "/work");
    assert!(scanner.in_reach(&entry(".", EntryKind::Dir, 0, 0)));
    assert!(scanner.in_reach(&entry("./a", EntryKind::File, 0, 1)));
    assert!(!scanner.in_reach(&entry("./a/b", EntryKind::File, 0, 2)));
    assert!(!scanner.in_reach(&entry("./.a", EntryKind::File, 0, 1)));
}

#[test]
fn the_summary_reports_the_count() {
    assert_eq!(summary_line(0), "total item: 0");
    assert_eq!(summary_line(2), "total item: 2");
    assert_eq!(summary_line(1234), "total item: 1234");
}

#[test]
fn a_run_concludes_with_the_aligned_text() {
    let done = Scanner::conclude(Some("a  b\n".to_string()), 3).unwrap();
    assert_eq!(done.text, "a  b\n");
    assert_eq!(done.count, 3);
}

#[test]
fn a_failed_alignment_fails_the_run() {
    assert_eq!(Scanner::conclude(None, 3).err(), Some(ScanError::SinkIo));
}
