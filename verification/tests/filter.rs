use fdx::entry::{Entry, EntryKind};
use fdx::error::ScanError;
use fdx::filter::{Filters, TypeFilter};
use fdx::pattern::PathPattern;

fn entry(name: &str, kind: EntryKind, size: u64) -> Entry {
    Entry { name: name.to_string(), path: format!("./{}", name), kind, size, age: None, depth: 1 }
}

#[test]
fn type_filter_words() {
    assert_eq!(TypeFilter::parse("f"), Some(TypeFilter::File));
    assert_eq!(TypeFilter::parse("d"), Some(TypeFilter::Dir));
    assert_eq!(TypeFilter::parse("l"), Some(TypeFilter::Symlink));
    assert_eq!(TypeFilter::parse("x"), None);
    assert_eq!(TypeFilter::parse(""), None);
    assert_eq!(TypeFilter::parse("ff"), None);
    assert_eq!(TypeFilter::parse("F"), None);
}

#[test]
fn without_filters_everything_passes() {
    let filters = Filters::none();
    assert!(filters.passes(&entry("a.txt", EntryKind::File, 10), "a.txt"));
    assert!(filters.passes(&entry("b", EntryKind::Dir, 0), "b"));
    assert!(filters.passes(&entry("s", EntryKind::Other, 0), "s"));
}

#[test]
fn the_type_filter_keeps_one_kind() {
    let mut filters = Filters::none();
    filters.kind = Some(TypeFilter::File);
    assert!(filters.kind_passes(EntryKind::File));
    assert!(!filters.kind_passes(EntryKind::Dir));
    assert!(!filters.kind_passes(EntryKind::Symlink));
    filters.kind = Some(TypeFilter::Dir);
    assert!(filters.kind_passes(EntryKind::Dir));
    assert!(!filters.kind_passes(EntryKind::File));
    filters.kind = Some(TypeFilter::Symlink);
    assert!(filters.kind_passes(EntryKind::Symlink));
    assert!(!filters.kind_passes(EntryKind::File));
}

#[test]
fn other_kinds_pass_no_type_filter() {
    let mut filters = Filters::none();
    assert!(filters.kind_passes(EntryKind::Other));
    for kind in [TypeFilter::File, TypeFilter::Dir, TypeFilter::Symlink] {
        filters.kind = Some(kind);
        assert!(!filters.kind_passes(EntryKind::Other));
    }
}

#[test]
fn the_extension_filter_compares_exactly() {
    let mut filters = Filters::none();
    filters.extension = Some("txt".to_string());
    assert!(filters.passes(&entry("a.txt", EntryKind::File, 1), "a.txt"));
    assert!(filters.passes(&entry("a.b.txt", EntryKind::File, 1), "a.b.txt"));
    assert!(!filters.passes(&entry("a.TXT", EntryKind::File, 1), "a.TXT"));
    assert!(!filters.passes(&entry("a.txt.gz", EntryKind::File, 1), "a.txt.gz"));
    assert!(!filters.passes(&entry("a.tx", EntryKind::File, 1), "a.tx"));
    assert!(!filters.passes(&entry("a.txts", EntryKind::File, 1), "a.txts"));
    assert!(!filters.passes(&entry("txt", EntryKind::File, 1), "txt"));
}

#[test]
fn a_name_without_a_dot_has_no_extension() {
    let mut filters = Filters::none();
    filters.extension = Some("".to_string());
    assert!(!filters.passes(&entry("README", EntryKind::File, 1), "README"));
    assert!(filters.passes(&entry("README.", EntryKind::File, 1), "README."));
}

#[test]
fn the_size_bounds_include_their_ends() {
    let mut filters = Filters::none();
    filters.min_size = Some(10);
    filters.max_size = Some(20);
    assert!(!filters.size_passes(9));
    assert!(filters.size_passes(10));
    assert!(filters.size_passes(15));
    assert!(filters.size_passes(20));
    assert!(!filters.size_passes(21));
}

#[test]
fn each_size_bound_works_alone() {
    let mut filters = Filters::none();
    filters.min_size = Some(10);
    assert!(!filters.size_passes(9));
    assert!(filters.size_passes(u64::MAX));
    filters.min_size = None;
    filters.max_size = Some(10);
    assert!(filters.size_passes(0));
    assert!(!filters.size_passes(11));
}

#[test]
fn a_lower_bound_excludes_directories() {
    let mut filters = Filters::none();
    filters.min_size = Some(1);
    assert!(!filters.passes(&entry("b", EntryKind::Dir, 4096), "b"));
    assert!(filters.passes(&entry("a", EntryKind::File, 4096), "a"));
}

#[test]
fn the_pattern_may_match_anywhere_in_the_path() {
    let mut filters = Filters::none();
    filters.path_regex = Some(PathPattern::new("log", false).unwrap());
    assert!(filters.pattern_passes("var/log/syslog"));
    assert!(filters.pattern_passes("catalog.txt"));
    assert!(!filters.pattern_passes("var/LOG/sys"));
    assert!(!filters.pattern_passes("var/lib"));
}

#[test]
fn the_pattern_can_be_anchored() {
    let pattern = PathPattern::new(r"\.gz$", false).unwrap();
    assert!(pattern.is_match("a/b.tar.gz"));
    assert!(!pattern.is_match("a/b.gz.txt"));
    assert!(!pattern.is_match("a/bgz"));
}

#[test]
fn the_pattern_can_ignore_case() {
    let pattern = PathPattern::new("readme", true).unwrap();
    assert!(pattern.is_match("docs/README.md"));
    assert!(pattern.is_match("docs/readme.md"));
    assert!(!pattern.is_match("docs/read.me"));
}

#[test]
fn a_malformed_pattern_is_refused() {
    assert_eq!(PathPattern::new("foo(bar", false).err(), Some(ScanError::BadPattern));
    assert_eq!(PathPattern::new("[", true).err(), Some(ScanError::BadPattern));
}

#[test]
fn a_refused_compilation_becomes_bad_pattern() {
    assert_eq!(PathPattern::from_built(regex::Regex::new("(")).err(), Some(ScanError::BadPattern));
    let pattern = PathPattern::from_built(regex::Regex::new("^a+$")).unwrap();
    assert!(pattern.is_match("aaa"));
    assert!(!pattern.is_match("aab"));
}

#[test]
fn the_chain_is_a_conjunction() {
    let mut filters = Filters::none();
    filters.kind = Some(TypeFilter::File);
    filters.extension = Some("txt".to_string());
    filters.min_size = Some(5);
    filters.max_size = Some(50);
    filters.path_regex = Some(PathPattern::new("^notes/", false).unwrap());
    let good = entry("a.txt", EntryKind::File, 10);
    assert!(filters.passes(&good, "notes/a.txt"));
    assert!(!filters.passes(&entry("a.txt", EntryKind::Symlink, 10), "notes/a.txt"));
    assert!(!filters.passes(&entry("a.md", EntryKind::File, 10), "notes/a.md"));
    assert!(!filters.passes(&entry("a.txt", EntryKind::File, 4), "notes/a.txt"));
    assert!(!filters.passes(&entry("a.txt", EntryKind::File, 51), "notes/a.txt"));
    assert!(!filters.passes(&good, "other/notes/a.txt"));
}

#[test]
fn failures_describe_themselves() {
    assert_eq!(ScanError::BadPattern.message(), "the regular expression is not valid");
    assert_eq!(ScanError::TraversalIo.message(), "creation time is not available for an entry");
    assert_eq!(ScanError::SinkIo.message(), "the output could not be written");
}

#[test]
fn the_answer_of_the_pattern_joins_the_other_filters() {
    let mut filters = Filters::none();
    filters.kind = Some(TypeFilter::File);
    filters.min_size = Some(5);
    let file = entry("a.txt", EntryKind::File, 10);
    assert!(filters.passes_given(&file, true));
    assert!(!filters.passes_given(&file, false));
    assert!(!filters.passes_given(&entry("a.txt", EntryKind::File, 4), true));
    assert!(!filters.passes_given(&entry("a.txt", EntryKind::Dir, 10), true));
    assert!(Filters::none().passes_given(&file, true));
    assert!(!Filters::none().passes_given(&file, false));
}
