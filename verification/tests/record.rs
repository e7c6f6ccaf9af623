use fdx::entry::{Entry, EntryKind};
use fdx::error::ScanError;
use fdx::record::{render_header, render_record, Columns};
use fdx::units::SizeUnit;

fn file() -> Entry {
    Entry {
        name: "notes.txt".to_string(),
        path: "./docs/notes.txt".to_string(),
        kind: EntryKind::File,
        size: 1536,
        age: Some(3661),
        depth: 2,
    }
}

#[test]
fn the_header_names_the_shown_columns_in_order() {
    assert_eq!(render_header(Columns::all()), "Type\tSize\tCtime\tName\tPath\n");
    assert_eq!(render_header(Columns::path_only()), "Path\n");
    let some = Columns { kind: false, size: true, ctime: false, name: true };
    assert_eq!(render_header(some), "Size\tName\tPath\n");
    let others = Columns { kind: true, size: false, ctime: true, name: false };
    assert_eq!(render_header(others), "Type\tCtime\tPath\n");
}

#[test]
fn kinds_have_their_tokens() {
    assert_eq!(EntryKind::Dir.token(), "dir");
    assert_eq!(EntryKind::File.token(), "file");
    assert_eq!(EntryKind::Symlink.token(), "symlink");
    assert_eq!(EntryKind::Other.token(), "other");
}

#[test]
fn a_plain_record_is_tab_separated() {
    let line = render_record(Columns::all(), SizeUnit::Kilo, false, &file(), "docs/notes.txt");
    assert_eq!(line.unwrap(), "file\t1.50K\t1h1m1s\tnotes.txt\tdocs/notes.txt\n");
}

#[test]
fn a_record_without_optional_columns_is_the_path() {
    let line = render_record(Columns::path_only(), SizeUnit::Bytes, false, &file(), "p");
    assert_eq!(line.unwrap(), "p\n");
}

#[test]
fn only_the_shown_columns_appear() {
    let columns = Columns { kind: false, size: true, ctime: false, name: true };
    let line = render_record(columns, SizeUnit::Bytes, false, &file(), "docs/notes.txt");
    assert_eq!(line.unwrap(), "1536\tnotes.txt\tdocs/notes.txt\n");
}

#[test]
fn a_coloured_record_resets_after_each_field() {
    let line = render_record(Columns::all(), SizeUnit::Bytes, true, &file(), "docs/notes.txt");
    assert_eq!(
        line.unwrap(),
        "\x1b[37mfile\x1b[0m\t\x1b[37m1536\x1b[0m\t\x1b[37m1h1m1s\x1b[0m\t\
         \x1b[36mnotes.txt\x1b[0m\t\x1b[37mdocs/notes.txt\x1b[0m\n"
    );
}

#[test]
fn type_and_path_take_the_colour_of_the_kind() {
    let mut dir = file();
    dir.kind = EntryKind::Dir;
    dir.name = "src".to_string();
    let columns = Columns { kind: true, size: false, ctime: false, name: true };
    let line = render_record(columns, SizeUnit::Bytes, true, &dir, "src");
    assert_eq!(
        line.unwrap(),
        "\x1b[34mdir\x1b[0m\t\x1b[37msrc\x1b[0m\t\x1b[34msrc\x1b[0m\n"
    );
    let mut link = file();
    link.kind = EntryKind::Symlink;
    link.name = "l.zip".to_string();
    let line = render_record(columns, SizeUnit::Bytes, true, &link, "l.zip");
    assert_eq!(
        line.unwrap(),
        "\x1b[36msymlink\x1b[0m\t\x1b[31ml.zip\x1b[0m\t\x1b[36ml.zip\x1b[0m\n"
    );
    let mut other = file();
    other.kind = EntryKind::Other;
    other.name = "sock".to_string();
    let line = render_record(columns, SizeUnit::Bytes, true, &other, "sock");
    assert_eq!(
        line.unwrap(),
        "\x1b[31mother\x1b[0m\t\x1b[37msock\x1b[0m\t\x1b[31msock\x1b[0m\n"
    );
}

#[test]
fn the_size_of_a_directory_is_shown_as_zero() {
    let mut dir = file();
    dir.kind = EntryKind::Dir;
    dir.size = 4096;
    let columns = Columns { kind: false, size: true, ctime: false, name: false };
    assert_eq!(render_record(columns, SizeUnit::Kilo, false, &dir, "d").unwrap(), "0.00K\td\n");
    assert_eq!(render_record(columns, SizeUnit::Bytes, false, &dir, "d").unwrap(), "0\td\n");
}

#[test]
fn an_age_of_zero_is_shown_as_zero_seconds() {
    let mut new = file();
    new.age = Some(0);
    let columns = Columns { kind: false, size: false, ctime: true, name: false };
    assert_eq!(render_record(columns, SizeUnit::Bytes, false, &new, "n").unwrap(), "0s\tn\n");
}

#[test]
fn a_missing_age_fails_only_where_it_is_shown() {
    let mut entry = file();
    entry.age = None;
    let with = Columns { kind: false, size: false, ctime: true, name: false };
    assert_eq!(
        render_record(with, SizeUnit::Bytes, false, &entry, "n").err(),
        Some(ScanError::TraversalIo)
    );
    assert_eq!(
        render_record(Columns::all(), SizeUnit::Bytes, true, &entry, "n").err(),
        Some(ScanError::TraversalIo)
    );
    let without = Columns { kind: true, size: true, ctime: false, name: true };
    assert_eq!(
        render_record(without, SizeUnit::Bytes, false, &entry, "n").unwrap(),
        "file\t1536\tnotes.txt\tn\n"
    );
}
