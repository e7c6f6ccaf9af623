use fdx::entry::EntryKind;
use fdx::style::{push_painted, Color};
use fdx::text::chars_of;

fn color_of(name: &str) -> Color {
    Color::of_name(&chars_of(name))
}

#[test]
fn each_colour_has_its_escape_sequence() {
    assert_eq!(Color::Red.code(), "\x1b[31m");
    assert_eq!(Color::Green.code(), "\x1b[32m");
    assert_eq!(Color::Yellow.code(), "\x1b[33m");
    assert_eq!(Color::Blue.code(), "\x1b[34m");
    assert_eq!(Color::Magenta.code(), "\x1b[35m");
    assert_eq!(Color::Cyan.code(), "\x1b[36m");
    assert_eq!(Color::White.code(), "\x1b[37m");
}

#[test]
fn kinds_have_their_colours() {
    assert_eq!(Color::of_kind(EntryKind::Dir), Color::Blue);
    assert_eq!(Color::of_kind(EntryKind::Symlink), Color::Cyan);
    assert_eq!(Color::of_kind(EntryKind::File), Color::White);
    assert_eq!(Color::of_kind(EntryKind::Other), Color::Red);
}

#[test]
fn archives_are_red() {
    for name in ["a.gz", "a.bz2", "a.zip", "a.tar", "a.xz", "a.lz4", "a.zst", "a.tar.gz"] {
        assert_eq!(color_of(name), Color::Red);
    }
}

#[test]
fn images_are_magenta() {
    for name in ["a.png", "a.jpeg", "a.jpg", "a.svg", "a.tiff", "a.bmp"] {
        assert_eq!(color_of(name), Color::Magenta);
    }
}

#[test]
fn documents_are_yellow() {
    for name in ["a.pdf", "a.html", "a.xml", "a.json", "a.tsv", "a.csv", "a.xlsx"] {
        assert_eq!(color_of(name), Color::Yellow);
    }
}

#[test]
fn plain_text_is_cyan() {
    for name in ["a.log", "a.txt", "a.md", "a.yaml", "a.yml", "a.toml", "a.ini"] {
        assert_eq!(color_of(name), Color::Cyan);
    }
}

#[test]
fn source_code_is_green() {
    for name in [
        "a.rs", "a.go", "a.py", "a.pl", "a.java", "a.js", "a.ts", "a.c", "a.cpp", "a.sh",
        "a.bash", "a.zsh", "a.fish", "a.r",
    ] {
        assert_eq!(color_of(name), Color::Green);
    }
}

#[test]
fn every_other_name_is_white() {
    for name in ["a", "", "a.", "a.unknown", "a.TXT", "a.gzz", "a.g", "gz", "a.rs.bak", "a.txt "] {
        assert_eq!(color_of(name), Color::White);
    }
}

#[test]
fn the_extension_is_what_follows_the_last_dot() {
    assert_eq!(color_of(".zip"), Color::Red);
    assert_eq!(color_of("a.b.c.py"), Color::Green);
    assert_eq!(color_of("py.a"), Color::White);
}

#[test]
fn a_painted_field_stands_between_colour_and_reset() {
    let mut out = String::from("x");
    push_painted(&mut out, "dir", Color::Blue, true);
    assert_eq!(out, "x\x1b[34mdir\x1b[0m");
}

#[test]
fn a_plain_field_is_bare() {
    let mut out = String::from("x");
    push_painted(&mut out, "dir", Color::Blue, false);
    assert_eq!(out, "xdir");
}
