use cdda_cat::paths::join;
use cdda_cat::text::{chars_of, contains, same_text};
use std::path::Path;

fn std_join(base: &str, part: &str) -> String {
    Path::new(base).join(part).to_str().unwrap().to_string()
}

#[test]
fn join_puts_a_slash_between() {
    assert_eq!(join("a", "b"), "a/b");
    assert_eq!(join("/home/user", "cdda"), "/home/user/cdda");
    assert_eq!(join("a/b", "c/d"), "a/b/c/d");
}

#[test]
fn join_adds_no_second_slash() {
    assert_eq!(join("a/", "b"), "a/b");
    assert_eq!(join("/", "b"), "/b");
}

#[test]
fn join_onto_nothing_is_the_part() {
    assert_eq!(join("", "b"), "b");
    assert_eq!(join("", ""), "");
}

#[test]
fn join_of_nothing_ends_in_a_slash() {
    assert_eq!(join("a", ""), "a/");
    assert_eq!(join("a/", ""), "a/");
}

#[test]
fn join_lets_an_absolute_part_stand_alone() {
    assert_eq!(join("a", "/b"), "/b");
    assert_eq!(join("/x/y", "/"), "/");
    assert_eq!(join("", "/b/c"), "/b/c");
}

#[test]
fn join_agrees_with_the_standard_library_on_linux() {
    let samples = [
        "", "/", "a", "a/", "/a", "/a/", "a/b", "a//b", "..", ".", "./a", "a/.", "CDDA",
        "cdda-downloads", "/home/u/.cache/cdda_cat", "ünï/cödé", "a b", "//",
    ];
    for base in samples {
        for part in samples {
            assert_eq!(join(base, part), std_join(base, part), "{:?} {:?}", base, part);
        }
    }
}

#[test]
fn contains_finds_a_word_anywhere() {
    assert!(contains("cdda-linux-tiles", "linux"));
    assert!(contains("linux", "linux"));
    assert!(contains("xlinux", "linux"));
    assert!(contains("linuxx", "linux"));
    assert!(contains("lilinux", "linux"));
    assert!(contains("äöü-linux", "linux"));
    assert!(contains("abc", ""));
    assert!(contains("", ""));
}

#[test]
fn contains_finds_nothing_that_is_not_there() {
    assert!(!contains("cdda-windows", "linux"));
    assert!(!contains("linu", "linux"));
    assert!(!contains("", "linux"));
    assert!(!contains("lin-ux", "linux"));
    assert!(!contains("LINUX", "linux"));
}

#[test]
fn contains_agrees_with_the_standard_library() {
    let texts = ["", "a", "ab", "aab", "abab", "ababc", "aaa", "é", "aéb", "linux", "sounds"];
    for text in texts {
        for word in texts {
            assert_eq!(contains(text, word), text.contains(word), "{:?} {:?}", text, word);
        }
    }
}

#[test]
fn same_text_compares_character_by_character() {
    assert!(same_text("", ""));
    assert!(same_text("--tag", "--tag"));
    assert!(!same_text("--tag", "--tags"));
    assert!(!same_text("--tag", "--tab"));
    assert!(!same_text("a", ""));
    assert!(same_text("é", "é"));
}

#[test]
fn chars_of_lists_the_characters() {
    assert_eq!(chars_of("aé/"), vec!['a', 'é', '/']);
    assert_eq!(chars_of(""), Vec::<char>::new());
}
