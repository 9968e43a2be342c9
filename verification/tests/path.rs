use std::path::Path;

use bottles_server::path::{join, name_of, parent_of, stem_of};

const PATHS: &[&str] = &[
    "", "a", "a/b", "a/b/", "a//b", "a/./b", "a/b/.", "a/b/..", "..", ".", "./a", "./", "/.", "/",
    "//", "/a", "//a", "/a/", "/a/b", "a/.", "a/./", "./.", "././a", "a/.b", "a.b", "a.b.c", ".a",
    ".a.b", "a.", "a..", "..a", "...", "a/...", "a/..b", "a/b/../c", "/..", "/../a", "a/ /b", "a/b//",
    "a/b/./.", "a/.//./b", "./a/b", "Program Files/Game/game.exe", "x/goggame-1.info", "\\a\\b", "a\\b/c",
    "ä/ö.ü", "./..", "../a", "a/../..", ".//a", ".//", "a///", "/./a", "/.//", "b/.a/.", "../",
];

fn chars(s: &str) -> Vec<char> {
    s.chars().collect()
}

fn text(v: Vec<char>) -> String {
    v.into_iter().collect()
}

#[test]
fn file_names_are_those_of_the_standard_library() {
    for p in PATHS {
        let expected = Path::new(p).file_name().map(|n| n.to_str().unwrap().to_string());
        assert_eq!(name_of(&chars(p)).map(text), expected, "{p:?}");
    }
}

#[test]
fn file_stems_are_those_of_the_standard_library() {
    for p in PATHS {
        let expected = Path::new(p).file_stem().map(|n| n.to_str().unwrap().to_string());
        assert_eq!(stem_of(&chars(p)).map(text), expected, "{p:?}");
    }
}

#[test]
fn parents_are_those_of_the_standard_library() {
    for p in PATHS {
        let expected = Path::new(p).parent().unwrap_or(Path::new("")).to_str().unwrap().to_string();
        assert_eq!(text(parent_of(&chars(p))), expected, "{p:?}");
    }
}

#[test]
fn joined_paths_are_those_of_the_standard_library() {
    for dir in PATHS {
        for p in PATHS {
            let expected = Path::new(dir).join(p).to_str().unwrap().to_string();
            assert_eq!(text(join(&chars(dir), &chars(p))), expected, "{dir:?} {p:?}");
        }
    }
}

#[test]
fn every_short_path_agrees_with_the_standard_library() {
    let letters = ['a', '.', '/'];
    for len in 0..7u32 {
        for n in 0..3usize.pow(len) {
            let mut p = String::new();
            let mut rest = n;
            for _ in 0..len {
                p.push(letters[rest % 3]);
                rest /= 3;
            }
            let path = Path::new(&p);
            let name = path.file_name().map(|n| n.to_str().unwrap().to_string());
            let stem = path.file_stem().map(|n| n.to_str().unwrap().to_string());
            assert_eq!(name_of(&chars(&p)).map(text), name, "{p:?}");
            assert_eq!(stem_of(&chars(&p)).map(text), stem, "{p:?}");
            let parent = path.parent().unwrap_or(Path::new("")).to_str().unwrap();
            assert_eq!(text(parent_of(&chars(&p))), parent, "{p:?}");
        }
    }
}
