use std::path::{Path, PathBuf};

use rewrite_it::path::{file_name_text, join};

#[test]
fn joined_paths_are_those_of_the_standard_library() {
    for base in ["", "/", "a", "a/", "/a/b", ".local/share", "/home/ü/"] {
        for part in ["", "x", "x/y", "/abs", "Phi-4.gguf", "."] {
            let expected: PathBuf = Path::new(base).join(part);
            let got = join(base.as_bytes().to_vec(), part);
            assert_eq!(String::from_utf8(got).unwrap(), expected.to_str().unwrap());
        }
    }
}

#[test]
fn file_names_are_those_of_the_standard_library() {
    for path in [
        "", "/", "//", ".", "..", "./", "../", "a", "a/", "a/.", "a/./", "a//.//", "a/..", "a/b",
        "/a/b.gguf", "a/b/..", "./a", "/.", "/..", "...", "a/...", "..a", ".a", "a/.b/", "ü/é",
    ] {
        let expected = Path::new(path)
            .file_name()
            .map(|n| n.to_string_lossy().into_owned());
        assert_eq!(file_name_text(path.as_bytes()), expected, "{path:?}");
    }
}

#[test]
fn malformed_names_are_shown_with_replacement_characters() {
    assert_eq!(file_name_text(b"/m/a\xffb"), Some("a\u{fffd}b".to_string()));
}
