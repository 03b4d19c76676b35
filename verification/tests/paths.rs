use altere_workbench::paths::{has_markdown_extension, join, paths_match, strip_prefix};
use altere_workbench::runtime::{failure_message, failure_of, CommandOutput};
use altere_workbench::selection::move_selection;
use altere_workbench::text::{
    copy_texts, decimal_text, is_text, repeat, same_text, trim, two_digit_text,
};
use std::path::Path;

const SPELLINGS: [&str; 24] = [
    "",
    ".",
    "..",
    "/",
    "//",
    "/.",
    "./",
    "a",
    "./a",
    "a/",
    "a/.",
    "/a",
    "/a/b",
    "/a//b",
    "/a/./b/",
    "a/b",
    "a/../b",
    "/collection",
    "/collection/note.md",
    "/collection/.md",
    "/collection/..md",
    "/collection/a.md/",
    "/collectionx/note.md",
    "/collection/é/note.tar.md",
];

#[test]
fn paths_compare_as_those_of_the_standard_library() {
    for a in SPELLINGS {
        for b in SPELLINGS {
            assert_eq!(paths_match(a, b), Path::new(a) == Path::new(b), "{a:?} {b:?}");
        }
    }
}

#[test]
fn bases_are_cut_off_as_by_the_standard_library() {
    for path in SPELLINGS {
        for base in SPELLINGS {
            assert_eq!(
                strip_prefix(path, base).as_deref(),
                Path::new(path).strip_prefix(base).ok().and_then(Path::to_str),
                "{path:?} {base:?}"
            );
        }
    }
}

#[test]
fn paths_join_as_in_the_standard_library() {
    for base in SPELLINGS {
        for tail in SPELLINGS {
            assert_eq!(
                Some(join(base, tail).as_str()),
                Path::new(base).join(tail).to_str(),
                "{base:?} {tail:?}"
            );
        }
    }
}

#[test]
fn extensions_are_those_of_the_standard_library() {
    for path in SPELLINGS {
        let extension = Path::new(path).extension().and_then(|extension| extension.to_str());
        assert_eq!(has_markdown_extension(path), extension == Some("md"), "{path:?}");
    }
}

#[test]
fn a_path_that_was_cut_off_joins_back() {
    for path in SPELLINGS {
        for base in SPELLINGS {
            if let Some(rest) = strip_prefix(path, base) {
                assert!(paths_match(&join(base, &rest), path), "{path:?} {base:?}");
            }
        }
    }
}

#[test]
fn numbers_are_written_in_decimal() {
    for n in [0, 9, 10, 99, 100, 1234567890, usize::MAX] {
        assert_eq!(decimal_text(n), n.to_string());
        assert_eq!(two_digit_text(n), format!("{n:02}"));
    }
}

#[test]
fn white_space_is_trimmed_as_by_the_standard_library() {
    for text in ["", " ", "a", " a b \n", "\u{2003}\u{3000}x\u{85}", "\u{200b}x\u{feff}", "\t\u{b}é"] {
        assert_eq!(trim(text), text.trim(), "{text:?}");
    }
    for c in (0u32..0x3100).filter_map(char::from_u32) {
        assert_eq!(trim(&c.to_string()), c.to_string().trim());
    }
}

#[test]
fn texts_are_compared_copied_and_repeated() {
    assert!(same_text("é", "é"));
    assert!(!same_text("é", "e\u{301}"));
    assert!(!same_text("a", "ab"));
    assert!(is_text(Some("x"), "x") && !is_text(None, "x"));
    assert_eq!(repeat("ab", 3), "ababab");
    assert_eq!(repeat("ab", 0), "");
    assert_eq!(copy_texts(&["a".to_string(), "b".to_string()]), ["a", "b"]);
}

#[test]
fn failures_are_told_with_what_was_written() {
    assert_eq!(failure_message("It failed", " why \n"), "It failed: why");
    let output = |success, stderr: &[u8]| CommandOutput {
        success,
        stdout: Vec::new(),
        stderr: stderr.to_vec(),
    };
    assert_eq!(failure_of(&output(true, b"warning"), "It failed"), None);
    for stderr in [&b"plain"[..], b"\xf0\x9f\x92 torn", b"\xff\xfe", "\u{2028}é ".as_bytes()] {
        assert_eq!(
            failure_of(&output(false, stderr), "It failed"),
            Some(format!("It failed: {}", String::from_utf8_lossy(stderr).trim()))
        );
    }
}

#[test]
fn selections_saturate_at_every_distance() {
    assert_eq!(move_selection(5, 10, isize::MIN), 0);
    assert_eq!(move_selection(5, 10, isize::MAX), 9);
    assert_eq!(move_selection(usize::MAX, 10, isize::MIN), 9);
    assert_eq!(move_selection(usize::MAX, usize::MAX, isize::MIN), usize::MAX / 2);
    assert_eq!(move_selection(3, 10, -2), 1);
}
