use std::path::Path;

use qt_cargo_base::paths::{
    has_extension, path_file_name, path_is_absolute, path_join, path_parent, target_location,
};

const SAMPLES: [&str; 44] = [
    "",
    "/",
    "//",
    ".",
    "./",
    "..",
    "../",
    "a",
    "a/",
    "a//",
    "a/.",
    "a/./",
    "a/..",
    "a/b",
    "a//b",
    "a/./b",
    "/a",
    "/a/",
    "/a/b",
    "//a",
    "/.",
    "/..",
    "/./a",
    "./a",
    ".//a",
    "./.",
    "./..",
    ".a",
    "a.",
    "a.h",
    ".h",
    "..h",
    "a.b.h",
    "dir.d/file",
    "dir/file.h",
    "dir/.hidden",
    "dir/file.",
    "/usr/include/qt/qglobal.h",
    "qtbase/src/corelib/global/qglobal_p.h",
    "...",
    "a/...",
    ".../a",
    "a/b/../c.h",
    "a/b/./.",
];

#[test]
fn file_name_matches_the_standard_library() {
    for sample in SAMPLES {
        let expected = Path::new(sample).file_name().map(|n| n.to_str().unwrap().to_string());
        assert_eq!(path_file_name(sample), expected, "file name of {:?}", sample);
    }
}

#[test]
fn parent_matches_the_standard_library() {
    for sample in SAMPLES {
        let expected = Path::new(sample).parent().map(|p| p.to_str().unwrap().to_string());
        assert_eq!(path_parent(sample), expected, "parent of {:?}", sample);
    }
}

#[test]
fn join_matches_the_standard_library() {
    for base in SAMPLES {
        for tail in SAMPLES {
            let expected = Path::new(base).join(tail).to_str().unwrap().to_string();
            assert_eq!(path_join(base, tail), expected, "join of {:?} and {:?}", base, tail);
        }
    }
}

#[test]
fn extension_matches_the_standard_library() {
    for sample in SAMPLES {
        let expected = Path::new(sample).extension().map(|e| e.to_str().unwrap().to_string());
        for wanted in ["h", "", "b.h", "d", "hidden", "cpp"] {
            assert_eq!(
                has_extension(sample, wanted),
                expected.as_deref() == Some(wanted),
                "extension of {:?} against {:?}",
                sample,
                wanted
            );
        }
    }
}

#[test]
fn absolute_matches_the_standard_library() {
    for sample in SAMPLES {
        assert_eq!(path_is_absolute(sample), Path::new(sample).is_absolute(), "{:?}", sample);
    }
}

#[test]
fn relative_targets_are_looked_for_below_the_current_directory() {
    assert_eq!(target_location("src/qglobal.h", "/work/qt"), "/work/qt/src/qglobal.h");
    assert_eq!(target_location("/abs/qglobal.h", "/work/qt"), "/abs/qglobal.h");
    assert_eq!(target_location("qglobal.h", "/"), "/qglobal.h");
}
