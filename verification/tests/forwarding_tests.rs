use std::path::{Component, Path, PathBuf};

use qt_cargo_base::error::GenError;
use qt_cargo_base::forwarding::{
    private_directory, write_all_forwarding_headers, write_class_forwarding_header,
    write_class_forwarding_headers, write_forwarding_header, write_forwarding_headers,
    write_header_forwarding,
};
use qt_cargo_base::header::{path_is_private, GeneratedFile, HeaderFile};
use qt_cargo_base::resolve::{
    include_statement, resolve, resolved_path, write_forwarding_header_2,
};

fn header(path: &str, canonical: Option<&str>, content: Option<&str>) -> HeaderFile {
    HeaderFile::new(
        path.to_string(),
        canonical.map(|c| c.to_string()),
        content.map(|c| c.as_bytes().to_vec()),
    )
}

fn file(path: &str, content: &str) -> GeneratedFile {
    GeneratedFile { path: path.to_string(), content: content.to_string() }
}

/// Follows `relative` from the directory `from`, component by component.
fn follow(from: &str, relative: &str) -> PathBuf {
    let mut at = PathBuf::from(from);
    for component in Path::new(relative).components() {
        match component {
            Component::ParentDir => {
                at.pop();
            }
            Component::CurDir => {}
            other => at.push(other.as_os_str()),
        }
    }
    at
}

#[test]
fn include_statement_is_one_quoted_line() {
    assert_eq!(include_statement("../src/foo.h"), "#include \"../src/foo.h\"\n");
    assert_eq!(include_statement(""), "#include \"\"\n");
}

#[test]
fn without_a_relative_path_nothing_is_resolved() {
    assert_eq!(
        resolved_path("src/foo.h", Some("../src/foo.h".to_string())),
        Ok("../src/foo.h".to_string())
    );
    assert_eq!(
        resolved_path("src/foo.h", None),
        Err(GenError::PathResolutionError { path: "src/foo.h".to_string() })
    );
}

#[test]
fn relative_path_leads_from_the_directory_to_the_canonical_target() {
    let target = header("src/foo.h", Some("/work/qt/src/foo.h"), None);
    assert_eq!(resolve("/work/out/fwd", &target), Ok("../../qt/src/foo.h".to_string()));
    assert_eq!(resolve("/work/qt/src/gen", &target), Ok("../foo.h".to_string()));
    assert_eq!(resolve("/work/qt/src/gen/", &target), Ok("../foo.h".to_string()));
    assert_eq!(resolve("/work/qt", &target), Ok("src/foo.h".to_string()));
    assert_eq!(resolve("/", &target), Ok("work/qt/src/foo.h".to_string()));
    assert_eq!(resolve("relative/dir", &target), Ok("/work/qt/src/foo.h".to_string()));
}

#[test]
fn forwarding_header_includes_its_target() {
    let target = header("src/foo.h", Some("/work/qt/src/foo.h"), None);
    assert_eq!(
        write_forwarding_header_2("/work/out/QtCore/foo.h", &target),
        Ok(file("/work/out/QtCore/foo.h", "#include \"../../qt/src/foo.h\"\n"))
    );
}

#[test]
fn a_target_that_does_not_exist_is_a_failure() {
    let missing = header("src/gone.h", None, None);
    assert_eq!(
        resolve("/work/out", &missing),
        Err(GenError::PathResolutionError { path: "src/gone.h".to_string() })
    );
    assert_eq!(
        write_forwarding_header_2("/work/out/gone.h", &missing),
        Err(GenError::PathResolutionError { path: "src/gone.h".to_string() })
    );
    assert_eq!(
        write_forwarding_header("/work/out", &missing),
        Err(GenError::PathResolutionError { path: "src/gone.h".to_string() })
    );
}

#[test]
fn a_relative_directory_cannot_reach_an_absolute_target_by_walking_up() {
    // From a relative base that starts with `..` no relative path is built.
    let target = header("foo.h", Some("work/foo.h"), None);
    assert_eq!(
        write_forwarding_header_2("../out/foo.h", &target),
        Err(GenError::PathResolutionError { path: "foo.h".to_string() })
    );
}

#[test]
fn a_header_path_without_a_directory_cannot_be_resolved() {
    let target = header("foo.h", Some("/work/foo.h"), None);
    assert_eq!(
        write_forwarding_header_2("/", &target),
        Err(GenError::PathResolutionError { path: "foo.h".to_string() })
    );
    assert_eq!(
        write_forwarding_header_2("", &target),
        Err(GenError::PathResolutionError { path: "foo.h".to_string() })
    );
}

#[test]
fn following_the_include_path_leads_back_to_the_target() {
    let targets = ["/work/qt/src/corelib/global/qglobal.h", "/qglobal.h", "/a/b/c/d/e.h"];
    let directories = [
        "/work/out/forwarding/QtCore",
        "/work/qt/src/corelib/global",
        "/work/qt/src/corelib/global/private",
        "/",
        "/a",
        "/x/y/z",
    ];
    for canonical in targets {
        for directory in directories {
            let target = header("listed.h", Some(canonical), None);
            let made = write_forwarding_header(directory, &target).unwrap().unwrap();
            let relative = made
                .content
                .strip_prefix("#include \"")
                .and_then(|rest| rest.strip_suffix("\"\n"))
                .unwrap();
            assert_eq!(follow(directory, relative), PathBuf::from(canonical));
        }
    }
}

#[test]
fn forwarding_header_is_named_after_the_file() {
    let target = header("src/corelib/qfoo.h", Some("/qt/src/corelib/qfoo.h"), None);
    assert_eq!(
        write_forwarding_header("/out/QtCore", &target),
        Ok(Some(file("/out/QtCore/qfoo.h", "#include \"../../qt/src/corelib/qfoo.h\"\n")))
    );
    assert_eq!(
        write_forwarding_header("/out/QtCore/", &target),
        Ok(Some(file("/out/QtCore/qfoo.h", "#include \"../../qt/src/corelib/qfoo.h\"\n")))
    );
}

#[test]
fn a_target_without_a_file_name_gets_no_header() {
    assert_eq!(write_forwarding_header("/out", &header("src/..", Some("/qt"), None)), Ok(None));
    assert_eq!(write_forwarding_header("/out", &header("/", Some("/"), None)), Ok(None));
    assert_eq!(write_forwarding_header("/out", &header("", None, None)), Ok(None));
}

#[test]
fn forwarding_headers_come_in_the_order_of_the_headers() {
    let headers = vec![
        header("b.h", Some("/s/b.h"), None),
        header("", None, None),
        header("a.h", Some("/s/a.h"), None),
    ];
    assert_eq!(
        write_forwarding_headers("/o", &headers),
        Ok(vec![
            file("/o/b.h", "#include \"../s/b.h\"\n"),
            file("/o/a.h", "#include \"../s/a.h\"\n"),
        ])
    );
    assert_eq!(write_forwarding_headers("/o", &Vec::new()), Ok(Vec::new()));
}

#[test]
fn the_first_failure_ends_the_generation() {
    let headers = vec![
        header("a.h", Some("/s/a.h"), None),
        header("gone.h", None, None),
        header("also_gone.h", None, None),
    ];
    assert_eq!(
        write_forwarding_headers("/o", &headers),
        Err(GenError::PathResolutionError { path: "gone.h".to_string() })
    );
}

#[test]
fn two_headers_with_one_base_name_are_both_listed() {
    let headers = vec![
        header("x/same.h", Some("/s/x/same.h"), None),
        header("y/same.h", Some("/s/y/same.h"), None),
    ];
    let files = write_forwarding_headers("/o", &headers).unwrap();
    assert_eq!(
        files,
        vec![
            file("/o/same.h", "#include \"../s/x/same.h\"\n"),
            file("/o/same.h", "#include \"../s/y/same.h\"\n"),
        ]
    );
}

#[test]
fn type_name_headers_include_the_header_that_declares_them() {
    let target = header(
        "src/qobject.h",
        Some("/qt/src/qobject.h"),
        Some("class Q_CORE_EXPORT QObject { };\nclass QSignalBlocker { };\n"),
    );
    assert_eq!(
        write_class_forwarding_header("/out/QtCore", &target, "Q"),
        Ok(vec![
            file("/out/QtCore/QObject", "#include \"../../qt/src/qobject.h\"\n"),
            file("/out/QtCore/QSignalBlocker", "#include \"../../qt/src/qobject.h\"\n"),
        ])
    );
}

#[test]
fn a_header_that_cannot_be_read_is_a_failure() {
    let target = header("src/qobject.h", Some("/qt/src/qobject.h"), None);
    assert_eq!(
        write_class_forwarding_header("/out", &target, "Q"),
        Err(GenError::SourceNotFound { path: "src/qobject.h".to_string() })
    );
}

#[test]
fn a_header_that_is_not_text_is_a_failure() {
    let target = HeaderFile::new(
        "src/blob.h".to_string(),
        Some("/qt/src/blob.h".to_string()),
        Some(vec![0x63, 0x6c, 0xff, 0x00]),
    );
    assert_eq!(
        write_class_forwarding_header("/out", &target, "Q"),
        Err(GenError::NonTextContent { path: "src/blob.h".to_string() })
    );
    assert_eq!(
        target.declared_type_names("Q"),
        Err(GenError::NonTextContent { path: "src/blob.h".to_string() })
    );
}

#[test]
fn a_header_without_classes_needs_no_canonical_path_for_its_type_names() {
    let target = header("src/plain.h", None, Some("int f();\n"));
    assert_eq!(write_class_forwarding_header("/out", &target, "Q"), Ok(Vec::new()));
    let with_class = header("src/q.h", None, Some("class QFoo { };"));
    assert_eq!(
        write_class_forwarding_header("/out", &with_class, "Q"),
        Err(GenError::PathResolutionError { path: "src/q.h".to_string() })
    );
}

#[test]
fn type_name_headers_of_several_headers() {
    let headers = vec![
        header("a.h", Some("/s/a.h"), Some("class QA { };")),
        header("b.h", Some("/s/b.h"), Some("no classes here")),
        header("c.h", Some("/s/c.h"), Some("class X_EXPORT QC : public QA { };")),
    ];
    assert_eq!(
        write_class_forwarding_headers("/o", &headers, "Q"),
        Ok(vec![file("/o/QA", "#include \"../s/a.h\"\n"), file("/o/QC", "#include \"../s/c.h\"\n")])
    );
}

#[test]
fn private_headers_are_told_by_their_file_name() {
    assert!(path_is_private("src/qobject_p.h"));
    assert!(path_is_private("qobject_p.h"));
    assert!(path_is_private("src/qobject_p.h.in"));
    assert!(path_is_private("_p.h"));
    assert!(!path_is_private("src/qobject.h"));
    assert!(!path_is_private("src_p.h/qobject.h"));
    assert!(!path_is_private("qobject_p."));
    assert!(!path_is_private("qobject_p_h"));
    assert!(!path_is_private("qobject_p"));
    assert!(!path_is_private(""));
    assert!(!path_is_private("/"));
    assert!(header("a/b_p.h", None, None).is_private());
    assert!(!header("a/b.h", None, None).is_private());
}

#[test]
fn the_private_directory_lies_below_the_destination() {
    assert_eq!(private_directory("/out/QtCore"), "/out/QtCore/private");
    assert_eq!(private_directory("/out/QtCore/"), "/out/QtCore/private");
    assert_eq!(private_directory(""), "private");
}

#[test]
fn private_headers_go_to_the_private_directory() {
    let private = header("src/qfoo_p.h", Some("/qt/src/qfoo_p.h"), Some("class QFooPrivate { };"));
    assert_eq!(
        write_header_forwarding("/out/QtCore", &private, "Q"),
        Ok(vec![file("/out/QtCore/private/qfoo_p.h", "#include \"../../../qt/src/qfoo_p.h\"\n")])
    );
}

#[test]
fn public_headers_get_file_name_and_type_name_headers() {
    let public = header("src/qfoo.h", Some("/qt/src/qfoo.h"), Some("class QFoo { };"));
    assert_eq!(
        write_header_forwarding("/out/QtCore", &public, "Q"),
        Ok(vec![
            file("/out/QtCore/qfoo.h", "#include \"../../qt/src/qfoo.h\"\n"),
            file("/out/QtCore/QFoo", "#include \"../../qt/src/qfoo.h\"\n"),
        ])
    );
}

#[test]
fn a_private_header_is_not_scanned() {
    let private = HeaderFile::new(
        "src/blob_p.h".to_string(),
        Some("/qt/src/blob_p.h".to_string()),
        None,
    );
    assert_eq!(
        write_header_forwarding("/o", &private, "Q"),
        Ok(vec![file("/o/private/blob_p.h", "#include \"../../qt/src/blob_p.h\"\n")])
    );
}

#[test]
fn all_forwarding_headers_of_a_module() {
    let headers = vec![
        header("src/qfoo.h", Some("/qt/src/qfoo.h"), Some("class Q_EXPORT QFoo { };")),
        header("src/qfoo_p.h", Some("/qt/src/qfoo_p.h"), Some("class QFooPrivate { };")),
        header("src/qbar.h", Some("/qt/src/qbar.h"), Some("struct QBar { };")),
    ];
    assert_eq!(
        write_all_forwarding_headers(&headers, "/out/QtCore", "Q"),
        Ok(vec![
            file("/out/QtCore/qfoo.h", "#include \"../../qt/src/qfoo.h\"\n"),
            file("/out/QtCore/QFoo", "#include \"../../qt/src/qfoo.h\"\n"),
            file("/out/QtCore/private/qfoo_p.h", "#include \"../../../qt/src/qfoo_p.h\"\n"),
            file("/out/QtCore/qbar.h", "#include \"../../qt/src/qbar.h\"\n"),
        ])
    );
}

#[test]
fn public_and_private_headers_never_share_a_path() {
    let headers = vec![
        header("a/private.h", Some("/s/a/private.h"), Some("class Qprivate { };")),
        header("a/private_p.h", Some("/s/a/private_p.h"), None),
        header("b/x.h", Some("/s/b/x.h"), Some("class QX { }; class QY { };")),
        header("b/x_p.h", Some("/s/b/x_p.h"), None),
    ];
    let files = write_all_forwarding_headers(&headers, "/o", "Q").unwrap();
    let (private, public): (Vec<_>, Vec<_>) =
        files.iter().partition(|f| f.path.starts_with("/o/private/"));
    assert_eq!(private.len(), 2);
    assert_eq!(public.len(), 5);
    for f in &public {
        assert_eq!(Path::new(&f.path).parent(), Some(Path::new("/o")));
    }
    for f in &private {
        assert_eq!(Path::new(&f.path).parent(), Some(Path::new("/o/private")));
    }
}
