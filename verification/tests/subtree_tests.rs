use qt_cargo_base::error::GenError;
use qt_cargo_base::forwarding::write_all_forwarding_headers;
use qt_cargo_base::header::HeaderFile;
use qt_cargo_base::subtree::{write_subtree_forwarding_headers, Subtree};

fn header(path: &str, canonical: Option<&str>, content: Option<&str>) -> HeaderFile {
    HeaderFile::new(
        path.to_string(),
        canonical.map(|c| c.to_string()),
        content.map(|c| c.as_bytes().to_vec()),
    )
}

fn module_headers() -> Vec<HeaderFile> {
    vec![
        header("src/qfoo.h", Some("/qt/src/qfoo.h"), Some("class Q_EXPORT QFoo { };")),
        header("src/qfoo_p.h", Some("/qt/src/qfoo_p.h"), None),
        header("src/qbar.h", Some("/qt/src/qbar.h"), Some("class QBar { }; class QBaz { };")),
        header("src/qbar_p.h", Some("/qt/src/qbar_p.h"), None),
    ]
}

fn paths(headers: &Vec<HeaderFile>, subtree: Subtree) -> Vec<String> {
    write_subtree_forwarding_headers(headers, "/out/QtCore", "Q", subtree)
        .unwrap()
        .into_iter()
        .map(|f| f.path)
        .collect()
}

#[test]
fn each_half_holds_the_headers_of_its_subtree() {
    let headers = module_headers();
    assert_eq!(
        paths(&headers, Subtree::Public),
        vec![
            "/out/QtCore/qfoo.h",
            "/out/QtCore/QFoo",
            "/out/QtCore/qbar.h",
            "/out/QtCore/QBar",
            "/out/QtCore/QBaz",
        ]
    );
    assert_eq!(
        paths(&headers, Subtree::Private),
        vec!["/out/QtCore/private/qfoo_p.h", "/out/QtCore/private/qbar_p.h"]
    );
}

#[test]
fn the_two_halves_share_no_path_and_make_up_the_whole() {
    let headers = module_headers();
    let public = paths(&headers, Subtree::Public);
    let private = paths(&headers, Subtree::Private);
    for path in &public {
        assert!(!private.contains(path));
    }
    let mut both: Vec<String> = public.into_iter().chain(private).collect();
    let mut whole: Vec<String> = write_all_forwarding_headers(&headers, "/out/QtCore", "Q")
        .unwrap()
        .into_iter()
        .map(|f| f.path)
        .collect();
    both.sort();
    whole.sort();
    assert_eq!(both, whole);
}

#[test]
fn a_half_does_not_fail_on_the_other_halfs_headers() {
    let headers = vec![
        header("src/ok.h", Some("/qt/src/ok.h"), Some("class QOk { };")),
        header("src/gone_p.h", None, None),
    ];
    assert_eq!(
        write_subtree_forwarding_headers(&headers, "/o", "Q", Subtree::Public).map(|f| f.len()),
        Ok(2)
    );
    assert_eq!(
        write_subtree_forwarding_headers(&headers, "/o", "Q", Subtree::Private),
        Err(GenError::PathResolutionError { path: "src/gone_p.h".to_string() })
    );
}
