use qt_cargo_base::builder::{
    add_path_prefixed_files, configure_for_qt_build, use_standalone_defaults, BuildSettings,
};
use qt_cargo_base::error::GenError;
use qt_cargo_base::header::HeaderFile;
use qt_cargo_base::paths::path_join;
use qt_cargo_base::qtcore::{
    configure_qtcore_for_linux, corelib_path, platform_definitions_path,
    write_default_qt_configuration, write_qtcore_forwarding_headers,
};
use qt_cargo_base::configure::{set_default_configuration, QtConfiguration};
use qt_cargo_base::util::glob_files;

const QT_SOURCE: &str = "qt-src/";
const QT_BUILD: &str = "qt-cargo-base-test";

fn strings(items: &[&str]) -> Vec<String> {
    items.iter().map(|s| s.to_string()).collect()
}

fn qtcore_include_dirs() -> Vec<String> {
    strings(&[
        "qt-cargo-base-test",
        "qt-cargo-base-test/qtcore",
        "qt-cargo-base-test/qtcore/private",
        "qt-cargo-base-test/forwarding",
        "qt-cargo-base-test/forwarding/QtCore",
        "qt-cargo-base-test/forwarding/QtCore/private",
    ])
}

#[test]
fn build_qglobal() {
    let mut builder = BuildSettings::new();
    let files =
        configure_qtcore_for_linux(&mut builder, None, Some(QT_BUILD), None, &Vec::new()).unwrap();
    builder.file(&path_join(QT_SOURCE, "qtbase/src/corelib/global/qglobal.cpp"));

    assert_eq!(files.len(), 4);
    assert_eq!(builder.files, strings(&["qt-src/qtbase/src/corelib/global/qglobal.cpp"]));
    assert_eq!(builder.include_dirs, qtcore_include_dirs());
    assert_eq!(builder.out_dir.as_deref(), Some(QT_BUILD));
    assert!(builder.cpp);
    assert_eq!(builder.flags, strings(&["-std=c++17"]));
}

#[test]
fn build_moc() {
    let mut builder = BuildSettings::new();
    configure_qtcore_for_linux(&mut builder, None, Some(QT_BUILD), None, &Vec::new()).unwrap();
    add_path_prefixed_files(
        &mut builder,
        &path_join(QT_SOURCE, "qtbase/src/tools/moc"),
        &strings(&["moc.cpp", "generator.cpp", "parser.cpp"]),
    );

    builder.include_dir(&path_join(QT_SOURCE, "qtbase/src/3rdparty/tinycbor/src/"));
    builder.include_dir(&path_join(QT_SOURCE, "qtbase/src/tools/shared"));

    assert_eq!(
        builder.files,
        strings(&[
            "qt-src/qtbase/src/tools/moc/moc.cpp",
            "qt-src/qtbase/src/tools/moc/generator.cpp",
            "qt-src/qtbase/src/tools/moc/parser.cpp",
        ])
    );
    let mut expected = qtcore_include_dirs();
    expected.push("qt-src/qtbase/src/3rdparty/tinycbor/src/".to_string());
    expected.push("qt-src/qtbase/src/tools/shared".to_string());
    assert_eq!(builder.include_dirs, expected);
}

#[test]
fn build_bootstrap_library() {
    let mut builder = BuildSettings::new();

    configure_qtcore_for_linux(&mut builder, None, Some(QT_BUILD), None, &Vec::new()).unwrap();
    add_path_prefixed_files(
        &mut builder,
        &path_join(QT_SOURCE, "qtbase/src/corelib"),
        &strings(&["global/qglobal.cpp", "text/qstring.cpp"]),
    );

    builder.define("HAVE_CONFIG_H", None);
    builder.define("QT_VERSION_MAJOR", Some("6"));
    builder.define("QT_VERSION_MINOR", Some("2"));
    builder.define("QT_VERSION_PATCH", Some("0"));
    builder.define("QT_VERSION_STR", Some("\"6.2.0\""));
    builder.define("QT_USE_QSTRINGBUILDER", None);
    builder.define("QT_BOOTSTRAPPED", None);
    builder.define("QT_NO_CAST_FROM_ASCII", None);
    builder.define("QT_NO_CAST_TO_ASCII", None);
    builder.define("QT_NO_FOREACH", None);

    builder.include_dir(&path_join(QT_SOURCE, "qtbase/src/3rdparty/tinycbor/src/"));

    let defined: Vec<(&str, Option<&str>)> =
        builder.defines.iter().map(|(n, v)| (n.as_str(), v.as_deref())).collect();
    assert_eq!(
        defined,
        vec![
            ("HAVE_CONFIG_H", None),
            ("QT_VERSION_MAJOR", Some("6")),
            ("QT_VERSION_MINOR", Some("2")),
            ("QT_VERSION_PATCH", Some("0")),
            ("QT_VERSION_STR", Some("\"6.2.0\"")),
            ("QT_USE_QSTRINGBUILDER", None),
            ("QT_BOOTSTRAPPED", None),
            ("QT_NO_CAST_FROM_ASCII", None),
            ("QT_NO_CAST_TO_ASCII", None),
            ("QT_NO_FOREACH", None),
        ]
    );
    assert_eq!(
        builder.files,
        strings(&[
            "qt-src/qtbase/src/corelib/global/qglobal.cpp",
            "qt-src/qtbase/src/corelib/text/qstring.cpp",
        ])
    );
    assert_eq!(builder.include_dirs.last().unwrap(), "qt-src/qtbase/src/3rdparty/tinycbor/src/");
}

#[test]
fn new_settings_say_nothing() {
    let settings = BuildSettings::new();
    assert_eq!(settings.host, None);
    assert_eq!(settings.target, None);
    assert_eq!(settings.opt_level, None);
    assert_eq!(settings.out_dir, None);
    assert_eq!(settings.jobs, None);
    assert!(!settings.cpp);
    assert!(settings.flags.is_empty());
    assert!(settings.include_dirs.is_empty());
    assert!(settings.files.is_empty());
    assert!(settings.defines.is_empty());
    assert_eq!(settings, BuildSettings::default());
}

#[test]
fn a_build_script_names_the_output_directory() {
    let mut builder = BuildSettings::new();
    let dir = configure_for_qt_build(&mut builder, Some("/cargo/out"), Some("/ignored"));
    assert_eq!(dir, "/cargo/out");
    assert_eq!(builder.host, None);
    assert_eq!(builder.target, None);
    assert_eq!(builder.opt_level, None);
    assert_eq!(builder.out_dir, None);
    assert_eq!(builder.jobs, None);
    assert!(builder.cpp);
    assert_eq!(builder.flags, strings(&["-std=c++17"]));
}

#[test]
fn a_build_that_stands_alone_uses_the_build_path() {
    let mut builder = BuildSettings::new();
    builder.flag("-Wall");
    let dir = configure_for_qt_build(&mut builder, None, Some("/tmp/build"));
    assert_eq!(dir, "/tmp/build");
    assert_eq!(builder.host.as_deref(), Some("x86_64-unknown-linux"));
    assert_eq!(builder.target.as_deref(), Some("x86_64-unknown-linux"));
    assert_eq!(builder.opt_level, Some(0));
    assert_eq!(builder.out_dir.as_deref(), Some("/tmp/build"));
    assert!(builder.jobs.unwrap() >= 1);
    assert!(builder.cpp);
    assert_eq!(builder.flags, strings(&["-Wall", "-std=c++17"]));
}

#[test]
fn standalone_defaults_take_the_number_of_jobs_given() {
    let mut builder = BuildSettings::new();
    builder.include_dir("kept");
    use_standalone_defaults(&mut builder, "build", 12);
    assert_eq!(builder.jobs, Some(12));
    assert_eq!(builder.opt_level, Some(0));
    assert_eq!(builder.out_dir.as_deref(), Some("build"));
    assert_eq!(builder.include_dirs, strings(&["kept"]));
    assert!(!builder.cpp);
}

#[test]
fn prefixed_files_follow_those_already_there() {
    let mut builder = BuildSettings::new();
    builder.file("first.cpp");
    add_path_prefixed_files(&mut builder, "src/", &strings(&["a.cpp", "sub/b.cpp", "/abs/c.cpp"]));
    add_path_prefixed_files(&mut builder, "other", &Vec::new());
    assert_eq!(
        builder.files,
        strings(&["first.cpp", "src/a.cpp", "src/sub/b.cpp", "/abs/c.cpp"])
    );
}

#[test]
fn default_configuration_registers_its_directories() {
    let mut builder = BuildSettings::new();
    let files = write_default_qt_configuration(&mut builder, "out", None).unwrap();
    assert_eq!(files.len(), 4);
    assert_eq!(builder.include_dirs, strings(&["out", "out/qtcore", "out/qtcore/private"]));

    let mut untouched = BuildSettings::new();
    let missing = HeaderFile::new("qt/qplatformdefs.h".to_string(), None, None);
    assert_eq!(
        write_default_qt_configuration(&mut untouched, "out", Some(&missing)),
        Err(GenError::PathResolutionError { path: "qt/qplatformdefs.h".to_string() })
    );
    assert_eq!(untouched, BuildSettings::new());
}

#[test]
fn qtcore_forwarding_headers_register_their_directories() {
    let headers = vec![
        HeaderFile::new(
            "qt/qobject.h".to_string(),
            Some("/qt/qobject.h".to_string()),
            Some(b"class Q_CORE_EXPORT QObject { };".to_vec()),
        ),
        HeaderFile::new("qt/qobject_p.h".to_string(), Some("/qt/qobject_p.h".to_string()), None),
    ];
    let mut builder = BuildSettings::new();
    let files = write_qtcore_forwarding_headers(&mut builder, "/out", &headers).unwrap();
    let paths: Vec<&str> = files.iter().map(|f| f.path.as_str()).collect();
    assert_eq!(
        paths,
        vec![
            "/out/forwarding/QtCore/qobject.h",
            "/out/forwarding/QtCore/QObject",
            "/out/forwarding/QtCore/private/qobject_p.h",
        ]
    );
    assert_eq!(
        builder.include_dirs,
        strings(&["/out/forwarding", "/out/forwarding/QtCore", "/out/forwarding/QtCore/private"])
    );

    let mut untouched = BuildSettings::new();
    let gone = vec![HeaderFile::new("qt/gone.h".to_string(), None, None)];
    assert!(write_qtcore_forwarding_headers(&mut untouched, "/out", &gone).is_err());
    assert_eq!(untouched, BuildSettings::new());
}

#[test]
fn configuring_qtcore_under_a_build_script() {
    let platform = HeaderFile::new(
        "qt-src/qtbase/mkspecs/linux-clang/qplatformdefs.h".to_string(),
        Some("/w/qt-src/qtbase/mkspecs/linux-clang/qplatformdefs.h".to_string()),
        None,
    );
    let headers = vec![HeaderFile::new(
        "qt-src/qtbase/src/corelib/global/qglobal.h".to_string(),
        Some("/w/qt-src/qtbase/src/corelib/global/qglobal.h".to_string()),
        Some(b"class QFlag { };".to_vec()),
    )];
    let mut builder = BuildSettings::new();
    let files = configure_qtcore_for_linux(
        &mut builder,
        Some("/w/target/out"),
        None,
        Some(&platform),
        &headers,
    )
    .unwrap();
    let paths: Vec<&str> = files.iter().map(|f| f.path.as_str()).collect();
    assert_eq!(
        paths,
        vec![
            "/w/target/out/qtcore/qconfig.h",
            "/w/target/out/qtcore/private/qconfig_p.h",
            "/w/target/out/qtcore/qtcore-config.h",
            "/w/target/out/qtcore/private/qtcore-config_p.h",
            "/w/target/out/qtcore/qplatformdefs.h",
            "/w/target/out/forwarding/QtCore/qglobal.h",
            "/w/target/out/forwarding/QtCore/QFlag",
        ]
    );
    assert_eq!(
        files[4].content,
        "#include \"../../../qt-src/qtbase/mkspecs/linux-clang/qplatformdefs.h\"\n"
    );
    assert_eq!(builder.out_dir, None);
    assert_eq!(builder.include_dirs.len(), 6);
}

#[test]
fn a_failure_while_configuring_qtcore_keeps_what_was_registered() {
    let gone = vec![HeaderFile::new("qt/gone.h".to_string(), None, None)];
    let mut builder = BuildSettings::new();
    assert_eq!(
        configure_qtcore_for_linux(&mut builder, Some("/o"), None, None, &gone),
        Err(GenError::PathResolutionError { path: "qt/gone.h".to_string() })
    );
    assert_eq!(builder.include_dirs, strings(&["/o", "/o/qtcore", "/o/qtcore/private"]));
    assert!(builder.cpp);
}

#[test]
fn paths_below_the_qt_sources() {
    assert_eq!(corelib_path("qt-src/"), "qt-src/qtbase/src/corelib");
    assert_eq!(corelib_path("/opt/qt"), "/opt/qt/qtbase/src/corelib");
    let mut config = QtConfiguration::new();
    assert_eq!(platform_definitions_path(&config, "qt-src"), None);
    set_default_configuration(&mut config);
    assert_eq!(
        platform_definitions_path(&config, "qt-src").as_deref(),
        Some("qt-src/qtbase/mkspecs/linux-clang/qplatformdefs.h")
    );
}

#[test]
fn files_are_picked_by_their_extension() {
    let listing = strings(&[
        "src/a.h",
        "src/a.cpp",
        "src",
        "src/b_p.h",
        "src/.h",
        "src/c.h.in",
        "src/dir.h/d.hpp",
        "src/e.H",
        "src/f.h",
    ]);
    assert_eq!(glob_files(&listing, "h"), strings(&["src/a.h", "src/b_p.h", "src/f.h"]));
    assert_eq!(glob_files(&listing, "cpp"), strings(&["src/a.cpp"]));
    assert_eq!(glob_files(&listing, "in"), strings(&["src/c.h.in"]));
    assert_eq!(glob_files(&listing, ""), Vec::<String>::new());
    assert_eq!(glob_files(&Vec::new(), "h"), Vec::<String>::new());
}
