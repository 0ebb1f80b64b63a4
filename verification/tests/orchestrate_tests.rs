use qt_cargo_base::builder::BuildSettings;
use qt_cargo_base::configure::{QtConfiguration, Scope};
use qt_cargo_base::error::GenError;
use qt_cargo_base::header::{GeneratedFile, HeaderFile};
use qt_cargo_base::orchestrate::{
    advance, generate, output_directories, plan_build, step_at, BuildPlan, Step,
};

fn core_mod() -> QtConfiguration {
    let mut config = QtConfiguration::new();
    config.set_module_name("CoreMod");
    config.set_sentinel("W");
    config.set_feature(Scope::ModulePublic, "THREAD", true);
    config.set_define(Scope::ModulePublic, "VERSION", "1");
    config.add_header(HeaderFile::new(
        "src/foo.h".to_string(),
        Some("/work/src/foo.h".to_string()),
        Some(b"class API Widget {};".to_vec()),
    ));
    config.add_header(HeaderFile::new(
        "src/bar_p.h".to_string(),
        Some("/work/src/bar_p.h".to_string()),
        Some(b"class WidgetPrivate {};".to_vec()),
    ));
    config.add_source("src/foo.cpp");
    config
}

fn content_of<'a>(files: &'a [GeneratedFile], path: &str) -> &'a str {
    let found: Vec<&GeneratedFile> = files.iter().filter(|f| f.path == path).collect();
    assert_eq!(found.len(), 1, "{}", path);
    found[0].content.as_str()
}

#[test]
fn end_to_end_scenario() {
    let config = core_mod();
    let files = generate(&config, "/work/out", None).unwrap();

    let module_config = content_of(&files, "/work/out/coremod/coremod-config.h");
    assert!(module_config.contains("#define QT_FEATURE_THREAD 1"));
    assert!(module_config.contains("#define VERSION 1"));
    assert_eq!(module_config, "#define QT_FEATURE_THREAD 1\n\n#define VERSION 1\n");

    assert_eq!(
        content_of(&files, "/work/out/forwarding/CoreMod/foo.h"),
        "#include \"../../../src/foo.h\"\n"
    );
    assert_eq!(
        content_of(&files, "/work/out/forwarding/CoreMod/Widget"),
        "#include \"../../../src/foo.h\"\n"
    );
    assert_eq!(
        content_of(&files, "/work/out/forwarding/CoreMod/private/bar_p.h"),
        "#include \"../../../../src/bar_p.h\"\n"
    );

    let paths: Vec<&str> = files.iter().map(|f| f.path.as_str()).collect();
    assert_eq!(
        paths,
        vec![
            "/work/out/coremod/qconfig.h",
            "/work/out/coremod/private/qconfig_p.h",
            "/work/out/coremod/coremod-config.h",
            "/work/out/coremod/private/coremod-config_p.h",
            "/work/out/forwarding/CoreMod/foo.h",
            "/work/out/forwarding/CoreMod/Widget",
            "/work/out/forwarding/CoreMod/private/bar_p.h",
        ]
    );
}

#[test]
fn the_output_tree_has_six_directories() {
    assert_eq!(
        output_directories(&core_mod(), "/work/out"),
        vec![
            "/work/out",
            "/work/out/coremod",
            "/work/out/coremod/private",
            "/work/out/forwarding",
            "/work/out/forwarding/CoreMod",
            "/work/out/forwarding/CoreMod/private",
        ]
    );
}

#[test]
fn generating_twice_gives_the_same_files() {
    let first = generate(&core_mod(), "/work/out", None);
    let second = generate(&core_mod(), "/work/out", None);
    assert!(first.is_ok());
    assert_eq!(first, second);
    let plan_one = plan_build(core_mod(), "/work/out", None, BuildSettings::new());
    let plan_two = plan_build(core_mod(), "/work/out", None, BuildSettings::new());
    assert_eq!(plan_one, plan_two);
}

#[test]
fn the_plan_registers_directories_and_sources() {
    let mut builder = BuildSettings::new();
    builder.include_dir("/usr/include");
    builder.file("first.cpp");
    let plan = plan_build(core_mod(), "out", None, builder).unwrap();
    assert_eq!(
        plan.directories,
        vec![
            "out",
            "out/coremod",
            "out/coremod/private",
            "out/forwarding",
            "out/forwarding/CoreMod",
            "out/forwarding/CoreMod/private",
        ]
    );
    assert_eq!(
        plan.settings.include_dirs,
        vec![
            "/usr/include",
            "out",
            "out/coremod",
            "out/coremod/private",
            "out/forwarding",
            "out/forwarding/CoreMod",
            "out/forwarding/CoreMod/private",
        ]
    );
    assert_eq!(plan.settings.files, vec!["first.cpp", "src/foo.cpp"]);
    assert_eq!(plan.files.len(), 7);
}

#[test]
fn a_failure_leaves_no_plan() {
    let mut config = core_mod();
    config.add_header(HeaderFile::new("src/gone.h".to_string(), None, Some(Vec::new())));
    assert_eq!(
        plan_build(config, "/work/out", None, BuildSettings::new()),
        Err(GenError::PathResolutionError { path: "src/gone.h".to_string() })
    );
    let mut unread = core_mod();
    unread.add_header(HeaderFile::new(
        "src/unread.h".to_string(),
        Some("/work/src/unread.h".to_string()),
        None,
    ));
    assert_eq!(
        generate(&unread, "/work/out", None),
        Err(GenError::SourceNotFound { path: "src/unread.h".to_string() })
    );
    let mut blob = core_mod();
    blob.add_header(HeaderFile::new(
        "src/blob.h".to_string(),
        Some("/work/src/blob.h".to_string()),
        Some(vec![0xff]),
    ));
    assert_eq!(
        generate(&blob, "/work/out", None),
        Err(GenError::NonTextContent { path: "src/blob.h".to_string() })
    );
}

fn small_plan() -> BuildPlan {
    BuildPlan {
        directories: vec!["d0".to_string(), "d1".to_string()],
        files: vec![
            GeneratedFile { path: "d0/a".to_string(), content: "A".to_string() },
            GeneratedFile { path: "d1/b".to_string(), content: "B".to_string() },
            GeneratedFile { path: "d0/a".to_string(), content: "C".to_string() },
        ],
        settings: BuildSettings::new(),
    }
}

#[test]
fn steps_come_in_order_and_the_compiler_runs_once() {
    let plan = small_plan();
    let mut steps: Vec<Step> = Vec::new();
    let mut position = 0;
    loop {
        let step = step_at(&plan, position);
        if step == Step::Finished {
            break;
        }
        steps.push(step);
        position = advance(&plan, position, None).unwrap();
    }
    assert_eq!(
        steps,
        vec![
            Step::CreateDirectory { path: "d0".to_string() },
            Step::CreateDirectory { path: "d1".to_string() },
            Step::WriteFile { path: "d0/a".to_string(), content: "A".to_string() },
            Step::WriteFile { path: "d1/b".to_string(), content: "B".to_string() },
            Step::WriteFile { path: "d0/a".to_string(), content: "C".to_string() },
            Step::Compile,
        ]
    );
    assert_eq!(step_at(&plan, 6), Step::Finished);
    assert_eq!(step_at(&plan, 1000), Step::Finished);
}

#[test]
fn a_failed_step_ends_the_build_with_its_error() {
    let plan = small_plan();
    assert_eq!(
        advance(&plan, 1, Some("permission denied")),
        Err(GenError::DirectoryCreationFailure { path: "d1".to_string() })
    );
    assert_eq!(
        advance(&plan, 3, Some("disk full")),
        Err(GenError::WriteFailure { path: "d1/b".to_string() })
    );
    assert_eq!(
        advance(&plan, 5, Some("foo.cpp:1: error: expected ';'")),
        Err(GenError::CompilerFailure { diagnostic: "foo.cpp:1: error: expected ';'".to_string() })
    );
    assert_eq!(advance(&plan, 0, None), Ok(1));
    assert_eq!(advance(&plan, 5, None), Ok(6));
}

#[test]
fn an_empty_plan_only_compiles() {
    let plan = BuildPlan {
        directories: Vec::new(),
        files: Vec::new(),
        settings: BuildSettings::new(),
    };
    assert_eq!(step_at(&plan, 0), Step::Compile);
    assert_eq!(step_at(&plan, 1), Step::Finished);
}

#[test]
fn every_error_says_what_failed() {
    let errors = vec![
        (GenError::SourceNotFound { path: "a.h".to_string() }, "Unable to read file a.h"),
        (GenError::NonTextContent { path: "b.h".to_string() }, "Non-UTF8 source code in b.h"),
        (
            GenError::PathResolutionError { path: "c.h".to_string() },
            "Unable to create forwarding path to c.h",
        ),
        (
            GenError::DirectoryCreationFailure { path: "out/d".to_string() },
            "Unable to create directory out/d",
        ),
        (GenError::WriteFailure { path: "out/e.h".to_string() }, "Unable to write file out/e.h"),
        (
            GenError::CompilerFailure { diagnostic: "cc exited with 1".to_string() },
            "Compiler failed: cc exited with 1",
        ),
    ];
    for (error, message) in errors {
        assert_eq!(error.message(), message);
        assert!(message.ends_with(error.subject()));
    }
}
