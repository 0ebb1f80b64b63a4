//! The build of QtCore for Linux with the configuration that is built in.

use vstd::prelude::*;
use vstd::string::*;
use crate::builder::{
    BuildSettings,
    BuildView,
    config_out_dir,
    configure_for_qt_build,
    configured,
};
use crate::configure::{
    ConfigView,
    QtConfiguration,
    configuration,
    default_configuration,
    empty_configuration,
    set_default_configuration,
    write_configuration,
};
use crate::error::{ErrorView, GenError};
use crate::forwarding::{
    all_forwarding_steps,
    collect,
    write_all_forwarding_headers,
};
use crate::header::{
    FileView,
    GeneratedFile,
    HeaderFile,
    HeaderView,
    and_then_files,
    files_outcome,
};
use crate::orchestrate::{forwarding_directory, output_directories, output_tree, with_inputs};
use crate::paths::{join, path_join};

verus! {

/// The built-in configuration of QtCore, with no headers and no sources.
pub open spec fn default_qtcore() -> ConfigView {
    default_configuration(empty_configuration())
}

/// The configuration files of the built-in QtCore below `destination`.
pub open spec fn default_configuration_files(
    destination: Seq<char>,
    platform: Option<HeaderView>,
) -> Result<Seq<FileView>, ErrorView> {
    configuration(default_qtcore(), destination, platform)
}

/// The forwarding headers of QtCore's `headers` below `destination`.
pub open spec fn qtcore_forwarding(
    destination: Seq<char>,
    headers: Seq<HeaderView>,
) -> Result<Seq<FileView>, ErrorView> {
    collect(
        all_forwarding_steps(
            forwarding_directory(default_qtcore(), destination),
            headers,
            default_qtcore().sentinel,
        ),
    )
}

/// The settings with the directories `from..to` of QtCore's output tree
/// below `destination` as further include directories.
pub open spec fn with_tree(
    settings: BuildView,
    destination: Seq<char>,
    from: int,
    to: int,
) -> BuildView {
    with_inputs(
        settings,
        output_tree(default_qtcore(), destination).subrange(from, to),
        Seq::empty(),
    )
}

/// Where QtCore's headers are found below the Qt sources.
pub open spec fn corelib_directory(qt_source: Seq<char>) -> Seq<char> {
    join(qt_source, "qtbase/src/corelib"@)
}

/// The header with the platform's definitions below the Qt sources, if the
/// configuration names one.
pub open spec fn platform_definitions(
    config: ConfigView,
    qt_source: Seq<char>,
) -> Option<Seq<char>> {
    match config.qplatformdefs_path {
        Some(path) => Some(join(qt_source, path)),
        None => None,
    }
}

/// Where QtCore's headers are found below the Qt sources at `qt_source_path`.
pub fn corelib_path(qt_source_path: &str) -> (path: String)
    ensures
        path@ == corelib_directory(qt_source_path@),
{
    path_join(qt_source_path, "qtbase/src/corelib")
}

/// The path of the header with the platform's definitions below the Qt
/// sources at `qt_source_path`, if `config` names one.
pub fn platform_definitions_path(config: &QtConfiguration, qt_source_path: &str) -> (path: Option<
    String,
>)
    ensures
        path.deep_view() == platform_definitions(config@, qt_source_path@),
{
    match config.qplatformdefs_path() {
        Some(relative) => Some(path_join(qt_source_path, relative)),
        None => None,
    }
}

/// Makes the configuration headers of the built-in QtCore below
/// `destination_path` and registers their three directories with `builder`
/// as include directories. Where a header cannot be made, `builder` stays as it
/// was.
pub fn write_default_qt_configuration(
    builder: &mut BuildSettings,
    destination_path: &str,
    platform_definitions: Option<&HeaderFile>,
) -> (files: Result<Vec<GeneratedFile>, GenError>)
    ensures
        files_outcome(files) == default_configuration_files(
            destination_path@,
            platform_definitions.deep_view(),
        ),
        final(builder)@ == if files is Ok {
            with_tree(old(builder)@, destination_path@, 0, 3)
        } else {
            old(builder)@
        },
{
    let mut qt_configuration = QtConfiguration::new();
    set_default_configuration(&mut qt_configuration);
    let files = write_configuration(&qt_configuration, destination_path, platform_definitions);
    if files.is_ok() {
        let directories = output_directories(&qt_configuration, destination_path);
        let ghost tree = output_tree(default_qtcore(), destination_path@);
        let ghost before = builder@;
        proof {
            assert(directories.deep_view()[0] == directories@[0]@);
            assert(directories.deep_view()[1] == directories@[1]@);
            assert(directories.deep_view()[2] == directories@[2]@);
        }
        builder.include_dir(directories[0].as_str());
        builder.include_dir(directories[1].as_str());
        builder.include_dir(directories[2].as_str());
        proof {
            assert(before.include_dirs.push(tree[0]).push(tree[1]).push(tree[2])
                =~= before.include_dirs + tree.subrange(0, 3));
            assert(before.files + Seq::<Seq<char>>::empty() =~= before.files);
        }
    }
    files
}

/// Makes the forwarding headers of QtCore's `headers` below
/// `destination_path` and registers their three directories with `builder`
/// as include directories. Where a header cannot be made, `builder` stays as it
/// was.
pub fn write_qtcore_forwarding_headers(
    builder: &mut BuildSettings,
    destination_path: &str,
    headers: &Vec<HeaderFile>,
) -> (files: Result<Vec<GeneratedFile>, GenError>)
    ensures
        files_outcome(files) == qtcore_forwarding(destination_path@, headers.deep_view()),
        final(builder)@ == if files is Ok {
            with_tree(old(builder)@, destination_path@, 3, 6)
        } else {
            old(builder)@
        },
{
    let mut qt_configuration = QtConfiguration::new();
    set_default_configuration(&mut qt_configuration);
    let directories = output_directories(&qt_configuration, destination_path);
    proof {
        assert(directories.deep_view()[3] == directories@[3]@);
        assert(directories.deep_view()[4] == directories@[4]@);
        assert(directories.deep_view()[5] == directories@[5]@);
    }
    let files = write_all_forwarding_headers(
        headers,
        directories[4].as_str(),
        qt_configuration.sentinel(),
    );
    if files.is_ok() {
        let ghost tree = output_tree(default_qtcore(), destination_path@);
        let ghost before = builder@;
        builder.include_dir(directories[3].as_str());
        builder.include_dir(directories[4].as_str());
        builder.include_dir(directories[5].as_str());
        proof {
            assert(before.include_dirs.push(tree[3]).push(tree[4]).push(tree[5])
                =~= before.include_dirs + tree.subrange(3, 6));
            assert(before.files + Seq::<Seq<char>>::empty() =~= before.files);
        }
    }
    files
}

/// What generating QtCore below `root` yields: its configuration files, then
/// its forwarding headers.
pub open spec fn linux_files(
    root: Seq<char>,
    platform: Option<HeaderView>,
    headers: Seq<HeaderView>,
) -> Result<Seq<FileView>, ErrorView> {
    and_then_files(default_configuration_files(root, platform), qtcore_forwarding(root, headers))
}

/// The settings that configuring QtCore for Linux leaves: those for a build
/// of Qt, with the directories of each kind of header as include directories
/// once the headers of that kind were made.
pub open spec fn linux_settings(
    configured: BuildView,
    root: Seq<char>,
    platform: Option<HeaderView>,
    headers: Seq<HeaderView>,
) -> BuildView {
    if default_configuration_files(root, platform) is Err {
        configured
    } else if qtcore_forwarding(root, headers) is Err {
        with_tree(configured, root, 0, 3)
    } else {
        with_tree(with_tree(configured, root, 0, 3), root, 3, 6)
    }
}

/// Configures the build of QtCore for Linux: sets up `builder` for Qt's
/// sources, makes the configuration headers and the forwarding headers, and
/// registers their directories with `builder`, configuration before
/// forwarding. The first failure ends it.
///
/// `out_dir` is the output directory that a build script names, and
/// `destination_path` the directory to use without one; one of the two must
/// be given.
pub fn configure_qtcore_for_linux(
    builder: &mut BuildSettings,
    out_dir: Option<&str>,
    destination_path: Option<&str>,
    platform_definitions: Option<&HeaderFile>,
    headers: &Vec<HeaderFile>,
) -> (files: Result<Vec<GeneratedFile>, GenError>)
    requires
        out_dir is Some || destination_path is Some,
    ensures
        files_outcome(files) == linux_files(
            config_out_dir(out_dir.deep_view(), destination_path.deep_view()),
            platform_definitions.deep_view(),
            headers.deep_view(),
        ),
        exists|cpus: usize|
            cpus >= 1 && final(builder)@ == linux_settings(
                #[trigger] configured(
                    old(builder)@,
                    out_dir.deep_view(),
                    destination_path.deep_view(),
                    cpus,
                ),
                config_out_dir(out_dir.deep_view(), destination_path.deep_view()),
                platform_definitions.deep_view(),
                headers.deep_view(),
            ),
{
    let qt_config_path = configure_for_qt_build(builder, out_dir, destination_path);
    let ghost cpus = choose|cpus: usize|
        cpus >= 1 && builder@ == #[trigger] configured(
            old(builder)@,
            out_dir.deep_view(),
            destination_path.deep_view(),
            cpus,
        );
    let mut files = match write_default_qt_configuration(
        builder,
        qt_config_path.as_str(),
        platform_definitions,
    ) {
        Err(e) => {
            return Err(e);
        },
        Ok(files) => files,
    };
    match write_qtcore_forwarding_headers(builder, qt_config_path.as_str(), headers) {
        Err(e) => Err(e),
        Ok(mut more) => {
            let ghost before = files.deep_view();
            let ghost added = more.deep_view();
            files.append(&mut more);
            assert(files.deep_view() =~= before + added);
            Ok(files)
        },
    }
}

} // verus!
