//! What the compiler is told: a plain record of the settings of one compiler
//! run, and the functions that fill it in for a build of Qt.
//!
//! Nothing here runs a compiler. The record is handed to the compiler driver
//! when all headers have been generated.

use vstd::prelude::*;
use vstd::string::*;
use crate::paths::{join, path_join};

verus! {

/// The settings of one compiler run.
#[derive(Debug, PartialEq, Eq)]
pub struct BuildSettings {
    /// The triple of the machine that compiles.
    pub host: Option<String>,
    /// The triple of the machine that the code is compiled for.
    pub target: Option<String>,
    /// The optimisation level.
    pub opt_level: Option<u32>,
    /// Where the compiler puts what it builds.
    pub out_dir: Option<String>,
    /// How many compile jobs may run at once.
    pub jobs: Option<usize>,
    /// Whether the sources are C++.
    pub cpp: bool,
    /// Further flags for the compiler, in order.
    pub flags: Vec<String>,
    /// The include directories, in the order in which they are searched.
    pub include_dirs: Vec<String>,
    /// The source files to compile.
    pub files: Vec<String>,
    /// The macros defined on the command line, each with its value if it has
    /// one.
    pub defines: Vec<(String, Option<String>)>,
}

/// The mathematical value of a [`BuildSettings`].
pub struct BuildView {
    pub host: Option<Seq<char>>,
    pub target: Option<Seq<char>>,
    pub opt_level: Option<u32>,
    pub out_dir: Option<Seq<char>>,
    pub jobs: Option<usize>,
    pub cpp: bool,
    pub flags: Seq<Seq<char>>,
    pub include_dirs: Seq<Seq<char>>,
    pub files: Seq<Seq<char>>,
    pub defines: Seq<(Seq<char>, Option<Seq<char>>)>,
}

impl View for BuildSettings {
    type V = BuildView;

    open spec fn view(&self) -> BuildView {
        BuildView {
            host: self.host.deep_view(),
            target: self.target.deep_view(),
            opt_level: self.opt_level,
            out_dir: self.out_dir.deep_view(),
            jobs: self.jobs,
            cpp: self.cpp,
            flags: self.flags.deep_view(),
            include_dirs: self.include_dirs.deep_view(),
            files: self.files.deep_view(),
            defines: self.defines.deep_view(),
        }
    }
}

/// Settings that say nothing yet.
pub open spec fn no_settings() -> BuildView {
    BuildView {
        host: None,
        target: None,
        opt_level: None,
        out_dir: None,
        jobs: None,
        cpp: false,
        flags: Seq::empty(),
        include_dirs: Seq::empty(),
        files: Seq::empty(),
        defines: Seq::empty(),
    }
}

/// The settings of a build that no build script drives: host and target are
/// fixed, nothing is optimised, `cpus` jobs run at once, and what is built
/// goes to `build_path`.
pub open spec fn standalone(settings: BuildView, build_path: Seq<char>, cpus: usize) -> BuildView {
    BuildView {
        host: Some("x86_64-unknown-linux"@),
        target: Some("x86_64-unknown-linux"@),
        opt_level: Some(0),
        jobs: Some(cpus),
        out_dir: Some(build_path),
        ..settings
    }
}

/// The settings for Qt's sources: C++ in the 2017 standard.
pub open spec fn for_qt_sources(settings: BuildView) -> BuildView {
    BuildView { cpp: true, flags: settings.flags.push("-std=c++17"@), ..settings }
}

/// The settings after configuring for a build of Qt. Under a build script,
/// which names the output directory in `out_dir`, only the language is set.
/// Without one the build stands alone and uses `build_path`.
pub open spec fn configured(
    settings: BuildView,
    out_dir: Option<Seq<char>>,
    build_path: Option<Seq<char>>,
    cpus: usize,
) -> BuildView {
    match out_dir {
        Some(_) => for_qt_sources(settings),
        None => for_qt_sources(standalone(settings, build_path->0, cpus)),
    }
}

/// Where the configuration of Qt is written: the build script's output
/// directory if there is one, else the build path.
pub open spec fn config_out_dir(
    out_dir: Option<Seq<char>>,
    build_path: Option<Seq<char>>,
) -> Seq<char> {
    match out_dir {
        Some(dir) => dir,
        None => build_path->0,
    }
}

/// Each of the first `n` files prefixed with `path`.
pub open spec fn prefixed(path: Seq<char>, files: Seq<Seq<char>>, n: nat) -> Seq<Seq<char>>
    decreases n,
{
    if n == 0 {
        Seq::empty()
    } else {
        prefixed(path, files, (n - 1) as nat).push(join(path, files[n - 1]))
    }
}

/// `num_cpus::get` returns the number of CPUs that the process may use. It
/// differs from machine to machine and from run to run, and is at least 1.
pub assume_specification[ num_cpus::get ]() -> (cpus: usize)
    ensures
        cpus >= 1,
;

impl BuildSettings {
    /// Settings that say nothing yet.
    pub fn new() -> (settings: BuildSettings)
        ensures
            settings@ == no_settings(),
    {
        let settings = BuildSettings {
            host: None,
            target: None,
            opt_level: None,
            out_dir: None,
            jobs: None,
            cpp: false,
            flags: Vec::new(),
            include_dirs: Vec::new(),
            files: Vec::new(),
            defines: Vec::new(),
        };
        assert(settings@.flags =~= Seq::empty());
        assert(settings@.include_dirs =~= Seq::empty());
        assert(settings@.files =~= Seq::empty());
        assert(settings@.defines =~= Seq::empty());
        settings
    }

    /// Adds `dir` to the include directories, after those already there.
    pub fn include_dir(&mut self, dir: &str)
        ensures
            final(self)@ == (BuildView {
                include_dirs: old(self)@.include_dirs.push(dir@),
                ..old(self)@
            }),
    {
        let ghost before = self.include_dirs.deep_view();
        self.include_dirs.push(String::from_str(dir));
        assert(self.include_dirs.deep_view() =~= before.push(dir@));
    }

    /// Adds `file` to the source files, after those already there.
    pub fn file(&mut self, file: &str)
        ensures
            final(self)@ == (BuildView { files: old(self)@.files.push(file@), ..old(self)@ }),
    {
        let ghost before = self.files.deep_view();
        self.files.push(String::from_str(file));
        assert(self.files.deep_view() =~= before.push(file@));
    }

    /// Adds `flag` to the compiler's flags, after those already there.
    pub fn flag(&mut self, flag: &str)
        ensures
            final(self)@ == (BuildView { flags: old(self)@.flags.push(flag@), ..old(self)@ }),
    {
        let ghost before = self.flags.deep_view();
        self.flags.push(String::from_str(flag));
        assert(self.flags.deep_view() =~= before.push(flag@));
    }

    /// Defines the macro `name` on the command line, with `value` if it has
    /// one.
    pub fn define(&mut self, name: &str, value: Option<&str>)
        ensures
            final(self)@ == (BuildView {
                defines: old(self)@.defines.push((name@, value.deep_view())),
                ..old(self)@
            }),
    {
        let ghost before = self.defines.deep_view();
        let owned = match value {
            Some(v) => Some(String::from_str(v)),
            None => None,
        };
        self.defines.push((String::from_str(name), owned));
        assert(self.defines.deep_view() =~= before.push((name@, value.deep_view())));
    }
}

impl Default for BuildSettings {
    fn default() -> (settings: BuildSettings)
        ensures
            settings@ == no_settings(),
    {
        BuildSettings::new()
    }
}

/// Sets what a build needs that no build script drives: the fixed host and
/// target, no optimisation, `cpus` jobs at once, and `qt_build_path` for what
/// is built.
pub fn use_standalone_defaults(builder: &mut BuildSettings, qt_build_path: &str, cpus: usize)
    ensures
        final(builder)@ == standalone(old(builder)@, qt_build_path@, cpus),
{
    builder.host = Some(String::from_str("x86_64-unknown-linux"));
    builder.target = Some(String::from_str("x86_64-unknown-linux"));
    builder.opt_level = Some(0);
    builder.jobs = Some(cpus);
    builder.out_dir = Some(String::from_str(qt_build_path));
}

/// Configures `builder` for a build of Qt and returns the directory where
/// Qt's configuration is to be written.
///
/// `out_dir` is the output directory that a build script names; with it only
/// the language is set. Without it the build stands alone: host and target
/// are fixed, and there are as many jobs as the machine has CPUs, so the
/// settings then depend on the machine. One of `out_dir` and `qt_build_path`
/// must be given.
pub fn configure_for_qt_build(
    builder: &mut BuildSettings,
    out_dir: Option<&str>,
    qt_build_path: Option<&str>,
) -> (qt_config_out_dir: String)
    requires
        out_dir is Some || qt_build_path is Some,
    ensures
        qt_config_out_dir@ == config_out_dir(out_dir.deep_view(), qt_build_path.deep_view()),
        exists|cpus: usize|
            cpus >= 1 && final(builder)@ == #[trigger] configured(
                old(builder)@,
                out_dir.deep_view(),
                qt_build_path.deep_view(),
                cpus,
            ),
{
    let ghost mut cpus: usize = 1;
    let qt_config_out_dir = match out_dir {
        Some(dir) => String::from_str(dir),
        None => {
            let build_path = match qt_build_path {
                Some(path) => path,
                None => "",
            };
            let available = num_cpus::get();
            proof {
                cpus = available;
            }
            use_standalone_defaults(builder, build_path, available);
            String::from_str(build_path)
        },
    };
    builder.cpp = true;
    builder.flag("-std=c++17");
    assert(builder@ == configured(
        old(builder)@,
        out_dir.deep_view(),
        qt_build_path.deep_view(),
        cpus,
    ));
    qt_config_out_dir
}

/// Adds each of `files`, prefixed with `path`, to the source files.
pub fn add_path_prefixed_files(builder: &mut BuildSettings, path: &str, files: &Vec<String>)
    ensures
        final(builder)@ == (BuildView {
            files: old(builder)@.files + prefixed(path@, files.deep_view(), files@.len()),
            ..old(builder)@
        }),
{
    let ghost before = builder@;
    let mut i: usize = 0;
    assert(before.files + prefixed(path@, files.deep_view(), 0) =~= before.files);
    while i < files.len()
        invariant
            i <= files@.len(),
            builder@ == (BuildView {
                files: before.files + prefixed(path@, files.deep_view(), i as nat),
                ..before
            }),
        decreases files@.len() - i,
    {
        proof {
            assert(files.deep_view()[i as int] == files@[i as int]@);
        }
        let prefixed_file = path_join(path, files[i].as_str());
        builder.file(prefixed_file.as_str());
        proof {
            let so_far = prefixed(path@, files.deep_view(), i as nat);
            assert((before.files + so_far).push(prefixed_file@) =~= before.files + so_far.push(
                prefixed_file@,
            ));
        }
        i += 1;
    }
}

} // verus!
