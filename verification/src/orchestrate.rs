//! The build orchestrator: what is generated for a module, where it goes, and
//! in which order the work is done.
//!
//! A build has four stages, each of which waits for the one before it: the
//! output directories are created; the configuration headers and the
//! forwarding headers are written; the directories become include
//! directories and the module's sources become the compiler's input; the
//! compiler runs, once. The first failure ends the build. The library
//! decides what each step is; the caller performs it and reports back.
//!
//! Below the output directory `<out>` the files of a module lie as follows.
//!
//! ```text
//! <out>/<module in lower case>/            public configuration headers
//! <out>/<module in lower case>/private/    private configuration headers
//! <out>/forwarding/<module>/               forwarding headers, public
//! <out>/forwarding/<module>/private/       forwarding headers, private
//! ```
//!
//! These four directories and the two above them, `<out>` and
//! `<out>/forwarding`, make up the output tree. All six become include
//! directories, so that a header is found by its name alone, by
//! `private/` and its name, and by the module's directory and its name.

use vstd::prelude::*;
use vstd::string::*;
use crate::builder::{BuildSettings, BuildView};
use crate::configure::{
    ConfigView,
    QtConfiguration,
    configuration,
    module_directory,
    write_configuration,
};
use crate::error::{ErrorView, GenError};
use crate::forwarding::{
    all_forwarding_steps,
    collect,
    private_destination,
    private_directory,
    write_all_forwarding_headers,
};
use crate::header::{
    FileView,
    GeneratedFile,
    HeaderFile,
    HeaderView,
    and_then_files,
    files_outcome,
};
use crate::paths::{join, path_join};
use crate::text::ascii_lowercase;

verus! {

/// The root of all forwarding headers below `out`.
pub open spec fn forwarding_root(out: Seq<char>) -> Seq<char> {
    join(out, "forwarding"@)
}

/// The directory of the module's public forwarding headers below `out`.
pub open spec fn forwarding_directory(config: ConfigView, out: Seq<char>) -> Seq<char> {
    join(forwarding_root(out), config.module_name)
}

/// The directories that a build creates: first those of the configuration
/// headers, which are `out` itself, the module's directory in it and that
/// directory's private part; then likewise those of the forwarding headers.
pub open spec fn output_tree(config: ConfigView, out: Seq<char>) -> Seq<Seq<char>> {
    seq![
        out,
        module_directory(out, config),
        private_destination(module_directory(out, config)),
        forwarding_root(out),
        forwarding_directory(config, out),
        private_destination(forwarding_directory(config, out)),
    ]
}

/// Everything that is generated for a module: the files that carry its
/// configuration, then the forwarding headers of its headers.
pub open spec fn generated(
    config: ConfigView,
    out: Seq<char>,
    platform: Option<HeaderView>,
) -> Result<Seq<FileView>, ErrorView> {
    and_then_files(
        configuration(config, out, platform),
        collect(
            all_forwarding_steps(
                forwarding_directory(config, out),
                config.headers,
                config.sentinel,
            ),
        ),
    )
}

/// The settings with `dirs` searched after the include directories already
/// there and `sources` compiled after the files already there.
pub open spec fn with_inputs(
    settings: BuildView,
    dirs: Seq<Seq<char>>,
    sources: Seq<Seq<char>>,
) -> BuildView {
    BuildView {
        include_dirs: settings.include_dirs + dirs,
        files: settings.files + sources,
        ..settings
    }
}

/// All that a build does, decided before anything is written.
#[derive(Debug, PartialEq, Eq)]
pub struct BuildPlan {
    /// The directories to create, in order.
    pub directories: Vec<String>,
    /// The files to write, in order. A later file with the path of an earlier
    /// one replaces it.
    pub files: Vec<GeneratedFile>,
    /// The settings of the one compiler run that ends the build.
    pub settings: BuildSettings,
}

/// The mathematical value of a [`BuildPlan`].
pub struct PlanView {
    pub directories: Seq<Seq<char>>,
    pub files: Seq<FileView>,
    pub settings: BuildView,
}

impl View for BuildPlan {
    type V = PlanView;

    open spec fn view(&self) -> PlanView {
        PlanView {
            directories: self.directories.deep_view(),
            files: self.files.deep_view(),
            settings: self.settings@,
        }
    }
}

/// The plan of a build of the module `config` below `out`, starting from the
/// compiler settings `settings`; or the failure that prevents the build.
pub open spec fn planned(
    config: ConfigView,
    out: Seq<char>,
    platform: Option<HeaderView>,
    settings: BuildView,
) -> Result<PlanView, ErrorView> {
    match generated(config, out, platform) {
        Err(e) => Err(e),
        Ok(files) => Ok(
            PlanView {
                directories: output_tree(config, out),
                files,
                settings: with_inputs(settings, output_tree(config, out), config.sources),
            },
        ),
    }
}

/// The outcome of planning, as a mathematical value.
pub open spec fn plan_outcome(r: Result<BuildPlan, GenError>) -> Result<PlanView, ErrorView> {
    match r {
        Ok(plan) => Ok(plan@),
        Err(e) => Err(e@),
    }
}

/// One step of a build.
#[derive(Debug, PartialEq, Eq)]
pub enum Step {
    /// Create this directory and those above it that are missing.
    CreateDirectory { path: String },
    /// Write this file, replacing what is there.
    WriteFile { path: String, content: String },
    /// Run the compiler with the plan's settings.
    Compile,
    /// Nothing is left to do.
    Finished,
}

/// The mathematical value of a [`Step`].
pub enum StepView {
    CreateDirectory { path: Seq<char> },
    WriteFile { path: Seq<char>, content: Seq<char> },
    Compile,
    Finished,
}

impl View for Step {
    type V = StepView;

    open spec fn view(&self) -> StepView {
        match self {
            Step::CreateDirectory { path } => StepView::CreateDirectory { path: path@ },
            Step::WriteFile { path, content } => StepView::WriteFile {
                path: path@,
                content: content@,
            },
            Step::Compile => StepView::Compile,
            Step::Finished => StepView::Finished,
        }
    }
}

impl PlanView {
    /// The number of steps that come before the compiler runs.
    pub open spec fn preparations(self) -> nat {
        self.directories.len() + self.files.len()
    }

    /// The step at `position`: first every directory, then every file, then
    /// the compiler, and after that nothing.
    pub open spec fn step_at(self, position: nat) -> StepView {
        if position < self.directories.len() {
            StepView::CreateDirectory { path: self.directories[position as int] }
        } else if position < self.preparations() {
            let file = self.files[position - self.directories.len()];
            StepView::WriteFile { path: file.path, content: file.content }
        } else if position == self.preparations() {
            StepView::Compile
        } else {
            StepView::Finished
        }
    }

    /// The error that a failure of the step at `position` amounts to. For a
    /// directory or a file it names the path; for the compiler it carries
    /// the compiler's `diagnostic` as it is.
    pub open spec fn failure_at(self, position: nat, diagnostic: Seq<char>) -> ErrorView {
        match self.step_at(position) {
            StepView::CreateDirectory { path } => ErrorView::DirectoryCreationFailure { path },
            StepView::WriteFile { path, .. } => ErrorView::WriteFailure { path },
            _ => ErrorView::CompilerFailure { diagnostic },
        }
    }
}

/// The compiler runs at one position only, and every directory and every
/// file of the plan has its step before that position: nothing is compiled
/// until all has been created and written.
pub proof fn lemma_compiler_runs_once_and_last(plan: PlanView, position: nat)
    ensures
        plan.step_at(position) == StepView::Compile <==> position == plan.preparations(),
        position < plan.preparations() ==> plan.step_at(position) != StepView::Finished,
        forall|i: int|
            0 <= i < plan.directories.len() ==> #[trigger] plan.step_at(i as nat)
                == (StepView::CreateDirectory { path: plan.directories[i] }),
        forall|j: int|
            0 <= j < plan.files.len() ==> #[trigger] plan.step_at(
                (plan.directories.len() + j) as nat,
            ) == (StepView::WriteFile { path: plan.files[j].path, content: plan.files[j].content }),
{
}

/// Generation is a function of its input: two plans made from the same
/// configuration, output directory, platform header and settings are the
/// same plan, directory by directory and file by file, or the same failure.
pub proof fn lemma_same_input_same_plan(
    config: ConfigView,
    out: Seq<char>,
    platform: Option<HeaderView>,
    settings: BuildView,
    first: Result<PlanView, ErrorView>,
    second: Result<PlanView, ErrorView>,
)
    requires
        first == planned(config, out, platform, settings),
        second == planned(config, out, platform, settings),
    ensures
        first == second,
        first is Ok ==> first->Ok_0.directories == second->Ok_0.directories && first->Ok_0.files
            == second->Ok_0.files,
{
}

/// A plan exists exactly when everything can be generated, and it then holds
/// exactly what is generated: no file is planned after a failure.
pub proof fn lemma_plan_follows_generation(
    config: ConfigView,
    out: Seq<char>,
    platform: Option<HeaderView>,
    settings: BuildView,
)
    ensures
        planned(config, out, platform, settings) is Ok <==> generated(config, out, platform) is Ok,
        planned(config, out, platform, settings) matches Ok(plan) ==> generated(
            config,
            out,
            platform,
        ) == Ok::<Seq<FileView>, ErrorView>(plan.files),
        planned(config, out, platform, settings) matches Err(e) ==> generated(
            config,
            out,
            platform,
        ) == Err::<Seq<FileView>, ErrorView>(e),
{
}

/// The directories that a build of `config` creates below `out_dir`.
pub fn output_directories(config: &QtConfiguration, out_dir: &str) -> (directories: Vec<String>)
    ensures
        directories.deep_view() == output_tree(config@, out_dir@),
        directories@.len() == 6,
{
    let stem = ascii_lowercase(config.module_name());
    let public_path = path_join(out_dir, stem.as_str());
    let private_path = private_directory(public_path.as_str());
    let forwarding_root_path = path_join(out_dir, "forwarding");
    let forwarding_path = path_join(forwarding_root_path.as_str(), config.module_name());
    let forwarding_private_path = private_directory(forwarding_path.as_str());
    let mut directories: Vec<String> = Vec::new();
    directories.push(String::from_str(out_dir));
    directories.push(public_path);
    directories.push(private_path);
    directories.push(forwarding_root_path);
    directories.push(forwarding_path);
    directories.push(forwarding_private_path);
    assert(directories.deep_view() =~= output_tree(config@, out_dir@));
    directories
}

/// Generates everything for the module `config` below `out_dir`: the files
/// that carry its configuration, then the forwarding headers of its headers.
/// The result lists the files in the order in which they are to be written;
/// nothing is written here.
pub fn generate(
    config: &QtConfiguration,
    out_dir: &str,
    platform_definitions: Option<&HeaderFile>,
) -> (files: Result<Vec<GeneratedFile>, GenError>)
    ensures
        files_outcome(files) == generated(config@, out_dir@, platform_definitions.deep_view()),
{
    let mut files = match write_configuration(config, out_dir, platform_definitions) {
        Err(e) => {
            return Err(e);
        },
        Ok(files) => files,
    };
    let forwarding_root_path = path_join(out_dir, "forwarding");
    let forwarding_path = path_join(forwarding_root_path.as_str(), config.module_name());
    match write_all_forwarding_headers(
        config.headers(),
        forwarding_path.as_str(),
        config.sentinel(),
    ) {
        Err(e) => Err(e),
        Ok(mut more) => {
            let ghost before = files.deep_view();
            let ghost added = more.deep_view();
            files.append(&mut more);
            assert(files.deep_view() =~= before + added);
            Ok(files)
        },
    }
}

/// Plans the build of the module `config` below `out_dir`, and with that
/// uses the configuration up: a configuration is built for one build and is
/// not touched again once the build is planned. The plan holds the
/// directories to create, the files to write, and `builder` with the created
/// directories as further include directories, configuration before
/// forwarding, and the module's sources as further input. Where generation
/// fails there is no plan, only the failure.
pub fn plan_build(
    config: QtConfiguration,
    out_dir: &str,
    platform_definitions: Option<&HeaderFile>,
    builder: BuildSettings,
) -> (plan: Result<BuildPlan, GenError>)
    ensures
        plan_outcome(plan) == planned(
            config@,
            out_dir@,
            platform_definitions.deep_view(),
            builder@,
        ),
{
    let config = &config;
    let files = match generate(config, out_dir, platform_definitions) {
        Err(e) => {
            return Err(e);
        },
        Ok(files) => files,
    };
    let directories = output_directories(config, out_dir);
    let mut settings = builder;
    let ghost start = settings@;
    let mut i: usize = 0;
    assert(start.include_dirs + directories.deep_view().take(0) =~= start.include_dirs);
    while i < directories.len()
        invariant
            i <= directories@.len(),
            settings@ == (BuildView {
                include_dirs: start.include_dirs + directories.deep_view().take(i as int),
                ..start
            }),
        decreases directories@.len() - i,
    {
        proof {
            let dirs = directories.deep_view();
            assert(dirs[i as int] == directories@[i as int]@);
            assert((start.include_dirs + dirs.take(i as int)).push(dirs[i as int])
                =~= start.include_dirs + dirs.take(i + 1));
        }
        settings.include_dir(directories[i].as_str());
        i += 1;
    }
    let ghost included = settings@;
    let sources = config.sources();
    let mut k: usize = 0;
    assert(directories.deep_view().take(directories@.len() as int) =~= directories.deep_view());
    assert(included.files + sources.deep_view().take(0) =~= included.files);
    while k < sources.len()
        invariant
            k <= sources@.len(),
            settings@ == (BuildView {
                files: included.files + sources.deep_view().take(k as int),
                ..included
            }),
        decreases sources@.len() - k,
    {
        proof {
            let all = sources.deep_view();
            assert(all[k as int] == sources@[k as int]@);
            assert((included.files + all.take(k as int)).push(all[k as int]) =~= included.files
                + all.take(k + 1));
        }
        settings.file(sources[k].as_str());
        k += 1;
    }
    assert(sources.deep_view().take(sources@.len() as int) =~= sources.deep_view());
    Ok(BuildPlan { directories, files, settings })
}

/// The step of `plan` at `position`.
pub fn step_at(plan: &BuildPlan, position: usize) -> (step: Step)
    ensures
        step@ == plan@.step_at(position as nat),
{
    let dirs = plan.directories.len();
    if position < dirs {
        Step::CreateDirectory { path: plan.directories[position].clone() }
    } else if position - dirs < plan.files.len() {
        proof {
            assert(plan.files.deep_view()[position - dirs] == plan.files@[position - dirs]@);
        }
        let file = &plan.files[position - dirs];
        Step::WriteFile { path: file.path.clone(), content: file.content.clone() }
    } else if position - dirs == plan.files.len() {
        Step::Compile
    } else {
        Step::Finished
    }
}

/// Takes in how the step at `position` went and says where the build goes
/// on. A step that succeeded leads to the next position. A step that failed
/// ends the build: `failure` is then what went wrong, and the result is the
/// error for the caller, which names the directory or file of the step or,
/// for the compiler, carries its diagnostic.
pub fn advance(plan: &BuildPlan, position: usize, failure: Option<&str>) -> (next: Result<
    usize,
    GenError,
>)
    requires
        position < usize::MAX,
    ensures
        match failure {
            None => next == Ok::<usize, GenError>((position + 1) as usize),
            Some(diagnostic) => next matches Err(e) && e@ == plan@.failure_at(
                position as nat,
                diagnostic@,
            ),
        },
{
    match failure {
        None => Ok(position + 1),
        Some(diagnostic) => match step_at(plan, position) {
            Step::CreateDirectory { path } => Err(GenError::DirectoryCreationFailure { path }),
            Step::WriteFile { path, .. } => Err(GenError::WriteFailure { path }),
            _ => Err(GenError::CompilerFailure { diagnostic: String::from_str(diagnostic) }),
        },
    }
}

} // verus!
