//! The relative path resolver: how a forwarding header reaches its target.
//!
//! A forwarding header holds one `#include` of the target's path relative to
//! the directory that the forwarding header lies in. The target must exist:
//! its canonical path is found on disk before generation starts, and a target
//! without one is a failure, never a header with a broken include.

use vstd::prelude::*;
use vstd::string::*;
use crate::error::{ErrorView, GenError};
use crate::header::{FileView, GeneratedFile, HeaderFile, HeaderView, file_outcome};
use crate::paths::{parent, path_parent};

verus! {

/// The relative path that leads from the directory `base` to `path`, as
/// `pathdiff::diff_paths` computes it from the components of the two paths;
/// `None` where it finds no such path.
pub uninterp spec fn relative_path(path: Seq<char>, base: Seq<char>) -> Option<Seq<char>>;

/// Calls `pathdiff::diff_paths`, which works on the text of the two paths
/// alone and never touches the file system. The result is that function's,
/// as text.
#[verifier::external_body]
fn diff_paths(path: &str, base: &str) -> (relative: Option<String>)
    ensures
        relative.deep_view() == relative_path(path@, base@),
{
    pathdiff::diff_paths(path, base).map(|p| p.to_string_lossy().into_owned())
}

/// The outcome of resolving a target, as a mathematical value.
pub open spec fn path_outcome(r: Result<String, GenError>) -> Result<Seq<char>, ErrorView> {
    match r {
        Ok(path) => Ok(path@),
        Err(e) => Err(e@),
    }
}

/// What resolving comes to once the relative path is known, or known not to
/// exist: the path itself, or a `PathResolutionError` that names the target.
pub open spec fn resolved(
    target_path: Seq<char>,
    relative: Option<Seq<char>>,
) -> Result<Seq<char>, ErrorView> {
    match relative {
        Some(r) => Ok(r),
        None => Err(ErrorView::PathResolutionError { path: target_path }),
    }
}

/// The relative path from the directory `dir` to the target: that from `dir`
/// to the target's canonical path. A target without a canonical path does
/// not exist and cannot be resolved.
pub open spec fn resolution(dir: Seq<char>, target: HeaderView) -> Result<Seq<char>, ErrorView> {
    match target.canonical {
        Some(canonical) => resolved(target.path, relative_path(canonical, dir)),
        None => Err(ErrorView::PathResolutionError { path: target.path }),
    }
}

/// The one line of a forwarding header: an include of `relative` in double
/// quotes, ended by a newline.
pub open spec fn include_line(relative: Seq<char>) -> Seq<char> {
    "#include \""@ + relative + "\"\n"@
}

/// The forwarding header at `header_path` that includes `target`. The
/// include path is relative to the directory that the header lies in; a
/// header path without a directory part cannot be resolved against.
pub open spec fn forwarding_file(
    header_path: Seq<char>,
    target: HeaderView,
) -> Result<FileView, ErrorView> {
    match parent(header_path) {
        None => Err(ErrorView::PathResolutionError { path: target.path }),
        Some(dir) => match resolution(dir, target) {
            Ok(relative) => Ok(FileView { path: header_path, content: include_line(relative) }),
            Err(e) => Err(e),
        },
    }
}

/// A target that does not exist on disk has no canonical path, and then no
/// forwarding header is made for it, whatever the header's path: the result
/// is a `PathResolutionError` that names the target.
pub proof fn lemma_missing_target_fails(header_path: Seq<char>, target: HeaderView)
    requires
        target.canonical is None,
    ensures
        forall|dir: Seq<char>| #[trigger]
            resolution(dir, target) == Err::<Seq<char>, ErrorView>(
                ErrorView::PathResolutionError { path: target.path },
            ),
        forwarding_file(header_path, target) == Err::<FileView, ErrorView>(
            ErrorView::PathResolutionError { path: target.path },
        ),
{
}

/// A forwarding header, where one is made, lies at the path asked for and
/// holds exactly one include line, which names the relative path from the
/// header's directory to the canonical target.
pub proof fn lemma_forwarding_file_content(header_path: Seq<char>, target: HeaderView)
    requires
        forwarding_file(header_path, target) is Ok,
    ensures
        target.canonical is Some,
        parent(header_path) is Some,
        relative_path(target.canonical->0, parent(header_path)->0) is Some,
        forwarding_file(header_path, target)->Ok_0 == (FileView {
            path: header_path,
            content: include_line(
                relative_path(target.canonical->0, parent(header_path)->0)->0,
            ),
        }),
{
}

/// Turns the relative path to a target, if there is one, into the result of
/// resolving: without a relative path the target cannot be included, and the
/// result is a `PathResolutionError` that names it.
pub fn resolved_path(target_header_path: &str, relative: Option<String>) -> (path: Result<
    String,
    GenError,
>)
    ensures
        path_outcome(path) == resolved(target_header_path@, relative.deep_view()),
{
    match relative {
        Some(r) => Ok(r),
        None => Err(
            GenError::PathResolutionError { path: String::from_str(target_header_path) },
        ),
    }
}

/// Finds the relative path from the directory `forwarding_header_dir` to the
/// canonical location of `target`. It fails with a `PathResolutionError`
/// that names the target where the target does not exist or no relative path
/// leads to it.
pub fn resolve(forwarding_header_dir: &str, target: &HeaderFile) -> (relative: Result<
    String,
    GenError,
>)
    ensures
        path_outcome(relative) == resolution(forwarding_header_dir@, target@),
{
    match &target.canonical {
        None => Err(GenError::PathResolutionError { path: target.path.clone() }),
        Some(canonical) => resolved_path(
            target.path.as_str(),
            diff_paths(canonical.as_str(), forwarding_header_dir),
        ),
    }
}

/// The text of a forwarding header that includes the file at `relative`.
pub fn include_statement(relative: &str) -> (line: String)
    ensures
        line@ == include_line(relative@),
{
    String::from_str("#include \"").concat(relative).concat("\"\n")
}

/// Makes the forwarding header at `forwarding_header_path` that includes
/// `target`. It fails with a `PathResolutionError` that names the target
/// where the target does not exist or cannot be reached by a relative path.
pub fn write_forwarding_header_2(
    forwarding_header_path: &str,
    target: &HeaderFile,
) -> (file: Result<GeneratedFile, GenError>)
    ensures
        file_outcome(file) == forwarding_file(forwarding_header_path@, target@),
{
    match path_parent(forwarding_header_path) {
        None => Err(GenError::PathResolutionError { path: target.path.clone() }),
        Some(dir) => match resolve(dir.as_str(), target) {
            Ok(relative) => Ok(
                GeneratedFile {
                    path: String::from_str(forwarding_header_path),
                    content: include_statement(relative.as_str()),
                },
            ),
            Err(e) => Err(e),
        },
    }
}

} // verus!
