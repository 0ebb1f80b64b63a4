//! The forwarding header generator.
//!
//! For every header of a module it makes a forwarding header named after the
//! header's file, and for every public header one more for each type name
//! that the scanner finds in it. Private headers go to the `private`
//! directory below the destination, public ones to the destination itself.
//! Where two headers lead to the same forwarding header, the later one is
//! listed later and so replaces the earlier one when the files are written.
//!
//! Nothing here touches the file system: each function returns the files to
//! write, in order, or the first failure.

use vstd::prelude::*;
use vstd::string::*;
use crate::error::{ErrorView, GenError};
use crate::header::{
    FileView,
    GeneratedFile,
    HeaderFile,
    HeaderView,
    and_then_files,
    declared_type_names,
    files_outcome,
    is_private,
    optional_file_outcome,
};
use crate::paths::{
    file_name,
    join,
    lemma_file_name_is_plain,
    lemma_join_keeps_the_name,
    path_file_name,
    path_join,
};
use crate::resolve::{forwarding_file, write_forwarding_header_2};

verus! {

/// The outcome of a step that produces at most one file, as a list of files.
pub open spec fn zero_or_one(
    r: Result<Option<FileView>, ErrorView>,
) -> Result<Seq<FileView>, ErrorView> {
    match r {
        Ok(Some(file)) => Ok(seq![file]),
        Ok(None) => Ok(Seq::empty()),
        Err(e) => Err(e),
    }
}

/// The outcome of a step that produces one file, as a list of files.
pub open spec fn just_one(r: Result<FileView, ErrorView>) -> Result<Seq<FileView>, ErrorView> {
    match r {
        Ok(file) => Ok(seq![file]),
        Err(e) => Err(e),
    }
}

/// The outcome of a sequence of steps: the files of all of them in order, or
/// the failure of the first step that fails.
pub open spec fn collect(steps: Seq<Result<Seq<FileView>, ErrorView>>) -> Result<
    Seq<FileView>,
    ErrorView,
>
    decreases steps.len(),
{
    if steps.len() == 0 {
        Ok(Seq::empty())
    } else {
        and_then_files(collect(steps.drop_last()), steps.last())
    }
}

/// The forwarding header for `target` in the directory `destination`, named
/// after the target's file. A target whose path names no file gets none.
pub open spec fn forwarding_header(
    destination: Seq<char>,
    target: HeaderView,
) -> Result<Option<FileView>, ErrorView> {
    match file_name(target.path) {
        None => Ok(None),
        Some(name) => match forwarding_file(join(destination, name), target) {
            Ok(file) => Ok(Some(file)),
            Err(e) => Err(e),
        },
    }
}

/// The steps that make the file-name forwarding headers of `headers`.
pub open spec fn forwarding_steps(
    destination: Seq<char>,
    headers: Seq<HeaderView>,
) -> Seq<Result<Seq<FileView>, ErrorView>> {
    Seq::new(headers.len(), |i: int| zero_or_one(forwarding_header(destination, headers[i])))
}

/// The steps that make one forwarding header for each of `names`, all of them
/// including `target`.
pub open spec fn name_steps(
    destination: Seq<char>,
    names: Seq<Seq<char>>,
    target: HeaderView,
) -> Seq<Result<Seq<FileView>, ErrorView>> {
    Seq::new(names.len(), |i: int| just_one(forwarding_file(join(destination, names[i]), target)))
}

/// The type-name forwarding headers for `target` in `destination`: one for
/// each type name that the scanner reports, in the scanner's order.
pub open spec fn class_forwarding_header(
    destination: Seq<char>,
    target: HeaderView,
    sentinel: Seq<char>,
) -> Result<Seq<FileView>, ErrorView> {
    match declared_type_names(target, sentinel) {
        Err(e) => Err(e),
        Ok(names) => collect(name_steps(destination, names, target)),
    }
}

/// The steps that make the type-name forwarding headers of `headers`.
pub open spec fn class_forwarding_steps(
    destination: Seq<char>,
    headers: Seq<HeaderView>,
    sentinel: Seq<char>,
) -> Seq<Result<Seq<FileView>, ErrorView>> {
    Seq::new(headers.len(), |i: int| class_forwarding_header(destination, headers[i], sentinel))
}

/// The directory for private headers below `destination`.
pub open spec fn private_destination(destination: Seq<char>) -> Seq<char> {
    join(destination, "private"@)
}

/// All forwarding headers of one header: for a private header the file-name
/// header in the private directory; for a public one the file-name header
/// followed by the type-name headers, in the destination itself.
pub open spec fn header_forwarding(
    destination: Seq<char>,
    header: HeaderView,
    sentinel: Seq<char>,
) -> Result<Seq<FileView>, ErrorView> {
    if is_private(header.path) {
        zero_or_one(forwarding_header(private_destination(destination), header))
    } else {
        and_then_files(
            zero_or_one(forwarding_header(destination, header)),
            class_forwarding_header(destination, header, sentinel),
        )
    }
}

/// The steps that make all forwarding headers of `headers`.
pub open spec fn all_forwarding_steps(
    destination: Seq<char>,
    headers: Seq<HeaderView>,
    sentinel: Seq<char>,
) -> Seq<Result<Seq<FileView>, ErrorView>> {
    Seq::new(headers.len(), |i: int| header_forwarding(destination, headers[i], sentinel))
}

/// A failure among the first `n` steps is the failure of the whole sequence.
pub proof fn lemma_collect_failure(steps: Seq<Result<Seq<FileView>, ErrorView>>, n: int)
    requires
        0 <= n <= steps.len(),
        collect(steps.take(n)) is Err,
    ensures
        collect(steps) == collect(steps.take(n)),
    decreases steps.len() - n,
{
    if n == steps.len() {
        assert(steps.take(n) =~= steps);
    } else {
        assert(steps.take(n + 1).drop_last() =~= steps.take(n));
        lemma_collect_failure(steps, n + 1);
    }
}

/// One more step extends the outcome of the steps before it.
pub proof fn lemma_collect_step(steps: Seq<Result<Seq<FileView>, ErrorView>>, n: int)
    requires
        0 <= n < steps.len(),
    ensures
        collect(steps.take(n + 1)) == and_then_files(collect(steps.take(n)), steps[n]),
{
    assert(steps.take(n + 1).drop_last() =~= steps.take(n));
}

/// Every file that a sequence of steps yields is a file of one of the steps.
pub proof fn lemma_collect_member(steps: Seq<Result<Seq<FileView>, ErrorView>>, k: int)
    requires
        collect(steps) is Ok,
        0 <= k < collect(steps)->Ok_0.len(),
    ensures
        exists|i: int, j: int|
            0 <= i < steps.len() && (#[trigger] steps[i]) is Ok && 0 <= j < steps[i]->Ok_0.len()
                && #[trigger] steps[i]->Ok_0[j] == collect(steps)->Ok_0[k],
    decreases steps.len(),
{
    let init = steps.drop_last();
    let before = collect(init)->Ok_0;
    if k < before.len() {
        lemma_collect_member(init, k);
        let (i, j) = choose|i: int, j: int|
            0 <= i < init.len() && (#[trigger] init[i]) is Ok && 0 <= j < init[i]->Ok_0.len()
                && #[trigger] init[i]->Ok_0[j] == before[k];
        assert(steps[i] == init[i]);
        assert(steps[i]->Ok_0[j] == collect(steps)->Ok_0[k]);
    } else {
        let i = steps.len() - 1;
        let j = k - before.len();
        assert(steps[i]->Ok_0[j] == collect(steps)->Ok_0[k]);
    }
}

/// A file-name forwarding header is named as its target is: the file name
/// of the header's path is the file name of the target's path, whatever the
/// destination.
pub proof fn lemma_forwarding_header_is_named_after_its_target(
    destination: Seq<char>,
    target: HeaderView,
)
    requires
        forwarding_header(destination, target) is Ok,
        forwarding_header(destination, target)->Ok_0 is Some,
    ensures
        file_name(target.path) is Some,
        file_name(forwarding_header(destination, target)->Ok_0->0.path) == file_name(
            target.path,
        ),
{
    lemma_file_name_is_plain(target.path);
    lemma_join_keeps_the_name(destination, file_name(target.path)->0);
}

/// Moves the files of `more` to the end of `files`.
fn append_files(files: &mut Vec<GeneratedFile>, more: Vec<GeneratedFile>)
    ensures
        final(files).deep_view() == old(files).deep_view() + more.deep_view(),
{
    let mut more = more;
    let ghost before = files.deep_view();
    let ghost added = more.deep_view();
    files.append(&mut more);
    assert(files.deep_view() =~= before + added);
}

/// Makes the forwarding header for `target` in the directory
/// `destination_path`. The header is named after the target's file; a target
/// whose path names no file gets no header.
pub fn write_forwarding_header(destination_path: &str, target: &HeaderFile) -> (file: Result<
    Option<GeneratedFile>,
    GenError,
>)
    ensures
        optional_file_outcome(file) == forwarding_header(destination_path@, target@),
{
    match path_file_name(target.path.as_str()) {
        None => Ok(None),
        Some(name) => {
            let forwarding_header_path = path_join(destination_path, name.as_str());
            match write_forwarding_header_2(forwarding_header_path.as_str(), target) {
                Ok(f) => Ok(Some(f)),
                Err(e) => Err(e),
            }
        },
    }
}

/// Makes the file-name forwarding headers of `headers` in the directory
/// `path`, in the order of the headers.
pub fn write_forwarding_headers(path: &str, headers: &Vec<HeaderFile>) -> (files: Result<
    Vec<GeneratedFile>,
    GenError,
>)
    ensures
        files_outcome(files) == collect(forwarding_steps(path@, headers.deep_view())),
{
    let ghost steps = forwarding_steps(path@, headers.deep_view());
    let mut files: Vec<GeneratedFile> = Vec::new();
    let mut i: usize = 0;
    assert(steps.take(0) =~= Seq::empty());
    assert(files.deep_view() =~= Seq::empty());
    while i < headers.len()
        invariant
            i <= headers@.len(),
            steps == forwarding_steps(path@, headers.deep_view()),
            collect(steps.take(i as int)) == Ok::<Seq<FileView>, ErrorView>(files.deep_view()),
        decreases headers@.len() - i,
    {
        proof {
            lemma_collect_step(steps, i as int);
            assert(headers.deep_view()[i as int] == headers@[i as int]@);
        }
        match write_forwarding_header(path, &headers[i]) {
            Err(e) => {
                proof {
                    lemma_collect_failure(steps, i + 1);
                }
                return Err(e);
            },
            Ok(None) => {
                assert(files.deep_view() + Seq::<FileView>::empty() =~= files.deep_view());
            },
            Ok(Some(f)) => {
                let ghost before = files.deep_view();
                files.push(f);
                assert(files.deep_view() =~= before + seq![f@]);
            },
        }
        i += 1;
    }
    assert(steps.take(steps.len() as int) =~= steps);
    Ok(files)
}

/// Makes the type-name forwarding headers for `target` in the directory
/// `destination_path`: one for each type name that a scan of the target's
/// content reports. A target that could not be read fails with
/// `SourceNotFound`, one whose content is not text with `NonTextContent`.
pub fn write_class_forwarding_header(
    destination_path: &str,
    target: &HeaderFile,
    sentinel: &str,
) -> (files: Result<Vec<GeneratedFile>, GenError>)
    ensures
        files_outcome(files) == class_forwarding_header(destination_path@, target@, sentinel@),
{
    let names = match target.declared_type_names(sentinel) {
        Err(e) => {
            return Err(e);
        },
        Ok(names) => names,
    };
    let ghost steps = name_steps(destination_path@, names.deep_view(), target@);
    let mut files: Vec<GeneratedFile> = Vec::new();
    let mut i: usize = 0;
    assert(steps.take(0) =~= Seq::empty());
    assert(files.deep_view() =~= Seq::empty());
    while i < names.len()
        invariant
            i <= names@.len(),
            declared_type_names(target@, sentinel@) == Ok::<Seq<Seq<char>>, ErrorView>(
                names.deep_view(),
            ),
            steps == name_steps(destination_path@, names.deep_view(), target@),
            collect(steps.take(i as int)) == Ok::<Seq<FileView>, ErrorView>(files.deep_view()),
        decreases names@.len() - i,
    {
        proof {
            lemma_collect_step(steps, i as int);
            assert(names.deep_view()[i as int] == names@[i as int]@);
        }
        let forwarding_header_path = path_join(destination_path, names[i].as_str());
        match write_forwarding_header_2(forwarding_header_path.as_str(), target) {
            Err(e) => {
                proof {
                    lemma_collect_failure(steps, i + 1);
                }
                return Err(e);
            },
            Ok(f) => {
                let ghost before = files.deep_view();
                files.push(f);
                assert(files.deep_view() =~= before + seq![f@]);
            },
        }
        i += 1;
    }
    assert(steps.take(steps.len() as int) =~= steps);
    Ok(files)
}

/// Makes the type-name forwarding headers of all `headers` in the directory
/// `path`, in the order of the headers.
pub fn write_class_forwarding_headers(
    path: &str,
    headers: &Vec<HeaderFile>,
    sentinel: &str,
) -> (files: Result<Vec<GeneratedFile>, GenError>)
    ensures
        files_outcome(files) == collect(
            class_forwarding_steps(path@, headers.deep_view(), sentinel@),
        ),
{
    let ghost steps = class_forwarding_steps(path@, headers.deep_view(), sentinel@);
    let mut files: Vec<GeneratedFile> = Vec::new();
    let mut i: usize = 0;
    assert(steps.take(0) =~= Seq::empty());
    assert(files.deep_view() =~= Seq::empty());
    while i < headers.len()
        invariant
            i <= headers@.len(),
            steps == class_forwarding_steps(path@, headers.deep_view(), sentinel@),
            collect(steps.take(i as int)) == Ok::<Seq<FileView>, ErrorView>(files.deep_view()),
        decreases headers@.len() - i,
    {
        proof {
            lemma_collect_step(steps, i as int);
            assert(headers.deep_view()[i as int] == headers@[i as int]@);
        }
        match write_class_forwarding_header(path, &headers[i], sentinel) {
            Err(e) => {
                proof {
                    lemma_collect_failure(steps, i + 1);
                }
                return Err(e);
            },
            Ok(more) => {
                append_files(&mut files, more);
            },
        }
        i += 1;
    }
    assert(steps.take(steps.len() as int) =~= steps);
    Ok(files)
}

/// The directory for private headers below `destination_path`.
pub fn private_directory(destination_path: &str) -> (path: String)
    ensures
        path@ == private_destination(destination_path@),
{
    path_join(destination_path, "private")
}

/// Makes all forwarding headers of one header of the module.
pub fn write_header_forwarding(
    destination_path: &str,
    header: &HeaderFile,
    sentinel: &str,
) -> (files: Result<Vec<GeneratedFile>, GenError>)
    ensures
        files_outcome(files) == header_forwarding(destination_path@, header@, sentinel@),
{
    let mut files: Vec<GeneratedFile> = Vec::new();
    assert(files.deep_view() =~= Seq::empty());
    if header.is_private() {
        let destination_private_path = private_directory(destination_path);
        match write_forwarding_header(destination_private_path.as_str(), header) {
            Err(e) => Err(e),
            Ok(None) => Ok(files),
            Ok(Some(f)) => {
                files.push(f);
                assert(files.deep_view() =~= seq![f@]);
                Ok(files)
            },
        }
    } else {
        match write_forwarding_header(destination_path, header) {
            Err(e) => {
                return Err(e);
            },
            Ok(None) => {},
            Ok(Some(f)) => {
                files.push(f);
                assert(files.deep_view() =~= seq![f@]);
            },
        }
        match write_class_forwarding_header(destination_path, header, sentinel) {
            Err(e) => Err(e),
            Ok(more) => {
                append_files(&mut files, more);
                Ok(files)
            },
        }
    }
}

/// Makes the forwarding headers of all `headers` of a module below
/// `destination_path`, header by header: private headers get a file-name
/// header in the `private` directory, public headers a file-name header and
/// their type-name headers in `destination_path` itself.
pub fn write_all_forwarding_headers(
    headers: &Vec<HeaderFile>,
    destination_path: &str,
    sentinel: &str,
) -> (files: Result<Vec<GeneratedFile>, GenError>)
    ensures
        files_outcome(files) == collect(
            all_forwarding_steps(destination_path@, headers.deep_view(), sentinel@),
        ),
{
    let ghost steps = all_forwarding_steps(destination_path@, headers.deep_view(), sentinel@);
    let mut files: Vec<GeneratedFile> = Vec::new();
    let mut i: usize = 0;
    assert(steps.take(0) =~= Seq::empty());
    assert(files.deep_view() =~= Seq::empty());
    while i < headers.len()
        invariant
            i <= headers@.len(),
            steps == all_forwarding_steps(destination_path@, headers.deep_view(), sentinel@),
            collect(steps.take(i as int)) == Ok::<Seq<FileView>, ErrorView>(files.deep_view()),
        decreases headers@.len() - i,
    {
        proof {
            lemma_collect_step(steps, i as int);
            assert(headers.deep_view()[i as int] == headers@[i as int]@);
        }
        match write_header_forwarding(destination_path, &headers[i], sentinel) {
            Err(e) => {
                proof {
                    lemma_collect_failure(steps, i + 1);
                }
                return Err(e);
            },
            Ok(more) => {
                append_files(&mut files, more);
            },
        }
        i += 1;
    }
    assert(steps.take(steps.len() as int) =~= steps);
    Ok(files)
}

} // verus!
