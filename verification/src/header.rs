//! The values that header generation works on: a header of the module with
//! what is known of it on disk, and a file that generation produces.

use vstd::prelude::*;
use vstd::string::*;
use crate::error::{ErrorView, GenError};
use crate::paths::{file_name, path_file_name};
use crate::scanner::{header_type_names, scan_header};
use crate::text::{chars_of, contains, contains_chars};

verus! {

/// A header of the module, with the facts about it that were read from disk
/// before generation started.
#[derive(Debug, PartialEq, Eq)]
pub struct HeaderFile {
    /// The header's path as the module lists it.
    pub path: String,
    /// The header's canonical absolute path; `None` if the file does not exist
    /// or cannot be reached.
    pub canonical: Option<String>,
    /// The header's bytes; `None` if the file cannot be read.
    pub content: Option<Vec<u8>>,
}

/// The mathematical value of a [`HeaderFile`].
pub struct HeaderView {
    pub path: Seq<char>,
    pub canonical: Option<Seq<char>>,
    pub content: Option<Seq<u8>>,
}

impl View for HeaderFile {
    type V = HeaderView;

    open spec fn view(&self) -> HeaderView {
        HeaderView {
            path: self.path@,
            canonical: self.canonical.deep_view(),
            content: match self.content {
                Some(bytes) => Some(bytes@),
                None => None,
            },
        }
    }
}

impl DeepView for HeaderFile {
    type V = HeaderView;

    open spec fn deep_view(&self) -> HeaderView {
        self@
    }
}

/// A file that generation produces: where it goes and its whole content.
#[derive(Debug, PartialEq, Eq)]
pub struct GeneratedFile {
    pub path: String,
    pub content: String,
}

/// The mathematical value of a [`GeneratedFile`].
pub struct FileView {
    pub path: Seq<char>,
    pub content: Seq<char>,
}

impl View for GeneratedFile {
    type V = FileView;

    open spec fn view(&self) -> FileView {
        FileView { path: self.path@, content: self.content@ }
    }
}

impl DeepView for GeneratedFile {
    type V = FileView;

    open spec fn deep_view(&self) -> FileView {
        self@
    }
}

/// The outcome of producing one file, as a mathematical value.
pub open spec fn file_outcome(r: Result<GeneratedFile, GenError>) -> Result<FileView, ErrorView> {
    match r {
        Ok(file) => Ok(file@),
        Err(e) => Err(e@),
    }
}

/// The outcome of producing at most one file, as a mathematical value.
pub open spec fn optional_file_outcome(
    r: Result<Option<GeneratedFile>, GenError>,
) -> Result<Option<FileView>, ErrorView> {
    match r {
        Ok(file) => Ok(file.deep_view()),
        Err(e) => Err(e@),
    }
}

/// The outcome of finding a list of names, as a mathematical value.
pub open spec fn names_outcome(
    r: Result<Vec<String>, GenError>,
) -> Result<Seq<Seq<char>>, ErrorView> {
    match r {
        Ok(names) => Ok(names.deep_view()),
        Err(e) => Err(e@),
    }
}

/// The outcome of producing a list of files, as a mathematical value.
pub open spec fn files_outcome(
    r: Result<Vec<GeneratedFile>, GenError>,
) -> Result<Seq<FileView>, ErrorView> {
    match r {
        Ok(files) => Ok(files.deep_view()),
        Err(e) => Err(e@),
    }
}

/// The outcome of one step followed by another: the files of both in order,
/// or the first failure.
pub open spec fn and_then_files(
    first: Result<Seq<FileView>, ErrorView>,
    second: Result<Seq<FileView>, ErrorView>,
) -> Result<Seq<FileView>, ErrorView> {
    match first {
        Err(e) => Err(e),
        Ok(before) => match second {
            Err(e) => Err(e),
            Ok(after) => Ok(before + after),
        },
    }
}

/// The part of a file name that marks a header as private.
pub open spec fn private_marker() -> Seq<char> {
    seq!['_', 'p', '.', 'h']
}

/// A header is private when its file name holds the marker `_p.h`.
pub open spec fn is_private(path: Seq<char>) -> bool {
    match file_name(path) {
        Some(name) => contains(name, private_marker()),
        None => false,
    }
}

/// The type names that the header declares, as far as the scanner sees them.
/// A header whose content could not be read fails with `SourceNotFound`, one
/// whose content is not text with `NonTextContent`.
pub open spec fn declared_type_names(
    header: HeaderView,
    sentinel: Seq<char>,
) -> Result<Seq<Seq<char>>, ErrorView> {
    match header.content {
        None => Err(ErrorView::SourceNotFound { path: header.path }),
        Some(bytes) => match header_type_names(bytes, sentinel) {
            None => Err(ErrorView::NonTextContent { path: header.path }),
            Some(names) => Ok(names),
        },
    }
}

/// Tells whether the file that `path` names is a private header.
pub fn path_is_private(path: &str) -> (b: bool)
    ensures
        b == is_private(path@),
{
    match path_file_name(path) {
        Some(name) => {
            let mut marker: Vec<char> = Vec::new();
            marker.push('_');
            marker.push('p');
            marker.push('.');
            marker.push('h');
            assert(marker@ =~= private_marker());
            let chars = chars_of(name.as_str());
            contains_chars(&chars, &marker)
        },
        None => false,
    }
}

impl HeaderFile {
    /// A header at `path` with the facts read from disk.
    pub fn new(
        path: String,
        canonical: Option<String>,
        content: Option<Vec<u8>>,
    ) -> (header: HeaderFile)
        ensures
            header.path == path,
            header.canonical == canonical,
            header.content == content,
    {
        HeaderFile { path, canonical, content }
    }

    /// Tells whether the header is private.
    pub fn is_private(&self) -> (b: bool)
        ensures
            b == is_private(self@.path),
    {
        path_is_private(self.path.as_str())
    }

    /// Scans the header's content for the type names it declares.
    pub fn declared_type_names(&self, sentinel: &str) -> (names: Result<Vec<String>, GenError>)
        ensures
            names_outcome(names) == declared_type_names(self@, sentinel@),
    {
        match &self.content {
            None => Err(GenError::SourceNotFound { path: self.path.clone() }),
            Some(bytes) => match scan_header(bytes.as_slice(), sentinel) {
                None => Err(GenError::NonTextContent { path: self.path.clone() }),
                Some(names) => Ok(names),
            },
        }
    }
}

} // verus!
