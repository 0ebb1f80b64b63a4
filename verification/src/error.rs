//! The ways in which generating a module's headers and building it can fail.
//! Every failure ends the whole operation; nothing is retried or skipped.

use vstd::prelude::*;
use vstd::string::*;

verus! {

/// A failure, with the file or path that caused it.
#[derive(Debug, PartialEq, Eq)]
pub enum GenError {
    /// A header or source file that the configuration names cannot be read.
    SourceNotFound { path: String },
    /// A header's bytes are not text, so it cannot be scanned.
    NonTextContent { path: String },
    /// No include path leads to the target: it does not exist, or no relative
    /// path from the forwarding header's directory can be built.
    PathResolutionError { path: String },
    /// An output directory could not be created.
    DirectoryCreationFailure { path: String },
    /// A generated file could not be written.
    WriteFailure { path: String },
    /// The compiler failed; the text is its own diagnostic, passed on as it is.
    CompilerFailure { diagnostic: String },
}

/// The mathematical value of a [`GenError`].
pub enum ErrorView {
    SourceNotFound { path: Seq<char> },
    NonTextContent { path: Seq<char> },
    PathResolutionError { path: Seq<char> },
    DirectoryCreationFailure { path: Seq<char> },
    WriteFailure { path: Seq<char> },
    CompilerFailure { diagnostic: Seq<char> },
}

impl View for GenError {
    type V = ErrorView;

    open spec fn view(&self) -> ErrorView {
        match self {
            GenError::SourceNotFound { path } => ErrorView::SourceNotFound { path: path@ },
            GenError::NonTextContent { path } => ErrorView::NonTextContent { path: path@ },
            GenError::PathResolutionError { path } => ErrorView::PathResolutionError {
                path: path@,
            },
            GenError::DirectoryCreationFailure { path } => ErrorView::DirectoryCreationFailure {
                path: path@,
            },
            GenError::WriteFailure { path } => ErrorView::WriteFailure { path: path@ },
            GenError::CompilerFailure { diagnostic } => ErrorView::CompilerFailure {
                diagnostic: diagnostic@,
            },
        }
    }
}

impl ErrorView {
    /// The file, path or diagnostic that the error carries.
    pub open spec fn subject(self) -> Seq<char> {
        match self {
            ErrorView::SourceNotFound { path } => path,
            ErrorView::NonTextContent { path } => path,
            ErrorView::PathResolutionError { path } => path,
            ErrorView::DirectoryCreationFailure { path } => path,
            ErrorView::WriteFailure { path } => path,
            ErrorView::CompilerFailure { diagnostic } => diagnostic,
        }
    }

    /// The words that introduce the subject in the error's message.
    pub open spec fn headline(self) -> Seq<char> {
        match self {
            ErrorView::SourceNotFound { .. } => "Unable to read file "@,
            ErrorView::NonTextContent { .. } => "Non-UTF8 source code in "@,
            ErrorView::PathResolutionError { .. } => "Unable to create forwarding path to "@,
            ErrorView::DirectoryCreationFailure { .. } => "Unable to create directory "@,
            ErrorView::WriteFailure { .. } => "Unable to write file "@,
            ErrorView::CompilerFailure { .. } => "Compiler failed: "@,
        }
    }

    /// The error's message: its headline followed by its subject.
    pub open spec fn message(self) -> Seq<char> {
        self.headline() + self.subject()
    }
}

impl GenError {
    /// The file, path or diagnostic that the error carries.
    pub fn subject(&self) -> (s: &str)
        ensures
            s@ == self@.subject(),
    {
        match self {
            GenError::SourceNotFound { path } => path.as_str(),
            GenError::NonTextContent { path } => path.as_str(),
            GenError::PathResolutionError { path } => path.as_str(),
            GenError::DirectoryCreationFailure { path } => path.as_str(),
            GenError::WriteFailure { path } => path.as_str(),
            GenError::CompilerFailure { diagnostic } => diagnostic.as_str(),
        }
    }

    /// A one-line description of the error for a person to read.
    pub fn message(&self) -> (text: String)
        ensures
            text@ == self@.message(),
    {
        let headline = match self {
            GenError::SourceNotFound { .. } => "Unable to read file ",
            GenError::NonTextContent { .. } => "Non-UTF8 source code in ",
            GenError::PathResolutionError { .. } => "Unable to create forwarding path to ",
            GenError::DirectoryCreationFailure { .. } => "Unable to create directory ",
            GenError::WriteFailure { .. } => "Unable to write file ",
            GenError::CompilerFailure { .. } => "Compiler failed: ",
        };
        String::from_str(headline).concat(self.subject())
    }
}

} // verus!
