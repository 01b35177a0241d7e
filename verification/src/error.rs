//! The failures that the plugin reports.

use vstd::prelude::*;

verus! {

/// `std::io::Error`, the error of the standard library's I/O operations. It
/// is declared so that a failure of the embedding program can be carried
/// through as it came; nothing is claimed of what it holds.
#[verifier::external_type_specification]
#[verifier::external_body]
pub struct ExIoError(std::io::Error);

/// Why a plugin operation did not succeed.
#[derive(Debug)]
pub enum PluginError {
    /// The compiler ran and failed, or left no artifact behind.
    CompilationFailed { reason: String },
    /// A tool that the build needs is not installed.
    BuildToolNotFound { tool: String },
    /// The project directory is not there, or is not a directory.
    InvalidProjectStructure { reason: String },
    /// None of the entry file candidates was found, nor any other source file.
    MissingEntryFile { candidates: Vec<String> },
    /// The output directory could not be created.
    OutputDirectoryCreationFailed { path: String },
    /// An I/O operation of the embedding program failed.
    Io(std::io::Error),
}

/// What a plugin operation gives back.
pub type PluginResult<T> = Result<T, PluginError>;

/// A `PluginError` with its texts as sequences of characters.
pub enum PluginErrorView {
    CompilationFailed { reason: Seq<char> },
    BuildToolNotFound { tool: Seq<char> },
    InvalidProjectStructure { reason: Seq<char> },
    MissingEntryFile { candidates: Seq<Seq<char>> },
    OutputDirectoryCreationFailed { path: Seq<char> },
    Io(std::io::Error),
}

impl View for PluginError {
    type V = PluginErrorView;

    open spec fn view(&self) -> PluginErrorView {
        match self {
            PluginError::CompilationFailed { reason } => PluginErrorView::CompilationFailed {
                reason: reason@,
            },
            PluginError::BuildToolNotFound { tool } => PluginErrorView::BuildToolNotFound {
                tool: tool@,
            },
            PluginError::InvalidProjectStructure {
                reason,
            } => PluginErrorView::InvalidProjectStructure { reason: reason@ },
            PluginError::MissingEntryFile { candidates } => PluginErrorView::MissingEntryFile {
                candidates: candidates.deep_view(),
            },
            PluginError::OutputDirectoryCreationFailed {
                path,
            } => PluginErrorView::OutputDirectoryCreationFailed { path: path@ },
            PluginError::Io(error) => PluginErrorView::Io(*error),
        }
    }
}

} // verus!
