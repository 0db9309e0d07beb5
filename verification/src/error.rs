//! The ways in which a request can fail, and the text shown for each.

use vstd::prelude::*;
use vstd::string::StringExecFns;

verus! {

/// Why a request failed.
#[derive(Clone, Debug, PartialEq, Eq)]
pub enum ViewerError {
    /// The user typed no topic.
    EmptyInput,
    /// The manual was found, and held nothing to show.
    EmptyContent,
    /// The manual could not be run, or it failed. Holds what it reported.
    ExternalTool(String),
    /// The directory of the settings could not be found or made.
    ConfigDir(String),
    /// The settings file could not be read or written.
    Io(String),
    /// No alias is known for the shell that was named.
    UnsupportedShell,
}

impl ViewerError {
    /// The text that the user is shown.
    pub open spec fn text(self) -> Seq<char> {
        match self {
            ViewerError::EmptyInput => "Please provide a man topic (for example: ls or 2 open)."@,
            ViewerError::EmptyContent => "The man command returned no content."@,
            ViewerError::ExternalTool(detail) => detail@,
            ViewerError::ConfigDir(detail) => detail@,
            ViewerError::Io(detail) => detail@,
            ViewerError::UnsupportedShell => "Unsupported shell. Use zsh, bash, or fish."@,
        }
    }

    /// The text that the user is shown.
    pub fn message(&self) -> (r: String)
        ensures
            r@ == self.text(),
    {
        match self {
            ViewerError::EmptyInput => String::from_str(
                "Please provide a man topic (for example: ls or 2 open).",
            ),
            ViewerError::EmptyContent => String::from_str("The man command returned no content."),
            ViewerError::ExternalTool(detail) => detail.clone(),
            ViewerError::ConfigDir(detail) => detail.clone(),
            ViewerError::Io(detail) => detail.clone(),
            ViewerError::UnsupportedShell => String::from_str(
                "Unsupported shell. Use zsh, bash, or fish.",
            ),
        }
    }
}

} // verus!
