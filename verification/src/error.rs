//! The ways in which loading, saving and path building fail.

use vstd::prelude::*;
use vstd::string::StringExecFns;
use crate::paths::{debug_path, path_debug};

verus! {

/// A failure, with the path it concerns and what the system said of it.
#[derive(Debug, PartialEq, Eq)]
pub enum ConfigError {
    /// The file is there and could not be read.
    ReadError { path: String, cause: String },
    /// The file's text is not JSON, or not JSON of the wanted shape.
    ParseError { path: String, cause: String },
    /// The directory that is to hold the file could not be created.
    DirectoryError { path: String, cause: String },
    /// The value could not be turned into JSON.
    SerializeError { cause: String },
    /// The JSON text could not be written to the file.
    WriteError { path: String, cause: String },
    /// This host names no home directory for the user.
    HomeDirError,
}

/// A `ConfigError` with its texts as sequences of characters.
pub enum ConfigErrorView {
    ReadError { path: Seq<char>, cause: Seq<char> },
    ParseError { path: Seq<char>, cause: Seq<char> },
    DirectoryError { path: Seq<char>, cause: Seq<char> },
    SerializeError { cause: Seq<char> },
    WriteError { path: Seq<char>, cause: Seq<char> },
    HomeDirError,
}

impl View for ConfigError {
    type V = ConfigErrorView;

    open spec fn view(&self) -> ConfigErrorView {
        match self {
            ConfigError::ReadError { path, cause } => ConfigErrorView::ReadError {
                path: path@,
                cause: cause@,
            },
            ConfigError::ParseError { path, cause } => ConfigErrorView::ParseError {
                path: path@,
                cause: cause@,
            },
            ConfigError::DirectoryError { path, cause } => ConfigErrorView::DirectoryError {
                path: path@,
                cause: cause@,
            },
            ConfigError::SerializeError { cause } => ConfigErrorView::SerializeError {
                cause: cause@,
            },
            ConfigError::WriteError { path, cause } => ConfigErrorView::WriteError {
                path: path@,
                cause: cause@,
            },
            ConfigError::HomeDirError => ConfigErrorView::HomeDirError,
        }
    }
}

/// A message about a path: what went wrong, the path as shown, a colon and
/// a space, and the cause.
pub open spec fn about_path(what: Seq<char>, shown: Seq<char>, cause: Seq<char>) -> Seq<char> {
    what + shown + ": "@ + cause
}

impl ConfigErrorView {
    /// The message that a reader of the error is shown.
    pub open spec fn message(self) -> Seq<char> {
        match self {
            ConfigErrorView::ReadError { path, cause } => about_path(
                "Failed to read config from "@,
                path_debug(path),
                cause,
            ),
            ConfigErrorView::ParseError { path, cause } => about_path(
                "Failed to parse config from "@,
                path_debug(path),
                cause,
            ),
            ConfigErrorView::DirectoryError { path, cause } => about_path(
                "Failed to create config directory "@,
                path_debug(path),
                cause,
            ),
            ConfigErrorView::SerializeError { cause } => "Failed to serialize config: "@ + cause,
            ConfigErrorView::WriteError { path, cause } => about_path(
                "Failed to write config to "@,
                path_debug(path),
                cause,
            ),
            ConfigErrorView::HomeDirError => "Failed to get home directory"@,
        }
    }
}

/// Puts a message about a path together from its parts, `shown` being the
/// path in the form in which it is to appear.
pub fn describe(what: &str, shown: &str, cause: &str) -> (text: String)
    ensures
        text@ == about_path(what@, shown@, cause@),
{
    let mut text = String::from_str(what);
    text.append(shown);
    text.append(": ");
    text.append(cause);
    text
}

impl ConfigError {
    /// The message that a reader of the error is shown: what failed, on
    /// which path, and why.
    pub fn message(&self) -> (text: String)
        ensures
            text@ == self@.message(),
    {
        match self {
            ConfigError::ReadError { path, cause } => {
                let shown = debug_path(path.as_str());
                describe("Failed to read config from ", shown.as_str(), cause.as_str())
            },
            ConfigError::ParseError { path, cause } => {
                let shown = debug_path(path.as_str());
                describe("Failed to parse config from ", shown.as_str(), cause.as_str())
            },
            ConfigError::DirectoryError { path, cause } => {
                let shown = debug_path(path.as_str());
                describe("Failed to create config directory ", shown.as_str(), cause.as_str())
            },
            ConfigError::SerializeError { cause } => {
                String::from_str("Failed to serialize config: ").concat(cause.as_str())
            },
            ConfigError::WriteError { path, cause } => {
                let shown = debug_path(path.as_str());
                describe("Failed to write config to ", shown.as_str(), cause.as_str())
            },
            ConfigError::HomeDirError => String::from_str("Failed to get home directory"),
        }
    }
}

} // verus!
