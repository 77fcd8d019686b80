//! The failures that reading and scanning a file can end in.

use crate::text::{decimal, decimal_string};
use vstd::prelude::*;
use vstd::string::StringExecFns;

verus! {

/// A failure of the library, or one met on its behalf while reading a file.
///
/// Scanning itself fails only on an unsupported file type: text that is no
/// well-formed annotation is passed over, never reported. The other variants
/// carry what a caller met while reading or writing.
#[derive(Debug, Clone)]
pub enum Error {
    /// An input or output operation failed; the text describes how.
    Io(String),
    /// The file at `path` could not be read; `source` describes why.
    FileRead { path: String, source: String },
    /// No language is known for the file; the text is the extension of its
    /// path, and empty where the path has none.
    UnsupportedFileType(String),
    /// The file could not be parsed at the given line.
    Parse { file: String, line: usize, message: String },
    /// An annotation is not well formed.
    InvalidAnnotation(String),
    /// A value could not be written as JSON.
    Json(String),
}

/// An error as plain values.
pub enum ErrorModel {
    Io(Seq<char>),
    FileRead { path: Seq<char>, source: Seq<char> },
    UnsupportedFileType(Seq<char>),
    Parse { file: Seq<char>, line: nat, message: Seq<char> },
    InvalidAnnotation(Seq<char>),
    Json(Seq<char>),
}

impl View for Error {
    type V = ErrorModel;

    open spec fn view(&self) -> ErrorModel {
        match self {
            Error::Io(text) => ErrorModel::Io(text@),
            Error::FileRead { path, source } => ErrorModel::FileRead {
                path: path@,
                source: source@,
            },
            Error::UnsupportedFileType(ext) => ErrorModel::UnsupportedFileType(ext@),
            Error::Parse { file, line, message } => ErrorModel::Parse {
                file: file@,
                line: *line as nat,
                message: message@,
            },
            Error::InvalidAnnotation(text) => ErrorModel::InvalidAnnotation(text@),
            Error::Json(text) => ErrorModel::Json(text@),
        }
    }
}

/// The sentence that describes an error.
pub open spec fn message_of(e: ErrorModel) -> Seq<char> {
    match e {
        ErrorModel::Io(text) => "IO error: "@ + text,
        ErrorModel::FileRead { path, source } => "Failed to read file "@ + path + ": "@ + source,
        ErrorModel::UnsupportedFileType(ext) => "Unsupported file type: "@ + ext,
        ErrorModel::Parse { file, line, message } => "Parse error at "@ + file + ":"@ + decimal(
            line,
        ) + ": "@ + message,
        ErrorModel::InvalidAnnotation(text) => "Invalid annotation format: "@ + text,
        ErrorModel::Json(text) => "JSON serialization error: "@ + text,
    }
}

impl Error {
    /// The sentence that describes this error.
    pub fn message(&self) -> (s: String)
        ensures
            s@ == message_of(self@),
    {
        match self {
            Error::Io(text) => String::from_str("IO error: ").concat(text.as_str()),
            Error::FileRead { path, source } => {
                let mut s = String::from_str("Failed to read file ");
                s.append(path.as_str());
                s.append(": ");
                s.append(source.as_str());
                s
            },
            Error::UnsupportedFileType(ext) => String::from_str("Unsupported file type: ").concat(
                ext.as_str(),
            ),
            Error::Parse { file, line, message } => {
                let mut s = String::from_str("Parse error at ");
                s.append(file.as_str());
                s.append(":");
                let number = decimal_string(*line as u64);
                s.append(number.as_str());
                s.append(": ");
                s.append(message.as_str());
                s
            },
            Error::InvalidAnnotation(text) => String::from_str(
                "Invalid annotation format: ",
            ).concat(text.as_str()),
            Error::Json(text) => String::from_str("JSON serialization error: ").concat(
                text.as_str(),
            ),
        }
    }
}

} // verus!
