//! Recovery of contract annotations from source comments, and the semantic
//! comparison of two annotated versions of a file.

pub mod annotation;
pub mod bench;
pub mod confidence;
pub mod diff;
pub mod error;
pub mod extractor;
pub mod language;
pub mod linter;
pub mod numeral;
pub mod output;
pub mod parser;
pub mod pattern;
pub mod text;

pub use annotation::{
    Annotation, AnnotationLevel, FunctionAnnotations, Location, ModuleAnnotations, ParsedFile,
    ParsedProject,
};
pub use diff::{diff_files, diff_parsed, ChangeType, ContractChange, DiffResult};
pub use error::Error;
pub use extractor::extract_file;
pub use language::{detect_language, is_supported_file, Language};
pub use linter::{lint_file, LintConfig, LintIssue, LintResult, Severity};
pub use output::OutputFormat;
