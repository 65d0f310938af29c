//! The ways in which reading frontmatter can fail.

use vstd::prelude::*;

verus! {

/// The error that `serde_yaml` reports for text that does not decode.
#[verifier::external_type_specification]
#[verifier::external_body]
pub struct ExYamlError(serde_yaml::Error);

/// Why a document yielded no frontmatter record. Every variant but the
/// traversal one names the document's path.
#[derive(Debug)]
pub enum FrontmatterError {
    /// The file could not be read; `message` is the system's diagnostic.
    IoError { path: String, message: String },
    /// The document has no complete `---` delimited block.
    NoFrontmatter(String),
    /// The block was found but rejected for another reason.
    InvalidFrontmatter { path: String, message: String },
    /// The block is not valid YAML.
    YamlError { path: String, source: serde_yaml::Error },
    /// Enumerating a directory failed; the text is the walker's diagnostic.
    WalkDirError(String),
}

/// The outcome of an operation that can fail with a [`FrontmatterError`].
pub type Result<T> = core::result::Result<T, FrontmatterError>;

} // verus!
