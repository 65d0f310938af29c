//! Turning document text into a decoded frontmatter record.

use crate::error::FrontmatterError;
use crate::extract::{extract_frontmatter_str, frontmatter_of, trim_start_spec};
use vstd::prelude::*;

verus! {

/// A decoded YAML document.
#[verifier::external_type_specification]
#[verifier::external_body]
pub struct ExYamlValue(serde_yaml::Value);

/// The error that `serde_json` reports when a value cannot be written.
#[verifier::external_type_specification]
#[verifier::external_body]
pub struct ExJsonError(serde_json::Error);

/// Parsed frontmatter together with the document it came from.
#[derive(Debug)]
pub struct Frontmatter {
    pub path: String,
    pub data: serde_yaml::Value,
}

/// Whether `serde_yaml` decodes the text into a value.
pub uninterp spec fn yaml_accepts(text: Seq<char>) -> bool;

/// Relies on `serde_yaml::from_str` into `serde_yaml::Value`: whether it
/// succeeds depends on the text alone.
#[verifier::external_body]
fn decode_yaml(text: &str) -> (r: Result<serde_yaml::Value, serde_yaml::Error>)
    ensures
        r is Ok == yaml_accepts(text@),
{
    serde_yaml::from_str(text)
}

/// The pretty-printed JSON text of a decoded value, or `None` where it has
/// no JSON form.
pub uninterp spec fn pretty_json_of(v: serde_yaml::Value) -> Option<Seq<char>>;

/// Relies on `serde_json::to_string_pretty` for a `serde_yaml::Value`: its
/// outcome depends on the value alone.
#[verifier::external_body]
fn pretty_json(v: &serde_yaml::Value) -> (r: Result<String, serde_json::Error>)
    ensures
        match r {
            Ok(s) => pretty_json_of(*v) == Some(s@),
            Err(_) => pretty_json_of(*v) is None,
        },
{
    serde_json::to_string_pretty(v)
}

impl Frontmatter {
    /// The decoded value written as pretty-printed JSON.
    pub fn to_json(&self) -> (r: Result<String, serde_json::Error>)
        ensures
            match r {
                Ok(s) => pretty_json_of(self.data) == Some(s@),
                Err(_) => pretty_json_of(self.data) is None,
            },
    {
        pretty_json(&self.data)
    }
}

/// `r` is a record for `path`.
pub open spec fn is_record_for(r: Result<Frontmatter, FrontmatterError>, path: Seq<char>) -> bool {
    match r {
        Ok(fm) => fm.path@ == path,
        Err(_) => false,
    }
}

/// `r` is the error for a document of `path` without frontmatter.
pub open spec fn is_no_frontmatter_for(
    r: Result<Frontmatter, FrontmatterError>,
    path: Seq<char>,
) -> bool {
    match r {
        Err(FrontmatterError::NoFrontmatter(p)) => p@ == path,
        _ => false,
    }
}

/// `r` is the error for a document of `path` whose block is not YAML.
pub open spec fn is_yaml_error_for(
    r: Result<Frontmatter, FrontmatterError>,
    path: Seq<char>,
) -> bool {
    match r {
        Err(FrontmatterError::YamlError { path: p, .. }) => p@ == path,
        _ => false,
    }
}

/// `r` is the error for a file of `path` that could not be read.
pub open spec fn is_io_error_for(
    r: Result<Frontmatter, FrontmatterError>,
    path: Seq<char>,
    message: Seq<char>,
) -> bool {
    match r {
        Err(FrontmatterError::IoError { path: p, message: m }) => p@ == path && m@ == message,
        _ => false,
    }
}

/// The outcome of parsing `content` as the document at `path`.
pub open spec fn parsed_as(
    r: Result<Frontmatter, FrontmatterError>,
    path: Seq<char>,
    content: Seq<char>,
) -> bool {
    match frontmatter_of(trim_start_spec(content)) {
        None => is_no_frontmatter_for(r, path),
        Some(block) => if yaml_accepts(block) {
            is_record_for(r, path)
        } else {
            is_yaml_error_for(r, path)
        },
    }
}

/// The record, or the YAML error, for the document at `path` whose block the
/// decoder turned into `decoded`.
pub fn frontmatter_from_decoded(
    path: &str,
    decoded: Result<serde_yaml::Value, serde_yaml::Error>,
) -> (r: Result<Frontmatter, FrontmatterError>)
    ensures
        match decoded {
            Ok(v) => match r {
                Ok(fm) => fm.path@ == path@ && fm.data == v,
                Err(_) => false,
            },
            Err(e) => match r {
                Err(FrontmatterError::YamlError { path: p, source }) => p@ == path@ && source == e,
                _ => false,
            },
        },
{
    match decoded {
        Ok(data) => Ok(Frontmatter { path: String::from_str(path), data }),
        Err(source) => Err(FrontmatterError::YamlError { path: String::from_str(path), source }),
    }
}

/// Parses the frontmatter of `content`, the text of the document at `path`.
pub fn parse_content(path: &str, content: &str) -> (r: Result<Frontmatter, FrontmatterError>)
    ensures
        parsed_as(r, path@, content@),
{
    match extract_frontmatter_str(content) {
        None => Err(FrontmatterError::NoFrontmatter(String::from_str(path))),
        Some(block) => frontmatter_from_decoded(path, decode_yaml(block)),
    }
}

/// Parses the frontmatter of the file at `path`, given the outcome of reading
/// it: its text, or the system's diagnostic.
pub fn parse_read_result(path: &str, loaded: Result<String, String>) -> (r: Result<
    Frontmatter,
    FrontmatterError,
>)
    ensures
        match loaded {
            Ok(text) => parsed_as(r, path@, text@),
            Err(message) => is_io_error_for(r, path@, message@),
        },
{
    match loaded {
        Ok(text) => parse_content(path, text.as_str()),
        Err(message) => Err(FrontmatterError::IoError { path: String::from_str(path), message }),
    }
}

} // verus!
