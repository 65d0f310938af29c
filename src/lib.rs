//! Extraction of YAML frontmatter blocks delimited by `---` lines at the start
//! of text documents.

pub mod error;
pub mod extract;
pub mod collect;
pub mod parser;

pub use collect::{entry_action, is_markdown_extension, is_markdown_file, EntryAction, WalkEvent};
pub use error::{FrontmatterError, Result};
pub use extract::{extract_after_trim, extract_frontmatter_str};
pub use parser::{frontmatter_from_decoded, parse_content, parse_read_result, Frontmatter};
