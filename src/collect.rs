//! The per-entry decisions of a directory run: which entries are documents to
//! parse, and how a failed enumeration step is reported.

use crate::error::FrontmatterError;
use crate::extract::chars_of;
use vstd::prelude::*;

verus! {

/// The extension of a path: the part of its file name after the last `.`,
/// where there is one and the name is not only a leading dot.
pub uninterp spec fn path_extension(path: Seq<char>) -> Option<Seq<char>>;

/// Relies on `std::path::Path::extension`. For a path given as UTF-8 text the
/// extension is a slice of it, so the conversion back to text loses nothing.
#[verifier::external_body]
fn extension_of(path: &str) -> (r: Option<String>)
    ensures
        match r {
            Some(e) => path_extension(path@) == Some(e@),
            None => path_extension(path@) is None,
        },
{
    let ext = std::path::Path::new(path).extension()?;
    Some(ext.to_string_lossy().into_owned())
}

/// `c` equals the lower-case ASCII letter `lower`, ignoring ASCII case.
pub open spec fn ascii_ci_char_eq(c: char, lower: char) -> bool {
    c == lower || ('A' <= c && c <= 'Z' && c as u32 + 32 == lower as u32)
}

/// `s` equals the lower-case ASCII word `lower`, ignoring ASCII case.
pub open spec fn ascii_ci_eq(s: Seq<char>, lower: Seq<char>) -> bool {
    s.len() == lower.len() && forall|i: int| 0 <= i < s.len() ==> ascii_ci_char_eq(s[i], lower[i])
}

/// `md` or `markdown`, in any ASCII case.
pub open spec fn is_markdown_ext(e: Seq<char>) -> bool {
    ascii_ci_eq(e, seq!['m', 'd']) || ascii_ci_eq(e, seq!['m', 'a', 'r', 'k', 'd', 'o', 'w', 'n'])
}

/// The path's extension marks a markdown document.
pub open spec fn is_markdown_path(path: Seq<char>) -> bool {
    match path_extension(path) {
        Some(e) => is_markdown_ext(e),
        None => false,
    }
}

fn ascii_ci_matches(cs: &Vec<char>, lower: &Vec<char>) -> (r: bool)
    ensures
        r == ascii_ci_eq(cs@, lower@),
{
    if cs.len() != lower.len() {
        return false;
    }
    let mut i: usize = 0;
    while i < cs.len()
        invariant
            cs@.len() == lower@.len(),
            i <= cs@.len(),
            forall|j: int| 0 <= j < i ==> ascii_ci_char_eq(cs@[j], lower@[j]),
        decreases cs@.len() - i,
    {
        let c = cs[i];
        let l = lower[i];
        if !(c == l || ('A' <= c && c <= 'Z' && c as u32 + 32 == l as u32)) {
            return false;
        }
        i += 1;
    }
    true
}

/// Whether `ext` is `md` or `markdown`, ignoring ASCII case.
pub fn is_markdown_extension(ext: &str) -> (r: bool)
    ensures
        r == is_markdown_ext(ext@),
{
    let cs = chars_of(ext);
    let md: Vec<char> = vec!['m', 'd'];
    let markdown: Vec<char> = vec!['m', 'a', 'r', 'k', 'd', 'o', 'w', 'n'];
    assert(md@ == seq!['m', 'd']);
    assert(markdown@ == seq!['m', 'a', 'r', 'k', 'd', 'o', 'w', 'n']);
    ascii_ci_matches(&cs, &md) || ascii_ci_matches(&cs, &markdown)
}

/// Whether the path names a markdown document by its extension.
pub fn is_markdown_file(path: &str) -> (r: bool)
    ensures
        r == is_markdown_path(path@),
{
    match extension_of(path) {
        Some(e) => is_markdown_extension(e.as_str()),
        None => false,
    }
}

/// One step of enumerating a directory.
pub enum WalkEvent {
    /// An entry was reached; `is_file` tells whether it is a regular file.
    Visited { path: String, is_file: bool },
    /// The enumeration failed here, with the walker's diagnostic.
    Failed(String),
}

/// What a directory run does with one enumeration step.
pub enum EntryAction {
    /// Not a document: leave it out of the run's outcomes.
    Skip,
    /// A document: read and parse the file at this path.
    Parse(String),
    /// Record this error as the step's outcome.
    Report(FrontmatterError),
}

/// The entry is a regular file whose extension marks a markdown document.
pub open spec fn is_candidate(path: Seq<char>, is_file: bool) -> bool {
    is_file && is_markdown_path(path)
}

/// The action that a directory run takes on `ev`.
pub open spec fn action_for(ev: WalkEvent, r: EntryAction) -> bool {
    match ev {
        WalkEvent::Visited { path, is_file } => if is_candidate(path@, is_file) {
            match r {
                EntryAction::Parse(p) => p@ == path@,
                _ => false,
            }
        } else {
            r is Skip
        },
        WalkEvent::Failed(m) => match r {
            EntryAction::Report(FrontmatterError::WalkDirError(x)) => x@ == m@,
            _ => false,
        },
    }
}

/// Decides what a directory run does with one enumeration step: markdown
/// files are parsed, other entries skipped, and failures reported.
pub fn entry_action(ev: WalkEvent) -> (r: EntryAction)
    ensures
        action_for(ev, r),
{
    match ev {
        WalkEvent::Visited { path, is_file } => {
            if is_file && is_markdown_file(path.as_str()) {
                EntryAction::Parse(path)
            } else {
                EntryAction::Skip
            }
        },
        WalkEvent::Failed(message) => EntryAction::Report(FrontmatterError::WalkDirError(message)),
    }
}

/// An entry whose extension is neither `md` nor `markdown` in any ASCII case
/// (a `notes.txt`, say), or that has none, is skipped whatever the file holds:
/// it is never read, so it adds no outcome to a run.
pub proof fn lemma_non_markdown_skipped(path: String, is_file: bool, r: EntryAction)
    requires
        match path_extension(path@) {
            Some(e) => !is_markdown_ext(e),
            None => true,
        },
        action_for(WalkEvent::Visited { path, is_file }, r),
    ensures
        r is Skip,
{
}

} // verus!
