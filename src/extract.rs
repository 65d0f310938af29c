//! Locating the raw frontmatter block inside document text.
//!
//! A block opens with a line holding exactly `---` at the start of the text
//! (after leading white space), followed by `\n` or `\r\n`, and closes at the
//! next line terminator followed by `---`.

use vstd::prelude::*;

verus! {

/// The characters that Unicode gives the `White_Space` property.
pub open spec fn is_white_space(c: char) -> bool {
    let u = c as u32;
    (9 <= u && u <= 13) || u == 32 || u == 0x85 || u == 0xa0 || u == 0x1680 || (0x2000 <= u
        && u <= 0x200a) || u == 0x2028 || u == 0x2029 || u == 0x202f || u == 0x205f || u == 0x3000
}

/// The text with its leading white space removed.
pub open spec fn trim_start_spec(s: Seq<char>) -> Seq<char>
    decreases s.len(),
{
    if s.len() > 0 && is_white_space(s[0]) {
        trim_start_spec(s.drop_first())
    } else {
        s
    }
}

/// The text starts with the three-hyphen delimiter.
pub open spec fn starts_with_delimiter(t: Seq<char>) -> bool {
    t.len() >= 3 && t[0] == '-' && t[1] == '-' && t[2] == '-'
}

/// Where the block's body starts: after the opening delimiter and its line
/// terminator; 0 where the text does not open a block.
pub open spec fn body_start(t: Seq<char>) -> int {
    if !starts_with_delimiter(t) {
        0
    } else if t.len() >= 4 && t[3] == '\n' {
        4
    } else if t.len() >= 5 && t[3] == '\r' && t[4] == '\n' {
        5
    } else {
        0
    }
}

/// A newline followed by the delimiter stands at index `i`.
pub open spec fn closes_at(t: Seq<char>, i: int) -> bool {
    0 <= i && i + 4 <= t.len() && t[i] == '\n' && t[i + 1] == '-' && t[i + 2] == '-' && t[i + 3]
        == '-'
}

/// `i` is the first closing position at or after `b`.
pub open spec fn is_first_close(t: Seq<char>, b: int, i: int) -> bool {
    b <= i && closes_at(t, i) && forall|j: int| b <= j < i ==> !closes_at(t, j)
}

/// The end of the block's body for a closing newline at `i`: a carriage return
/// just before it belongs to the line terminator.
pub open spec fn body_end(t: Seq<char>, b: int, i: int) -> int {
    if i > b && t[i - 1] == '\r' {
        i - 1
    } else {
        i
    }
}

/// The raw frontmatter block of a text whose leading white space is already
/// removed, or `None` where it has none.
pub open spec fn frontmatter_of(t: Seq<char>) -> Option<Seq<char>> {
    let b = body_start(t);
    if b == 0 {
        None
    } else if exists|i: int| is_first_close(t, b, i) {
        let i = choose|i: int| is_first_close(t, b, i);
        Some(t.subrange(b, body_end(t, b, i)))
    } else {
        None
    }
}

/// Relies on `str::trim_start`: removes the leading characters that have the
/// Unicode `White_Space` property.
#[verifier::external_body]
fn trim_leading<'a>(s: &'a str) -> (r: &'a str)
    ensures
        r@ == trim_start_spec(s@),
{
    s.trim_start()
}

/// Relies on `str::chars` collected into a `Vec`: the characters in order.
#[verifier::external_body]
pub(crate) fn chars_of(s: &str) -> (r: Vec<char>)
    ensures
        r@ == s@,
{
    s.chars().collect()
}

/// The raw frontmatter block of a text whose leading white space is already
/// removed.
pub fn extract_after_trim(t: &str) -> (r: Option<&str>)
    ensures
        match r {
            Some(s) => frontmatter_of(t@) == Some(s@),
            None => frontmatter_of(t@) is None,
        },
{
    let cs = chars_of(t);
    let n = cs.len();
    if n < 3 || cs[0] != '-' || cs[1] != '-' || cs[2] != '-' {
        return None;
    }
    let start: usize;
    if n >= 4 && cs[3] == '\n' {
        start = 4;
    } else if n >= 5 && cs[3] == '\r' && cs[4] == '\n' {
        start = 5;
    } else {
        return None;
    }
    assert(body_start(t@) == start as int);
    let mut i: usize = start;
    while i < n && n - i >= 4
        invariant
            n == t@.len(),
            cs@ == t@,
            start as int == body_start(t@),
            start >= 4,
            start <= i <= n,
            forall|j: int| start <= j < i ==> !closes_at(t@, j),
        decreases n - i,
    {
        if cs[i] == '\n' && cs[i + 1] == '-' && cs[i + 2] == '-' && cs[i + 3] == '-' {
            let end: usize = if i > start && cs[i - 1] == '\r' {
                i - 1
            } else {
                i
            };
            proof {
                assert(is_first_close(t@, start as int, i as int));
                let k = choose|k: int| is_first_close(t@, start as int, k);
                assert(k == i as int) by {
                    if k < i {
                        assert(!closes_at(t@, k));
                    } else if k > i {
                        assert(!closes_at(t@, i as int));
                    }
                }
                assert(end as int == body_end(t@, start as int, i as int));
                assert(frontmatter_of(t@) == Some(t@.subrange(start as int, end as int)));
            }
            return Some(t.substring_char(start, end));
        }
        i += 1;
    }
    assert forall|k: int| !is_first_close(t@, start as int, k) by {
        if is_first_close(t@, start as int, k) {
            assert(k < i);
        }
    }
    None
}

/// The raw frontmatter block of document text: the characters strictly between
/// the opening delimiter's line terminator and the closing delimiter's line
/// terminator, or `None` where the text has no complete block.
pub fn extract_frontmatter_str(content: &str) -> (r: Option<&str>)
    ensures
        match r {
            Some(s) => frontmatter_of(trim_start_spec(content@)) == Some(s@),
            None => frontmatter_of(trim_start_spec(content@)) is None,
        },
{
    let t = trim_leading(content);
    extract_after_trim(t)
}

/// The three-hyphen delimiter.
pub open spec fn delimiter() -> Seq<char> {
    seq!['-', '-', '-']
}

/// A line terminator: `\r\n` or `\n`.
pub open spec fn terminator(crlf: bool) -> Seq<char> {
    if crlf {
        seq!['\r', '\n']
    } else {
        seq!['\n']
    }
}

/// A text made of the delimiter, a line terminator, `content`, a line
/// terminator, the delimiter and then anything yields exactly `content`,
/// whichever terminator stands at each boundary. `content` holds no newline
/// followed by the delimiter; before a bare `\n` it does not end in `\r`,
/// which would make the two one `\r\n`.
pub proof fn lemma_delimited_block_extracted(
    content: Seq<char>,
    rest: Seq<char>,
    open_crlf: bool,
    close_crlf: bool,
)
    requires
        forall|i: int| !closes_at(content, i),
        close_crlf || content.len() == 0 || content.last() != '\r',
    ensures
        frontmatter_of(
            trim_start_spec(
                delimiter() + terminator(open_crlf) + content + terminator(close_crlf) + delimiter()
                    + rest,
            ),
        ) == Some(content),
{
    let pre = delimiter() + terminator(open_crlf);
    let post = terminator(close_crlf) + delimiter() + rest;
    let text = delimiter() + terminator(open_crlf) + content + terminator(close_crlf) + delimiter()
        + rest;
    assert(text =~= pre + content + post);
    let b = pre.len() as int;
    let n = content.len() as int;
    let c = if close_crlf {
        1int
    } else {
        0int
    };
    assert(text[0] == '-');
    assert(trim_start_spec(text) == text);
    assert forall|k: int| 0 <= k < n implies text[b + k] == content[k] by {
        assert(text[b + k] == (pre + content)[b + k]);
    }
    assert forall|k: int| 0 <= k < post.len() implies text[b + n + k] == post[k] by {}
    assert(post[c] == '\n' && post[c + 1] == '-' && post[c + 2] == '-' && post[c + 3] == '-');
    assert(body_start(text) == b);
    let i0 = b + n + c;
    assert(closes_at(text, i0));
    assert forall|j: int| b <= j < i0 implies !closes_at(text, j) by {
        if j + 4 <= b + n {
            if closes_at(text, j) {
                assert(closes_at(content, j - b));
            }
        } else if j < b + n {
            assert(text[b + n] == post[0]);
        } else {
            assert(text[j] == post[0]);
        }
    }
    assert(is_first_close(text, b, i0));
    let k = choose|k: int| is_first_close(text, b, k);
    assert(k == i0) by {
        if k < i0 {
            assert(!closes_at(text, k));
        } else if k > i0 {
            assert(!closes_at(text, i0));
        }
    }
    if close_crlf {
        assert(text[i0 - 1] == '\r');
    } else if n > 0 {
        assert(text[i0 - 1] == content[n - 1]);
    }
    assert(body_end(text, b, i0) == b + n);
    assert(text.subrange(b, b + n) =~= content);
}

/// A text whose first characters after leading white space are not the
/// delimiter has no block.
pub proof fn lemma_no_opening_delimiter(text: Seq<char>)
    requires
        !starts_with_delimiter(trim_start_spec(text)),
    ensures
        frontmatter_of(trim_start_spec(text)) is None,
{
}

/// A text that opens a block but holds no newline followed by the delimiter
/// anywhere after the opening line has no block: an unterminated block counts
/// as no block.
pub proof fn lemma_unterminated_block(body: Seq<char>, open_crlf: bool)
    requires
        forall|i: int| !closes_at(body, i),
    ensures
        frontmatter_of(trim_start_spec(delimiter() + terminator(open_crlf) + body)) is None,
{
    let pre = delimiter() + terminator(open_crlf);
    let text = pre + body;
    let b = pre.len() as int;
    assert(text[0] == '-');
    assert(trim_start_spec(text) == text);
    assert(body_start(text) == b);
    assert forall|j: int| b <= j implies !closes_at(text, j) by {
        if closes_at(text, j) {
            assert(text[j] == body[j - b]);
            assert(text[j + 1] == body[j - b + 1]);
            assert(text[j + 2] == body[j - b + 2]);
            assert(text[j + 3] == body[j - b + 3]);
            assert(closes_at(body, j - b));
        }
    }
}

} // verus!
