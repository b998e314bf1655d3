//! Output of the GitLab command-line client: format choice, shortened text
//! and masked tokens.

use vstd::prelude::*;
use vstd::string::StringExecFns;
use vstd::string::StringSliceAdditionalSpecFns;
use vstd::utf8::{decode_utf8, is_char_boundary, encode_utf8_decode_utf8};

verus! {

broadcast use vstd::utf8::group_utf8_lib;

/// Output formatter of the client.
pub struct OutputFormatter {
    format: String,
    color: bool,
}

impl OutputFormatter {
    /// The chosen format.
    pub closed spec fn format_spec(&self) -> Seq<char> {
        self.format@
    }

    /// Whether colours are used.
    pub closed spec fn colored(&self) -> bool {
        self.color
    }

    /// A formatter for `format` (table, json or plain).
    pub fn new(format: &str, color: bool) -> (f: OutputFormatter)
        ensures
            f.format_spec() == format@,
            f.colored() == color,
    {
        OutputFormatter { format: String::from_str(format), color }
    }

    /// Whether the format is `table`.
    pub fn is_table(&self) -> (b: bool)
        ensures
            b == (self.format_spec() == "table"@),
    {
        crate::text::str_eq(self.format.as_str(), "table")
    }

    /// The output format.
    pub fn format(&self) -> (s: &str)
        ensures
            s@ == self.format_spec(),
    {
        self.format.as_str()
    }

    /// Whether colours are used.
    pub fn color(&self) -> (b: bool)
        ensures
            b == self.colored(),
    {
        self.color
    }
}

/// A row of a table: its column headers.
pub trait TableRow {
    fn headers() -> Vec<&'static str>;
}

/// The text of the first `n` bytes of `b`.
pub open spec fn first_bytes_text(b: Seq<u8>, n: int) -> Seq<char> {
    decode_utf8(b.take(n))
}

/// `s` cut to `max_len - 3` bytes followed by `...` when it is longer than
/// `max_len` bytes; `s` itself otherwise.
pub open spec fn truncated(s: Seq<char>, max_len: usize) -> Seq<char> {
    let b = vstd::utf8::encode_utf8(s);
    if b.len() > max_len {
        first_bytes_text(b, if max_len >= 3 { max_len - 3 } else { 0 }) + "..."@
    } else {
        s
    }
}

pub(crate) fn prefix_bytes<'a>(s: &'a str, n: usize) -> (r: &'a str)
    requires
        is_char_boundary(s.spec_bytes(), n as int),
    ensures
        r@ == decode_utf8(s.spec_bytes().take(n as int)),
{
    let (a, _) = s.split_at(n);
    proof {
        encode_utf8_decode_utf8(a@);
        assert(a.spec_bytes() == s.spec_bytes().take(n as int));
    }
    a
}

fn suffix_bytes<'a>(s: &'a str, n: usize) -> (r: &'a str)
    requires
        is_char_boundary(s.spec_bytes(), n as int),
    ensures
        r@ == decode_utf8(s.spec_bytes().skip(n as int)),
{
    let (_, b) = s.split_at(n);
    proof {
        encode_utf8_decode_utf8(b@);
        assert(b.spec_bytes() == s.spec_bytes().skip(n as int));
    }
    b
}

/// Shortens `s` to at most `max_len` bytes, marking the cut with `...`.
/// The cut must fall between characters.
pub fn truncate(s: &str, max_len: usize) -> (r: String)
    requires
        s.spec_bytes().len() > max_len ==> is_char_boundary(
            s.spec_bytes(),
            if max_len >= 3 { max_len - 3 } else { 0 },
        ),
    ensures
        r@ == truncated(s@, max_len),
{
    let n = s.as_bytes().len();
    if n > max_len {
        let keep: usize = if max_len >= 3 { max_len - 3 } else { 0 };
        let head = prefix_bytes(s, keep);
        let mut r = String::from_str(head);
        r.append("...");
        r
    } else {
        String::from_str(s)
    }
}

/// A token masked for display: its first and last four bytes around
/// `***...***` when longer than twelve bytes, `***` otherwise.
pub open spec fn masked_token(t: &str) -> Seq<char> {
    masked_chars(t@)
}

/// The masking of a token given by its characters.
pub open spec fn masked_chars(t: Seq<char>) -> Seq<char> {
    let b = vstd::utf8::encode_utf8(t);
    if b.len() > 12 {
        decode_utf8(b.take(4)) + "***...***"@ + decode_utf8(b.skip(b.len() - 4))
    } else {
        "***"@
    }
}

/// Masks a token for display. The cuts must fall between characters.
pub fn token_preview(token: &str) -> (r: String)
    requires
        token.spec_bytes().len() > 12 ==> is_char_boundary(token.spec_bytes(), 4)
            && is_char_boundary(token.spec_bytes(), token.spec_bytes().len() - 4),
    ensures
        r@ == masked_token(token),
{
    let n = token.as_bytes().len();
    if n > 12 {
        let mut r = String::from_str(prefix_bytes(token, 4));
        r.append("***...***");
        r.append(suffix_bytes(token, n - 4));
        r
    } else {
        String::from_str("***")
    }
}

/// How `config show` prints a token: its first eight bytes when it is
/// longer than that, else the whole token, followed by `***`.
pub open spec fn token_head_of(t: Seq<char>) -> Seq<char> {
    let b = vstd::utf8::encode_utf8(t);
    (if b.len() > 8 { decode_utf8(b.take(8)) } else { t }) + "***"@
}

/// The token as `config show` prints it. The cut must fall between characters.
pub fn token_head(token: &str) -> (r: String)
    requires
        token.spec_bytes().len() > 8 ==> is_char_boundary(token.spec_bytes(), 8),
    ensures
        r@ == token_head_of(token@),
{
    let n = token.as_bytes().len();
    let mut r = if n > 8 {
        String::from_str(prefix_bytes(token, 8))
    } else {
        String::from_str(token)
    };
    r.append("***");
    r
}

} // verus!
