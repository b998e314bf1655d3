//! Turning a GitLab documentation page into a title and clean markdown.

use vstd::prelude::*;
use vstd::string::StringExecFns;
use crate::text::{chars_of, string_of, trim, trim_chars};

verus! {

/// `s` with every run of three or more line breaks cut down to two: a line
/// break is dropped exactly when the two characters kept before it are line
/// breaks.
pub open spec fn collapse_blank_lines(s: Seq<char>) -> Seq<char>
    decreases s.len(),
{
    if s.len() == 0 {
        s
    } else {
        let p = collapse_blank_lines(s.drop_last());
        if s.last() == '\n' && p.len() >= 2 && p[p.len() - 1] == '\n' && p[p.len() - 2] == '\n' {
            p
        } else {
            p.push(s.last())
        }
    }
}

/// Markdown after clean-up: blank-line runs collapsed, then trimmed.
pub open spec fn cleaned_markdown(s: Seq<char>) -> Seq<char> {
    trim(collapse_blank_lines(s))
}

/// `s` holds three line breaks in a row.
pub open spec fn has_triple_newline(s: Seq<char>) -> bool {
    exists|i: int| 0 <= i && i + 2 < s.len() && #[trigger] s[i] == '\n' && s[i + 1] == '\n' && s[i + 2] == '\n'
}

/// `s` with `suffix` taken off its end as many times as it ends with it
/// (std's `trim_end_matches` with a string pattern).
pub open spec fn trim_end_matches(s: Seq<char>, suffix: Seq<char>) -> Seq<char>
    decreases s.len(),
{
    if suffix.len() > 0 && s.len() >= suffix.len() && s.skip(s.len() - suffix.len()) == suffix {
        trim_end_matches(s.take(s.len() - suffix.len()), suffix)
    } else {
        s
    }
}

/// What `scraper` finds in `html` for a CSS `selector`: `None` when the
/// selector does not parse, otherwise the text of the first matching element
/// (all its text nodes, in order), if any.
pub uninterp spec fn html_first_text(html: Seq<char>, selector: Seq<char>) -> Option<Option<Seq<char>>>;

/// What `scraper` finds in `html` for a CSS `selector`: `None` when the
/// selector does not parse, otherwise the markup of the first matching
/// element, if any.
pub uninterp spec fn html_first_markup(html: Seq<char>, selector: Seq<char>) -> Option<Option<Seq<char>>>;

/// The markdown that `html2md::parse_html` makes of `html`.
pub uninterp spec fn html2md_of(html: Seq<char>) -> Seq<char>;

/// The characters of a nested optional string.
pub open spec fn opt2_view(o: Option<Option<String>>) -> Option<Option<Seq<char>>> {
    match o {
        Some(Some(s)) => Some(Some(s@)),
        Some(None) => Some(None),
        None => None,
    }
}

/// Parses `html` as a document with `scraper::Html::parse_document`, the
/// selector with `scraper::Selector::parse`, and collects the text of the first
/// match (`ElementRef::text`). Claimed: the result is the named outcome.
#[verifier::external_body]
fn select_first_text(html: &str, selector: &str) -> (r: Option<Option<String>>)
    ensures
        opt2_view(r) == html_first_text(html@, selector@),
{
    let document = scraper::Html::parse_document(html);
    match scraper::Selector::parse(selector) {
        Ok(sel) => Some(document.select(&sel).next().map(|e| e.text().collect::<String>())),
        Err(_) => None,
    }
}

/// Like `select_first_text`, but gives the first match's markup
/// (`ElementRef::html`). Claimed: the result is the named outcome.
#[verifier::external_body]
fn select_first_markup(html: &str, selector: &str) -> (r: Option<Option<String>>)
    ensures
        opt2_view(r) == html_first_markup(html@, selector@),
{
    let document = scraper::Html::parse_document(html);
    match scraper::Selector::parse(selector) {
        Ok(sel) => Some(document.select(&sel).next().map(|e| e.html())),
        Err(_) => None,
    }
}

/// Converts HTML to markdown with `html2md::parse_html`. Claimed: the result
/// is the named conversion of the input.
#[verifier::external_body]
fn html2md_convert(html: &str) -> (r: String)
    ensures
        r@ == html2md_of(html@),
{
    html2md::parse_html(html)
}

/// Errors of the documentation scraper. An HTTP failure carries the text of
/// the transport error and the status code it reported, if any.
#[derive(Debug)]
pub enum ScraperError {
    HttpError { message: String, status: Option<u16> },
    IoError(String),
    ParseError(String),
    InvalidHtml(String),
    RateLimitExceeded,
    MaxRetriesExceeded(String),
    Network(String),
    /// A page answered with HTTP 404; carries its URL. Shown as a network
    /// error, and never tried again.
    NotFound(String),
    Unknown(String),
}

/// The text shown for a scraper error.
pub open spec fn scraper_error_text(e: ScraperError) -> Seq<char> {
    match e {
        ScraperError::HttpError { message, .. } => "HTTP error: "@ + message@,
        ScraperError::IoError(m) => "IO error: "@ + m@,
        ScraperError::ParseError(m) => "Parse error: "@ + m@,
        ScraperError::InvalidHtml(m) => "Invalid HTML: "@ + m@,
        ScraperError::RateLimitExceeded => "Rate limit exceeded"@,
        ScraperError::MaxRetriesExceeded(u) => "Max retries exceeded for "@ + u@,
        ScraperError::Network(m) => "Network error: "@ + m@,
        ScraperError::NotFound(u) => "Network error: Not found: "@ + u@,
        ScraperError::Unknown(m) => "Unknown error: "@ + m@,
    }
}

fn joined(prefix: &str, rest: &str) -> (r: String)
    ensures
        r@ == prefix@ + rest@,
{
    let mut r = String::from_str(prefix);
    r.append(rest);
    r
}

impl ScraperError {
    /// The text of the error.
    pub fn message(&self) -> (r: String)
        ensures
            r@ == scraper_error_text(*self),
    {
        match self {
            ScraperError::HttpError { message, .. } => joined("HTTP error: ", message.as_str()),
            ScraperError::IoError(m) => joined("IO error: ", m.as_str()),
            ScraperError::ParseError(m) => joined("Parse error: ", m.as_str()),
            ScraperError::InvalidHtml(m) => joined("Invalid HTML: ", m.as_str()),
            ScraperError::RateLimitExceeded => String::from_str("Rate limit exceeded"),
            ScraperError::MaxRetriesExceeded(u) => joined("Max retries exceeded for ", u.as_str()),
            ScraperError::Network(m) => joined("Network error: ", m.as_str()),
            ScraperError::NotFound(u) => joined("Network error: Not found: ", u.as_str()),
            ScraperError::Unknown(m) => joined("Unknown error: ", m.as_str()),
        }
    }

    /// A parse error with the given message.
    pub fn parse_error(msg: String) -> (e: ScraperError)
        ensures
            e == ScraperError::ParseError(msg),
    {
        ScraperError::ParseError(msg)
    }

    /// An invalid-HTML error with the given message.
    pub fn invalid_html(msg: String) -> (e: ScraperError)
        ensures
            e == ScraperError::InvalidHtml(msg),
    {
        ScraperError::InvalidHtml(msg)
    }

    /// A retries-exhausted error for the given URL.
    pub fn max_retries_exceeded(url: String) -> (e: ScraperError)
        ensures
            e == ScraperError::MaxRetriesExceeded(url),
    {
        ScraperError::MaxRetriesExceeded(url)
    }

    /// A network error with the given message.
    pub fn network(msg: String) -> (e: ScraperError)
        ensures
            e == ScraperError::Network(msg),
    {
        ScraperError::Network(msg)
    }
}

/// The title of a page: the trimmed text of its first `h1` if that is not
/// blank, else the text of its `title` with a trailing ` | GitLab` removed, if
/// that is not blank.
pub open spec fn title_of(html: Seq<char>) -> Option<Seq<char>> {
    let from_h1 = match html_first_text(html, "h1"@) {
        Some(Some(t)) => if trim(t).len() > 0 {
            Some(trim(t))
        } else {
            None
        },
        _ => None,
    };
    match from_h1 {
        Some(t) => Some(t),
        None => match html_first_text(html, "title"@) {
            Some(Some(t)) => {
                let x = trim(trim_end_matches(trim(t), " | GitLab"@));
                if x.len() > 0 {
                    Some(x)
                } else {
                    None
                }
            },
            _ => None,
        },
    }
}

/// The main content of a page: the markup of the first element with class
/// `content`, else of the first `article`, else of the first `main`.
pub open spec fn main_content_of(html: Seq<char>) -> Option<Seq<char>> {
    match html_first_markup(html, ".content"@) {
        Some(Some(m)) => Some(m),
        _ => match html_first_markup(html, "article"@) {
            Some(Some(m)) => Some(m),
            _ => match html_first_markup(html, "main"@) {
                Some(Some(m)) => Some(m),
                _ => None,
            },
        },
    }
}

fn trim_end_matches_chars(v: &Vec<char>, suffix: &Vec<char>) -> (r: Vec<char>)
    ensures
        r@ == trim_end_matches(v@, suffix@),
{
    let mut end: usize = v.len();
    let ghost s0 = v@;
    if suffix.len() == 0 {
        return copy_prefix(v, end);
    }
    assert(v@.take(end as int) == v@);
    while end >= suffix.len() && ends_with_at(v, end, suffix)
        invariant
            end <= v@.len(),
            suffix@.len() > 0,
            trim_end_matches(v@.take(end as int), suffix@) == trim_end_matches(v@, suffix@),
        decreases end,
    {
        let ghost t = v@.take(end as int);
        assert(t.skip(t.len() - suffix@.len()) == suffix@);
        assert(t.take(t.len() - suffix@.len()) == v@.take(end - suffix@.len()));
        end = end - suffix.len();
    }
    proof {
        let t = v@.take(end as int);
        if t.len() >= suffix@.len() {
            assert(t.skip(t.len() - suffix@.len()) != suffix@);
        }
        assert(v@.take(v@.len() as int) == v@);
    }
    copy_prefix(v, end)
}

fn ends_with_at(v: &Vec<char>, end: usize, suffix: &Vec<char>) -> (b: bool)
    requires
        suffix@.len() <= end <= v@.len(),
    ensures
        b == (v@.take(end as int).skip(end - suffix@.len()) == suffix@),
{
    let start = end - suffix.len();
    let mut i: usize = 0;
    while i < suffix.len()
        invariant
            start + suffix@.len() == end <= v@.len(),
            i <= suffix@.len(),
            forall|j: int| 0 <= j < i ==> v@[start + j] == suffix@[j],
        decreases suffix.len() - i,
    {
        if v[start + i] != suffix[i] {
            assert(v@.take(end as int).skip(start as int)[i as int] == v@[start + i]);
            return false;
        }
        i = i + 1;
    }
    assert(v@.take(end as int).skip(start as int) =~= suffix@);
    true
}

fn copy_prefix(v: &Vec<char>, n: usize) -> (r: Vec<char>)
    requires
        n <= v@.len(),
    ensures
        r@ == v@.take(n as int),
{
    let mut r: Vec<char> = Vec::new();
    let mut i: usize = 0;
    while i < n
        invariant
            i <= n <= v@.len(),
            r@ == v@.take(i as int),
        decreases n - i,
    {
        r.push(v[i]);
        assert(v@.take(i + 1) == v@.take(i as int).push(v@[i as int]));
        i = i + 1;
    }
    r
}

proof fn lemma_collapse_no_triple(s: Seq<char>)
    ensures
        !has_triple_newline(collapse_blank_lines(s)),
    decreases s.len(),
{
    if s.len() > 0 {
        lemma_collapse_no_triple(s.drop_last());
        let p = collapse_blank_lines(s.drop_last());
        let r = collapse_blank_lines(s);
        if r != p {
            assert(r == p.push(s.last()));
            assert forall|i: int| 0 <= i && i + 2 < r.len() && #[trigger] r[i] == '\n' implies !(r[i + 1]
                == '\n' && r[i + 2] == '\n') by {
                if i + 2 < p.len() {
                    assert(r[i] == p[i] && r[i + 1] == p[i + 1] && r[i + 2] == p[i + 2]);
                    assert(p[i] == '\n');
                }
            }
        }
    }
}

proof fn lemma_drop_first_no_triple(s: Seq<char>)
    requires
        s.len() > 0,
        !has_triple_newline(s),
    ensures
        !has_triple_newline(s.drop_first()),
{
    let t = s.drop_first();
    assert forall|i: int| 0 <= i && i + 2 < t.len() && #[trigger] t[i] == '\n' implies !(t[i + 1] == '\n'
        && t[i + 2] == '\n') by {
        assert(s[i + 1] == '\n');
    }
}

proof fn lemma_drop_last_no_triple(s: Seq<char>)
    requires
        s.len() > 0,
        !has_triple_newline(s),
    ensures
        !has_triple_newline(s.drop_last()),
{
    let t = s.drop_last();
    assert forall|i: int| 0 <= i && i + 2 < t.len() && #[trigger] t[i] == '\n' implies !(t[i + 1] == '\n'
        && t[i + 2] == '\n') by {
        assert(s[i] == '\n');
    }
}

proof fn lemma_trim_start_no_triple(s: Seq<char>)
    requires
        !has_triple_newline(s),
    ensures
        !has_triple_newline(crate::text::trim_start(s)),
    decreases s.len(),
{
    if s.len() > 0 && crate::text::is_ws(s[0]) {
        lemma_drop_first_no_triple(s);
        lemma_trim_start_no_triple(s.drop_first());
    }
}

proof fn lemma_trim_end_no_triple(s: Seq<char>)
    requires
        !has_triple_newline(s),
    ensures
        !has_triple_newline(crate::text::trim_end(s)),
    decreases s.len(),
{
    if s.len() > 0 && crate::text::is_ws(s.last()) {
        lemma_drop_last_no_triple(s);
        lemma_trim_end_no_triple(s.drop_last());
    }
}

proof fn lemma_collapse_keeps_clean(s: Seq<char>)
    requires
        !has_triple_newline(s),
    ensures
        collapse_blank_lines(s) == s,
    decreases s.len(),
{
    if s.len() > 0 {
        lemma_drop_last_no_triple(s);
        lemma_collapse_keeps_clean(s.drop_last());
        let p = s.drop_last();
        if s.last() == '\n' && p.len() >= 2 && p[p.len() - 1] == '\n' && p[p.len() - 2] == '\n' {
            let i = s.len() - 3;
            assert(s[i] == '\n' && s[i + 1] == '\n' && s[i + 2] == '\n');
            assert(has_triple_newline(s));
        }
        assert(p.push(s.last()) == s);
    }
}

/// Cleaning markdown that is already clean changes nothing.
pub proof fn law_clean_markdown_idempotent(s: Seq<char>)
    ensures
        cleaned_markdown(cleaned_markdown(s)) == cleaned_markdown(s),
{
    let t = cleaned_markdown(s);
    law_cleaned_markdown_has_no_triple_newline(s);
    lemma_collapse_keeps_clean(t);
    crate::text::lemma_trim_idempotent(collapse_blank_lines(s));
}

/// Cleaned markdown never holds more than one blank line in a row: no three
/// line breaks follow each other.
pub proof fn law_cleaned_markdown_has_no_triple_newline(s: Seq<char>)
    ensures
        !has_triple_newline(cleaned_markdown(s)),
{
    lemma_collapse_no_triple(s);
    lemma_trim_start_no_triple(collapse_blank_lines(s));
    lemma_trim_end_no_triple(crate::text::trim_start(collapse_blank_lines(s)));
}

/// HTML parser for GitLab documentation pages.
pub struct HtmlParser;

impl HtmlParser {
    /// The markup of the page's main content.
    pub fn extract_main_content(html: &str) -> (r: Result<String, ScraperError>)
        ensures
            match main_content_of(html@) {
                Some(m) => r matches Ok(s) && s@ == m,
                None => r matches Err(ScraperError::ParseError(msg)) && msg@ == "Could not find main content"@,
            },
    {
        if let Some(Some(m)) = select_first_markup(html, ".content") {
            return Ok(m);
        }
        if let Some(Some(m)) = select_first_markup(html, "article") {
            return Ok(m);
        }
        if let Some(Some(m)) = select_first_markup(html, "main") {
            return Ok(m);
        }
        Err(ScraperError::parse_error(String::from_str("Could not find main content")))
    }

    /// HTML converted to markdown.
    pub fn html_to_markdown(html: &str) -> (r: Result<String, ScraperError>)
        ensures
            r matches Ok(s) && s@ == html2md_of(html@),
    {
        Ok(html2md_convert(html))
    }

    /// The page title.
    pub fn extract_title(html: &str) -> (r: Option<String>)
        ensures
            crate::token_config::opt_string_view(r) == title_of(html@),
    {
        if let Some(Some(t)) = select_first_text(html, "h1") {
            let tv = chars_of(t.as_str());
            let trimmed = trim_chars(&tv);
            if trimmed.len() > 0 {
                return Some(string_of(&trimmed));
            }
        }
        if let Some(Some(t)) = select_first_text(html, "title") {
            let tv = chars_of(t.as_str());
            let t1 = trim_chars(&tv);
            let suffix = chars_of(" | GitLab");
            let t2 = trim_end_matches_chars(&t1, &suffix);
            let t3 = trim_chars(&t2);
            if t3.len() > 0 {
                return Some(string_of(&t3));
            }
        }
        None
    }

    /// Title and cleaned markdown of a page. The title is `Untitled` when the
    /// page has none; a page without main content is an error.
    pub fn process_page(html: &str) -> (r: Result<(String, String), ScraperError>)
        ensures
            match main_content_of(html@) {
                Some(m) => r matches Ok((title, md)) && title@ == (match title_of(html@) {
                    Some(t) => t,
                    None => "Untitled"@,
                }) && md@ == cleaned_markdown(html2md_of(m)),
                None => r matches Err(ScraperError::ParseError(msg)) && msg@ == "Could not find main content"@,
            },
    {
        let title = match Self::extract_title(html) {
            Some(t) => t,
            None => String::from_str("Untitled"),
        };
        let content_html = Self::extract_main_content(html)?;
        let markdown = Self::html_to_markdown(content_html.as_str())?;
        let markdown = Self::clean_markdown(markdown.as_str());
        Ok((title, markdown))
    }

    /// Markdown with runs of blank lines cut to one blank line, trimmed.
    pub fn clean_markdown(markdown: &str) -> (r: String)
        ensures
            r@ == cleaned_markdown(markdown@),
    {
        let v = chars_of(markdown);
        let mut out: Vec<char> = Vec::new();
        let mut i: usize = 0;
        while i < v.len()
            invariant
                i <= v@.len(),
                out@ == collapse_blank_lines(v@.take(i as int)),
            decreases v.len() - i,
        {
            let c = v[i];
            let n = out.len();
            let skip = c == '\n' && n >= 2 && out[n - 1] == '\n' && out[n - 2] == '\n';
            if !skip {
                out.push(c);
            }
            proof {
                let t = v@.take(i + 1);
                assert(t.drop_last() == v@.take(i as int));
                assert(t.last() == c);
            }
            i = i + 1;
        }
        assert(v@.take(v@.len() as int) == v@);
        let t = trim_chars(&out);
        string_of(&t)
    }
}

} // verus!
