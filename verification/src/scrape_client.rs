//! The documentation scraper's fetching rules: where a page is fetched from,
//! how a response is judged, and when a failed fetch is tried again.
//!
//! The fetching itself (HTTP, rate limiting, sleeping) is done by the caller,
//! which asks [`RetryState::next`] what to do after each attempt.

use vstd::prelude::*;
use vstd::string::StringExecFns;
use crate::parser::ScraperError;
use crate::handler::trim_end_char;
use crate::text::{decimal, trim_start_char, strip_trailing, strip_leading, u64_to_decimal};

verus! {

/// Settings of the documentation scraper: the site root and how many times a
/// failed fetch is tried again.
pub struct DocScraperClient {
    base_url: String,
    max_retries: u32,
}

impl DocScraperClient {
    /// The site root.
    pub closed spec fn spec_base_url(&self) -> Seq<char> {
        self.base_url@
    }

    /// How many times a failed fetch is tried again.
    pub closed spec fn spec_max_retries(&self) -> u32 {
        self.max_retries
    }

    /// A scraper of `https://docs.gitlab.com` that retries up to 3 times.
    /// The settings themselves cannot fail; the HTTP client that goes with
    /// them is built by the caller.
    pub fn new() -> (r: Result<DocScraperClient, ScraperError>)
        ensures
            r matches Ok(c) && c.spec_base_url() == "https://docs.gitlab.com"@ && c.spec_max_retries() == 3,
    {
        Ok(DocScraperClient { base_url: String::from_str("https://docs.gitlab.com"), max_retries: 3 })
    }

    /// The same settings with another site root.
    pub fn with_base_url(self, base_url: String) -> (c: DocScraperClient)
        ensures
            c.spec_base_url() == base_url@,
            c.spec_max_retries() == self.spec_max_retries(),
    {
        DocScraperClient { base_url, max_retries: self.max_retries }
    }

    /// The same settings with another retry count.
    pub fn with_max_retries(self, max_retries: u32) -> (c: DocScraperClient)
        ensures
            c.spec_base_url() == self.spec_base_url(),
            c.spec_max_retries() == max_retries,
    {
        DocScraperClient { base_url: self.base_url, max_retries }
    }

    /// The site root.
    pub fn base_url(&self) -> (r: &str)
        ensures
            r@ == self.spec_base_url(),
    {
        self.base_url.as_str()
    }

    /// How many times a failed fetch is tried again.
    pub fn max_retries(&self) -> (r: u32)
        ensures
            r == self.spec_max_retries(),
    {
        self.max_retries
    }

    /// The URL of a page: the root without trailing slashes, a slash, and the
    /// path without leading slashes.
    pub fn page_url(&self, path: &str) -> (r: String)
        ensures
            r@ == trim_end_char(self.spec_base_url(), '/') + "/"@ + trim_start_char(path@, '/'),
    {
        let mut r = strip_trailing(self.base_url.as_str(), '/');
        r.append("/");
        let p = strip_leading(path, '/');
        r.append(p.as_str());
        r
    }

    /// The retry bookkeeping for fetching one page.
    pub fn start_fetch(&self) -> (s: RetryState)
        ensures
            s.attempt() == 0,
            s.max_retries() == self.spec_max_retries(),
            s.delay_ms() == 500,
    {
        RetryState::new(self.max_retries)
    }
}

impl Default for DocScraperClient {
    fn default() -> (c: DocScraperClient)
        ensures
            c.spec_base_url() == "https://docs.gitlab.com"@,
            c.spec_max_retries() == 3,
    {
        DocScraperClient { base_url: String::from_str("https://docs.gitlab.com"), max_retries: 3 }
    }
}

/// The result of one fetch attempt, from the status code and the body: the
/// body of a success (200 to 299), the not-found error naming the URL for 404,
/// the rate-limit error for 429, and otherwise a network error with the
/// code and the body (`Unknown error` when the body could not be read).
pub open spec fn fetch_result_ok(status: u16) -> bool {
    200 <= status && status <= 299
}

/// Judges one response. `body` is what reading the body gave.
pub fn fetch_outcome(status: u16, url: &str, body: Result<String, ScraperError>) -> (r: Result<String, ScraperError>)
    ensures
        fetch_result_ok(status) ==> r == body,
        status == 404 ==> (r matches Err(ScraperError::NotFound(u)) && u@ == url@),
        status == 429 ==> r matches Err(ScraperError::RateLimitExceeded),
        !fetch_result_ok(status) && status != 404 && status != 429 ==> (r matches Err(ScraperError::Network(m))
            && m@ == "HTTP "@ + decimal(status as nat) + ": "@ + (match body {
                Ok(t) => t@,
                Err(_) => "Unknown error"@,
            })),
{
    if 200 <= status && status <= 299 {
        body
    } else if status == 404 {
        Err(ScraperError::NotFound(String::from_str(url)))
    } else if status == 429 {
        Err(ScraperError::RateLimitExceeded)
    } else {
        let mut m = String::from_str("HTTP ");
        let code = u64_to_decimal(status as u64);
        m.append(code.as_str());
        m.append(": ");
        match body {
            Ok(t) => m.append(t.as_str()),
            Err(_) => m.append("Unknown error"),
        }
        Err(ScraperError::Network(m))
    }
}

/// The wait before retry number `k + 1`: 500 ms, doubled after each retry,
/// never more than 10 s.
pub open spec fn backoff_ms(k: nat) -> nat
    decreases k,
{
    if k == 0 {
        500
    } else {
        let d = 2 * backoff_ms((k - 1) as nat);
        if d < 10000 { d } else { 10000 }
    }
}

/// Whether a failure is a page answered with HTTP 404 (as `fetch_outcome`
/// reports it, or as a transport error with that status): such a failure
/// is never tried again.
pub open spec fn is_not_found(e: ScraperError) -> bool {
    ||| e is NotFound
    ||| e matches ScraperError::HttpError { status: Some(s), .. } && s == 404
}

/// What to do after an attempt: stop with a result, or wait and try again.
pub enum FetchStep {
    Done(Result<String, ScraperError>),
    Retry { delay_ms: u64 },
}

/// Bookkeeping of the attempts to fetch one page.
pub struct RetryState {
    attempt: u32,
    delay_ms: u64,
    max_retries: u32,
}

impl RetryState {
    #[verifier::type_invariant]
    spec fn well_formed(&self) -> bool {
        &&& self.attempt <= self.max_retries
        &&& self.delay_ms == backoff_ms(self.attempt as nat)
    }

    /// The number of the attempt under way, from 0.
    pub closed spec fn attempt(&self) -> u32 {
        self.attempt
    }

    /// The wait before the next retry, in milliseconds.
    pub closed spec fn delay_ms(&self) -> u64 {
        self.delay_ms
    }

    /// How many retries are allowed.
    pub closed spec fn max_retries(&self) -> u32 {
        self.max_retries
    }

    /// Bookkeeping before the first attempt.
    pub fn new(max_retries: u32) -> (s: RetryState)
        ensures
            s.attempt() == 0,
            s.delay_ms() == 500,
            s.max_retries() == max_retries,
    {
        RetryState { attempt: 0, delay_ms: 500, max_retries }
    }

    /// The number of the attempt under way, from 0.
    pub fn current_attempt(&self) -> (a: u32)
        ensures
            a == self.attempt(),
    {
        self.attempt
    }

    /// Takes the result of the attempt under way. A success ends the fetch
    /// with the content. A failure ends it with that failure when it is an
    /// HTTP 404 or when no retry is left; otherwise the caller waits the
    /// current delay and tries again, and the delay doubles, up to 10 s.
    pub fn next(&mut self, outcome: Result<String, ScraperError>) -> (step: FetchStep)
        ensures
            final(self).max_retries() == old(self).max_retries(),
            final(self).attempt() <= final(self).max_retries(),
            final(self).delay_ms() == backoff_ms(final(self).attempt() as nat),
            match outcome {
                Ok(c) => step == FetchStep::Done(Ok(c)) && *final(self) == *old(self),
                Err(e) => if is_not_found(e) || old(self).attempt() >= old(self).max_retries() {
                    step == FetchStep::Done(Err(e)) && *final(self) == *old(self)
                } else {
                    &&& step == (FetchStep::Retry { delay_ms: old(self).delay_ms() })
                    &&& final(self).attempt() == old(self).attempt() + 1
                },
            },
    {
        proof {
            use_type_invariant(&*self);
        }
        match outcome {
            Ok(c) => FetchStep::Done(Ok(c)),
            Err(e) => {
                let not_found = match &e {
                    ScraperError::NotFound(_) => true,
                    ScraperError::HttpError { status: Some(s), .. } => *s == 404,
                    _ => false,
                };
                if not_found || self.attempt >= self.max_retries {
                    FetchStep::Done(Err(e))
                } else {
                    let wait = self.delay_ms;
                    let doubled = if wait < 5000 { wait * 2 } else { 10000 };
                    let next_wait = if doubled < 10000 { doubled } else { 10000 };
                    proof {
                        lemma_backoff_bounds(self.attempt as nat);
                        assert(backoff_ms((self.attempt + 1) as nat) == (if 2 * backoff_ms(self.attempt as nat) < 10000 {
                            2 * backoff_ms(self.attempt as nat)
                        } else {
                            10000
                        }));
                    }
                    *self = RetryState { attempt: self.attempt + 1, delay_ms: next_wait, max_retries: self.max_retries };
                    FetchStep::Retry { delay_ms: wait }
                }
            },
        }
    }
}

proof fn lemma_backoff_bounds(k: nat)
    ensures
        500 <= backoff_ms(k) <= 10000,
    decreases k,
{
    if k > 0 {
        lemma_backoff_bounds((k - 1) as nat);
    }
}

/// No wait between attempts is shorter than 500 ms or longer than 10 s.
pub proof fn law_backoff_is_capped(k: nat)
    ensures
        500 <= backoff_ms(k) <= 10000,
{
    lemma_backoff_bounds(k);
}

/// Each wait is twice the one before until the 10 s cap is reached, and then
/// stays at the cap.
pub proof fn law_backoff_doubles(k: nat)
    ensures
        backoff_ms(k + 1) == (if 2 * backoff_ms(k) < 10000 { 2 * backoff_ms(k) } else { 10000 }),
        backoff_ms(k) == 10000 ==> backoff_ms(k + 1) == 10000,
{
}

} // verus!
