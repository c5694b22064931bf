//! The decisions of the image cache: how fast downloads may start, which
//! downloads carry the session's cookies, and when a download is repeated.
//!
//! Files and requests are handled elsewhere; the clock's reading comes in as
//! a number of milliseconds.

use vstd::prelude::*;
use crate::http_common::RetryState;
use crate::text::{
    append_chars, chars_start_with, decimal, starts_with, str_chars, string_from_chars,
    to_decimal,
};
use crate::views::view_opt;

verus! {

/// A bucket of tokens that is filled up once a second: a download may start
/// for each token.
#[derive(Debug, Clone, Copy, PartialEq, Eq, Structural)]
pub struct RateLimiter {
    /// The clock's reading when the bucket was last filled up.
    pub last_reset: u64,
    /// The tokens that are left.
    pub tokens: u32,
    /// The tokens of a full bucket.
    pub max_tokens: u32,
}

impl RateLimiter {
    /// The milliseconds since the bucket was last filled up, on a clock that
    /// reads `now`; zero where the clock reads less than it did then.
    pub open spec fn elapsed(self, now: u64) -> u64 {
        if now >= self.last_reset {
            (now - self.last_reset) as u64
        } else {
            0
        }
    }

    /// The bucket at `now`, before a token is asked for: full where a
    /// second has passed since it was filled up.
    pub open spec fn refilled(self, now: u64) -> RateLimiter {
        if self.elapsed(now) >= 1000 {
            RateLimiter { last_reset: now, tokens: self.max_tokens, ..self }
        } else {
            self
        }
    }

    /// The bucket after a token was asked for at `now`, and the answer: the
    /// token, or the milliseconds until the bucket is filled up again.
    pub open spec fn spec_acquire(self, now: u64) -> (RateLimiter, Option<u64>) {
        let bucket = self.refilled(now);
        if bucket.tokens > 0 {
            (RateLimiter { tokens: (bucket.tokens - 1) as u32, ..bucket }, None)
        } else {
            (bucket, Some((1000 - bucket.elapsed(now)) as u64))
        }
    }

    /// A full bucket of `max_tokens`, filled at `now`.
    pub fn new(max_tokens: u32, now: u64) -> (r: Self)
        ensures
            r == (RateLimiter { last_reset: now, tokens: max_tokens, max_tokens }),
    {
        RateLimiter { last_reset: now, tokens: max_tokens, max_tokens }
    }

    /// Asks for a token at `now`.
    ///
    /// Returns `None` where a token was there and is taken; else the
    /// milliseconds to wait before asking again.
    pub fn acquire(&mut self, now: u64) -> (r: Option<u64>)
        ensures
            (*final(self), r) == old(self).spec_acquire(now),
    {
        let elapsed = if now >= self.last_reset {
            now - self.last_reset
        } else {
            0
        };
        let since = if elapsed >= 1000 {
            self.tokens = self.max_tokens;
            self.last_reset = now;
            0
        } else {
            elapsed
        };
        if self.tokens > 0 {
            self.tokens = self.tokens - 1;
            None
        } else {
            Some(1000 - since)
        }
    }
}

/// Whether an address is one of the service's own: only there do downloads
/// carry the session's cookies.
pub open spec fn spec_is_vrchat_domain(url: Seq<char>) -> bool {
    starts_with(url, "https://api.vrchat.cloud/"@) || starts_with(
        url,
        "https://files.vrchat.cloud/"@,
    ) || starts_with(url, "https://assets.vrchat.com/"@) || starts_with(
        url,
        "https://d348imysud55la.cloudfront.net/"@,
    )
}

/// Whether an address is one of the service's own.
pub fn is_vrchat_domain(url: &str) -> (r: bool)
    ensures
        r == spec_is_vrchat_domain(url@),
{
    let chars = str_chars(url);
    let api = str_chars("https://api.vrchat.cloud/");
    let files = str_chars("https://files.vrchat.cloud/");
    let assets = str_chars("https://assets.vrchat.com/");
    let cdn = str_chars("https://d348imysud55la.cloudfront.net/");
    chars_start_with(&chars, &api) || chars_start_with(&chars, &files) || chars_start_with(
        &chars,
        &assets,
    ) || chars_start_with(&chars, &cdn)
}

/// The cookies that a download from `url` carries: the session's, where the
/// address is one of the service's own, and none elsewhere.
pub fn cookies_for(url: &str, auth_cookies: Option<String>) -> (r: Option<String>)
    ensures
        view_opt(r) == if spec_is_vrchat_domain(url@) {
            view_opt(auth_cookies)
        } else {
            None
        },
{
    if is_vrchat_domain(url) {
        auth_cookies
    } else {
        None
    }
}

/// What came of asking for an image once.
#[derive(Debug, Clone, PartialEq, Eq)]
pub enum Fetched {
    /// A response arrived, with this status and this many seconds asked to
    /// wait where it asked.
    Response { status: u16, retry_after: Option<u64> },
    /// No response arrived; why.
    Failure(String),
}

/// The mathematical value of a [`Fetched`].
pub enum FetchedView {
    Response { status: u16, retry_after: Option<u64> },
    Failure(Seq<char>),
}

impl View for Fetched {
    type V = FetchedView;

    open spec fn view(&self) -> FetchedView {
        match self {
            Fetched::Response { status, retry_after } => FetchedView::Response {
                status: *status,
                retry_after: *retry_after,
            },
            Fetched::Failure(message) => FetchedView::Failure(message@),
        }
    }
}

/// What to do after an image was asked for once.
#[derive(Debug, Clone, PartialEq, Eq)]
pub enum Download {
    /// Take the body of the response as the image.
    Take,
    /// Wait for so many milliseconds, then ask again.
    Retry(u64),
    /// Give up with this message.
    Fail(String),
}

/// The mathematical value of a [`Download`].
pub enum DownloadView {
    Take,
    Retry(u64),
    Fail(Seq<char>),
}

impl View for Download {
    type V = DownloadView;

    open spec fn view(&self) -> DownloadView {
        match self {
            Download::Take => DownloadView::Take,
            Download::Retry(wait) => DownloadView::Retry(*wait),
            Download::Fail(message) => DownloadView::Fail(message@),
        }
    }
}

/// The message that a failed download ends with.
pub open spec fn failure_message(url: Seq<char>, fetched: FetchedView, retried: bool) -> Seq<char> {
    match fetched {
        FetchedView::Response { status, .. } => if retried {
            "Image request failed after retries (status "@ + decimal(status as nat) + "): "@
                + url
        } else {
            "Failed to download image (status "@ + decimal(status as nat) + "): "@ + url
        },
        FetchedView::Failure(message) => "Failed to download image: "@ + message,
    }
}

/// What to do after an image was asked for once, and the state of the
/// repetition afterwards.
///
/// A response with a status of success is taken. A refusal for too many
/// requests, an error of the server and a failure to get a response are
/// worth a repetition while one is left; any other status fails at once.
pub open spec fn spec_download_with_retry(
    state: RetryState,
    url: Seq<char>,
    fetched: FetchedView,
) -> (RetryState, DownloadView) {
    match fetched {
        FetchedView::Response { status, retry_after } => if 200 <= status < 300 {
            (state, DownloadView::Take)
        } else if status == 429 || 500 <= status < 600 {
            if state.may_retry() {
                (state.advanced(), DownloadView::Retry(state.wait(retry_after)))
            } else {
                (state, DownloadView::Fail(failure_message(url, fetched, true)))
            }
        } else {
            (state, DownloadView::Fail(failure_message(url, fetched, false)))
        },
        FetchedView::Failure(_) => if state.may_retry() {
            (state.advanced(), DownloadView::Retry(state.backoff))
        } else {
            (state, DownloadView::Fail(failure_message(url, fetched, false)))
        },
    }
}

/// The message of a download that ended with a status.
fn status_message(head: &str, status: u16, url: &str) -> (r: String)
    ensures
        r@ == head@ + decimal(status as nat) + "): "@ + url@,
{
    let mut chars = str_chars(head);
    let number = to_decimal(status as u64);
    let middle = str_chars("): ");
    let tail = str_chars(url);
    append_chars(&mut chars, &number);
    append_chars(&mut chars, &middle);
    append_chars(&mut chars, &tail);
    string_from_chars(&chars)
}

/// Decides what to do after an image was asked for once.
pub fn download_with_retry(state: &mut RetryState, url: &str, fetched: Fetched) -> (r: Download)
    requires
        old(state).wf(),
    ensures
        final(state).wf(),
        (*final(state), r@) == spec_download_with_retry(*old(state), url@, fetched@),
{
    match fetched {
        Fetched::Response { status, retry_after } => {
            if 200 <= status && status < 300 {
                Download::Take
            } else if status == 429 || (500 <= status && status < 600) {
                match state.next_wait(retry_after) {
                    Some(wait) => Download::Retry(wait),
                    None => Download::Fail(
                        status_message("Image request failed after retries (status ", status, url),
                    ),
                }
            } else {
                Download::Fail(status_message("Failed to download image (status ", status, url))
            }
        },
        Fetched::Failure(message) => {
            match state.next_wait(None) {
                Some(wait) => Download::Retry(wait),
                None => {
                    let mut chars = str_chars("Failed to download image: ");
                    let tail = str_chars(message.as_str());
                    append_chars(&mut chars, &tail);
                    Download::Fail(string_from_chars(&chars))
                },
            }
        },
    }
}

} // verus!
