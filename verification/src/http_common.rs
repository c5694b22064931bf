//! What all requests to the service share: how the client names itself, and
//! how often and how patiently a request is repeated.

use vstd::prelude::*;

verus! {

/// How this client names itself to the service.
pub const USER_AGENT_STRING: &'static str = "VRC-Circle/0.0.1 contact@kirameki.cafe";

/// How often a request is repeated at most.
pub const MAX_REQUEST_RETRIES: u8 = 5;

/// The wait before the first repetition, in milliseconds.
pub const INITIAL_BACKOFF: u64 = 500;

/// The longest wait between two repetitions, in milliseconds.
pub const MAX_BACKOFF: u64 = 10_000;

/// How many downloads may start within one second.
pub const MAX_DOWNLOADS_PER_SECOND: u32 = 10;

/// How far the repetition of a request has come.
#[derive(Debug, Clone, Copy, PartialEq, Eq, Structural)]
pub struct RetryState {
    /// How often the request was repeated.
    pub attempt: u8,
    /// The wait before the next repetition, in milliseconds, unless the
    /// service names one.
    pub backoff: u64,
}

impl RetryState {
    /// The wait before the next repetition is no longer than the longest.
    pub open spec fn wf(self) -> bool {
        self.backoff <= MAX_BACKOFF
    }

    /// The wait to take before the next repetition: what the service asked
    /// for, in seconds, or else the current backoff; never more milliseconds
    /// than 64 bits hold.
    pub open spec fn wait(self, retry_after_seconds: Option<u64>) -> u64 {
        match retry_after_seconds {
            Some(seconds) => if seconds * 1000 > u64::MAX {
                u64::MAX
            } else {
                (seconds * 1000) as u64
            },
            None => self.backoff,
        }
    }

    /// The state after a repetition: one attempt more, and twice the backoff,
    /// up to the longest.
    pub open spec fn advanced(self) -> RetryState {
        RetryState {
            attempt: (self.attempt + 1) as u8,
            backoff: if self.backoff * 2 >= MAX_BACKOFF {
                MAX_BACKOFF
            } else {
                (self.backoff * 2) as u64
            },
        }
    }

    /// Whether the request may be repeated once more.
    pub open spec fn may_retry(self) -> bool {
        self.attempt < MAX_REQUEST_RETRIES
    }

    /// The state before the first attempt.
    pub fn new() -> (r: Self)
        ensures
            r.wf(),
            r == (RetryState { attempt: 0, backoff: INITIAL_BACKOFF }),
    {
        RetryState { attempt: 0, backoff: INITIAL_BACKOFF }
    }

    /// Decides on a repetition after a failure that is worth one.
    ///
    /// Returns the milliseconds to wait, and counts the repetition; `None`,
    /// and no change, where the request was repeated often enough.
    pub fn next_wait(&mut self, retry_after_seconds: Option<u64>) -> (r: Option<u64>)
        requires
            old(self).wf(),
        ensures
            final(self).wf(),
            old(self).may_retry() ==> r == Some(old(self).wait(retry_after_seconds))
                && *final(self) == old(self).advanced(),
            !old(self).may_retry() ==> r is None && *final(self) == *old(self),
    {
        if self.attempt >= MAX_REQUEST_RETRIES {
            return None;
        }
        let wait = match retry_after_seconds {
            Some(seconds) => if seconds > u64::MAX / 1000 {
                u64::MAX
            } else {
                seconds * 1000
            },
            None => self.backoff,
        };
        self.attempt = self.attempt + 1;
        self.backoff = if self.backoff >= MAX_BACKOFF / 2 {
            MAX_BACKOFF
        } else {
            self.backoff * 2
        };
        Some(wait)
    }
}

/// The headers of a request to the service: who asks, what is accepted and
/// sent, where the request comes from, and the credentials where there are
/// any.
pub open spec fn spec_api_headers(auth: Option<Seq<char>>, cookie: Option<Seq<char>>) -> Seq<
    (Seq<char>, Seq<char>),
> {
    seq![
        ("user-agent"@, "VRC-Circle/0.0.1 contact@kirameki.cafe"@),
        ("accept"@, "*/*"@),
        ("content-type"@, "application/json"@),
        ("origin"@, "https://vrchat.com"@),
    ] + match auth {
        Some(value) => seq![("authorization"@, value)],
        None => Seq::empty(),
    } + match cookie {
        Some(value) => seq![("cookie"@, value)],
        None => Seq::empty(),
    }
}

/// The view of a list of headers.
pub open spec fn view_headers(headers: Seq<(String, String)>) -> Seq<(Seq<char>, Seq<char>)> {
    Seq::new(headers.len(), |i: int| (headers[i].0@, headers[i].1@))
}

/// The view of an optional string slice.
pub open spec fn view_opt_str(s: Option<&str>) -> Option<Seq<char>> {
    match s {
        Some(s) => Some(s@),
        None => None,
    }
}

/// The headers of a request to the service, as names and values.
pub fn build_api_headers(auth: Option<&str>, cookie: Option<&str>) -> (r: Vec<(String, String)>)
    ensures
        view_headers(r@) == spec_api_headers(view_opt_str(auth), view_opt_str(cookie)),
{
    let mut headers: Vec<(String, String)> = Vec::new();
    headers.push(("user-agent".to_string(), USER_AGENT_STRING.to_string()));
    headers.push(("accept".to_string(), "*/*".to_string()));
    headers.push(("content-type".to_string(), "application/json".to_string()));
    headers.push(("origin".to_string(), "https://vrchat.com".to_string()));
    match auth {
        Some(value) => {
            headers.push(("authorization".to_string(), value.to_string()));
        },
        None => {},
    }
    match cookie {
        Some(value) => {
            headers.push(("cookie".to_string(), value.to_string()));
        },
        None => {},
    }
    assert(view_headers(headers@) =~= spec_api_headers(view_opt_str(auth), view_opt_str(cookie)));
    headers
}

} // verus!
