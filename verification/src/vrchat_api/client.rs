//! The decisions of the request client: which cookies it holds and sends,
//! when a request is repeated, how the pages of a list are walked and how the
//! two friend lists make one.
//!
//! The requests themselves are sent elsewhere; what comes back is handed in
//! as plain values.

use vstd::prelude::*;
use vstd::string::{StrSliceExecFns, StringSliceAdditionalSpecFns};
use crate::http_common::{view_opt_str, RetryState};
use crate::text::{
    append_chars, before_first, chars_before_first, chars_start_with, parse_u64, spec_parse_u64,
    starts_with, str_chars, str_eq, string_from_chars,
};
use crate::views::{view_opt, view_seq};
use crate::vrchat_api::error::{VRCError, VRCErrorView};
use crate::vrchat_api::types::user::{LimitedUserFriend, LimitedUserFriendView};

verus! {

/// How many entries of a list the service is asked for at once.
pub const PAGE_SIZE: usize = 100;

/// The cookies of a session.
#[derive(Debug, Clone, Default, PartialEq, Eq)]
pub struct CookieStore {
    pub auth_cookie: Option<String>,
    pub two_factor_cookie: Option<String>,
}

/// The mathematical value of a [`CookieStore`].
pub struct CookieStoreView {
    pub auth_cookie: Option<Seq<char>>,
    pub two_factor_cookie: Option<Seq<char>>,
}

impl View for CookieStore {
    type V = CookieStoreView;

    open spec fn view(&self) -> CookieStoreView {
        CookieStoreView {
            auth_cookie: view_opt(self.auth_cookie),
            two_factor_cookie: view_opt(self.two_factor_cookie),
        }
    }
}

impl CookieStoreView {
    /// What is sent as the `Cookie` header: the cookies that are there, the
    /// session cookie first, with `; ` between two; `None` where there is
    /// none.
    pub open spec fn header_value(self) -> Option<Seq<char>> {
        match (self.auth_cookie, self.two_factor_cookie) {
            (Some(auth), Some(second)) => Some(auth + "; "@ + second),
            (Some(auth), None) => Some(auth),
            (None, Some(second)) => Some(second),
            (None, None) => None,
        }
    }

    /// The store after one `Set-Cookie` header: the name and value before the
    /// first `;` becomes the session cookie where it begins with `auth=`, the
    /// second-factor cookie where it begins with `twoFactorAuth=`.
    pub open spec fn with_set_cookie(self, header: Seq<char>) -> CookieStoreView {
        let pair = before_first(header, ';');
        if starts_with(pair, "auth="@) {
            CookieStoreView { auth_cookie: Some(pair), ..self }
        } else if starts_with(pair, "twoFactorAuth="@) {
            CookieStoreView { two_factor_cookie: Some(pair), ..self }
        } else {
            self
        }
    }

    /// The store after the `Set-Cookie` headers of a response, one after the
    /// other.
    pub open spec fn with_set_cookies(self, headers: Seq<Seq<char>>) -> CookieStoreView
        decreases headers.len(),
    {
        if headers.len() == 0 {
            self
        } else {
            self.with_set_cookies(headers.drop_last()).with_set_cookie(headers.last())
        }
    }
}

impl CookieStore {
    /// What is sent as the `Cookie` header.
    pub fn to_header_value(&self) -> (r: Option<String>)
        ensures
            view_opt(r) == self@.header_value(),
    {
        match (&self.auth_cookie, &self.two_factor_cookie) {
            (Some(auth), Some(second)) => {
                let mut chars = str_chars(auth.as_str());
                let separator = str_chars("; ");
                let tail = str_chars(second.as_str());
                append_chars(&mut chars, &separator);
                append_chars(&mut chars, &tail);
                Some(string_from_chars(&chars))
            },
            (Some(auth), None) => Some(auth.clone()),
            (None, Some(second)) => Some(second.clone()),
            (None, None) => None,
        }
    }

    /// Takes the cookies that the `Set-Cookie` headers of a response set.
    pub fn update_from_response(&mut self, set_cookie_headers: &Vec<String>)
        ensures
            final(self)@ == old(self)@.with_set_cookies(view_seq(set_cookie_headers@)),
    {
        let ghost headers = view_seq(set_cookie_headers@);
        let auth_prefix = str_chars("auth=");
        let second_prefix = str_chars("twoFactorAuth=");
        let mut i: usize = 0;
        assert(headers.take(0) =~= Seq::<Seq<char>>::empty());
        while i < set_cookie_headers.len()
            invariant
                i <= set_cookie_headers@.len(),
                headers == view_seq(set_cookie_headers@),
                auth_prefix@ == "auth="@,
                second_prefix@ == "twoFactorAuth="@,
                self@ == old(self)@.with_set_cookies(headers.take(i as int)),
            decreases set_cookie_headers@.len() - i,
        {
            proof {
                assert(headers.take(i + 1).drop_last() =~= headers.take(i as int));
                assert(headers.take(i + 1).last() == set_cookie_headers@[i as int]@);
            }
            let chars = str_chars(set_cookie_headers[i].as_str());
            let pair = chars_before_first(&chars, ';');
            if chars_start_with(&pair, &auth_prefix) {
                self.auth_cookie = Some(string_from_chars(&pair));
            } else if chars_start_with(&pair, &second_prefix) {
                self.two_factor_cookie = Some(string_from_chars(&pair));
            }
            i += 1;
        }
        assert(headers.take(set_cookie_headers@.len() as int) =~= headers);
    }

    /// Forgets the cookies.
    pub fn clear(&mut self)
        ensures
            final(self)@ == (CookieStoreView { auth_cookie: None, two_factor_cookie: None }),
    {
        self.auth_cookie = None;
        self.two_factor_cookie = None;
    }

    /// Whether there is a session cookie.
    pub fn has_auth(&self) -> (r: bool)
        ensures
            r == (self@.auth_cookie is Some),
    {
        self.auth_cookie.is_some()
    }
}

/// The standard base64 text of bytes, padded: what the `STANDARD` engine of
/// `base64` encodes them to.
pub uninterp spec fn base64_text(bytes: Seq<u8>) -> Seq<char>;

/// `base64::Engine::encode` on `base64::engine::general_purpose::STANDARD`.
/// The length of the text must fit `usize`, else the engine panics.
#[verifier::external_body]
fn base64_standard(bytes: &Vec<u8>) -> (r: String)
    requires
        (bytes@.len() / 3 + 1) * 4 <= usize::MAX,
    ensures
        r@ == base64_text(bytes@),
{
    base64::Engine::encode(&base64::engine::general_purpose::STANDARD, bytes)
}

/// The bytes that basic authentication encodes: the email, a colon, the
/// password.
pub open spec fn credential_bytes(email: &str, password: &str) -> Seq<u8> {
    email.spec_bytes() + seq![58u8] + password.spec_bytes()
}

/// The value of the `Authorization` header that logs in with email and
/// password: `Basic`, then the base64 text of email, colon and password.
///
/// Email and password together must be short enough for the base64 text to
/// fit `usize`.
pub fn create_basic_auth(email: &str, password: &str) -> (r: String)
    requires
        ((email.spec_bytes().len() + password.spec_bytes().len() + 1) / 3 + 1) * 4 <= usize::MAX,
    ensures
        r@ == "Basic "@ + base64_text(credential_bytes(email, password)),
{
    let mut bytes = email.as_bytes_vec();
    let tail = password.as_bytes_vec();
    bytes.push(58u8);
    let mut i: usize = 0;
    while i < tail.len()
        invariant
            i <= tail@.len(),
            tail@ == password.spec_bytes(),
            bytes@ == email.spec_bytes() + seq![58u8] + tail@.take(i as int),
        decreases tail@.len() - i,
    {
        bytes.push(tail[i]);
        assert(bytes@ =~= email.spec_bytes() + seq![58u8] + tail@.take(i + 1));
        i += 1;
    }
    assert(tail@.take(tail@.len() as int) =~= tail@);
    let encoded = base64_standard(&bytes);
    let mut chars = str_chars("Basic ");
    let rest = str_chars(encoded.as_str());
    append_chars(&mut chars, &rest);
    string_from_chars(&chars)
}

/// The seconds that a `Retry-After` header asks to wait: the number it
/// writes, where it is there and writes one.
pub open spec fn spec_retry_after(header: Option<Seq<char>>) -> Option<u64> {
    match header {
        Some(value) => spec_parse_u64(value),
        None => None,
    }
}

/// Reads the seconds that a `Retry-After` header asks to wait.
pub fn extract_retry_after(header: Option<&str>) -> (r: Option<u64>)
    ensures
        r == spec_retry_after(view_opt_str(header)),
{
    match header {
        Some(value) => parse_u64(value),
        None => None,
    }
}

/// What came of sending a request once.
#[derive(Debug, Clone, PartialEq, Eq)]
pub enum Outcome {
    /// A response arrived, with this status, this reason phrase where the
    /// status has one, and this many seconds asked to wait where it asked.
    Response { status: u16, reason: Option<String>, retry_after: Option<u64> },
    /// No response arrived; why.
    Failure(String),
}

/// The mathematical value of an [`Outcome`].
pub enum OutcomeView {
    Response { status: u16, reason: Option<Seq<char>>, retry_after: Option<u64> },
    Failure(Seq<char>),
}

impl View for Outcome {
    type V = OutcomeView;

    open spec fn view(&self) -> OutcomeView {
        match self {
            Outcome::Response { status, reason, retry_after } => OutcomeView::Response {
                status: *status,
                reason: view_opt(*reason),
                retry_after: *retry_after,
            },
            Outcome::Failure(message) => OutcomeView::Failure(message@),
        }
    }
}

/// What to do after a request was sent once.
#[derive(Debug, Clone, PartialEq, Eq)]
pub enum Verdict {
    /// Take the response as the answer.
    Accept,
    /// Wait for so many milliseconds, then send the request again.
    Retry(u64),
    /// Give up with this error.
    Fail(VRCError),
}

/// The mathematical value of a [`Verdict`].
pub enum VerdictView {
    Accept,
    Retry(u64),
    Fail(VRCErrorView),
}

impl View for Verdict {
    type V = VerdictView;

    open spec fn view(&self) -> VerdictView {
        match self {
            Verdict::Accept => VerdictView::Accept,
            Verdict::Retry(wait) => VerdictView::Retry(*wait),
            Verdict::Fail(e) => VerdictView::Fail(e@),
        }
    }
}

/// Whether a status is worth a repetition: too many requests, or an error of
/// the server.
pub open spec fn is_retryable(status: u16) -> bool {
    status == 429 || 500 <= status < 600
}

/// The error that a request ends with once its outcome was worth a
/// repetition and none is left.
pub open spec fn exhausted(outcome: OutcomeView) -> VRCErrorView {
    match outcome {
        OutcomeView::Response { status, reason, .. } => if status == 429 {
            VRCErrorView::RateLimit("Too many requests. Please wait before trying again."@)
        } else {
            VRCErrorView::Http {
                status,
                message: match reason {
                    Some(text) => text,
                    None => "Server error"@,
                },
            }
        },
        OutcomeView::Failure(message) => VRCErrorView::Network(
            "Request failed after retries: "@ + message,
        ),
    }
}

/// What to do after a request was sent once, and the state of its repetition
/// afterwards.
///
/// A response that is neither a refusal for too many requests nor an error
/// of the server is the answer. Any other outcome is worth a repetition
/// while one is left: after the wait that the response asks for, or the
/// current backoff. A failure to get a response waits out the backoff.
pub open spec fn spec_send_with_retry(state: RetryState, outcome: OutcomeView) -> (
    RetryState,
    VerdictView,
) {
    match outcome {
        OutcomeView::Response { status, reason, retry_after } => if !is_retryable(status) {
            (state, VerdictView::Accept)
        } else if state.may_retry() {
            (state.advanced(), VerdictView::Retry(state.wait(retry_after)))
        } else {
            (state, VerdictView::Fail(exhausted(outcome)))
        },
        OutcomeView::Failure(_) => if state.may_retry() {
            (state.advanced(), VerdictView::Retry(state.backoff))
        } else {
            (state, VerdictView::Fail(exhausted(outcome)))
        },
    }
}

/// Decides what to do after a request was sent once.
pub fn send_with_retry(state: &mut RetryState, outcome: Outcome) -> (r: Verdict)
    requires
        old(state).wf(),
    ensures
        final(state).wf(),
        (*final(state), r@) == spec_send_with_retry(*old(state), outcome@),
{
    match outcome {
        Outcome::Response { status, reason, retry_after } => {
            if !(status == 429 || (500 <= status && status < 600)) {
                return Verdict::Accept;
            }
            match state.next_wait(retry_after) {
                Some(wait) => Verdict::Retry(wait),
                None => {
                    if status == 429 {
                        Verdict::Fail(
                            VRCError::rate_limit(
                                "Too many requests. Please wait before trying again.".to_string(),
                            ),
                        )
                    } else {
                        let message = match reason {
                            Some(text) => text,
                            None => "Server error".to_string(),
                        };
                        Verdict::Fail(VRCError::http(status, message))
                    }
                },
            }
        },
        Outcome::Failure(message) => {
            match state.next_wait(None) {
                Some(wait) => Verdict::Retry(wait),
                None => {
                    let mut chars = str_chars("Request failed after retries: ");
                    let tail = str_chars(message.as_str());
                    append_chars(&mut chars, &tail);
                    Verdict::Fail(VRCError::network(string_from_chars(&chars)))
                },
            }
        },
    }
}

/// Where the next page of the friend list begins, after a page of `count`
/// entries that began at `offset`: `None` after a page that was not full.
pub open spec fn spec_next_friend_page(count: usize, offset: usize) -> Option<usize> {
    if count < PAGE_SIZE || offset + PAGE_SIZE > usize::MAX {
        None
    } else {
        Some((offset + PAGE_SIZE) as usize)
    }
}

/// Where the next page of the friend list begins.
pub fn next_friend_page(count: usize, offset: usize) -> (r: Option<usize>)
    ensures
        r == spec_next_friend_page(count, offset),
{
    if count < PAGE_SIZE || offset > usize::MAX - PAGE_SIZE {
        None
    } else {
        Some(offset + PAGE_SIZE)
    }
}

/// Whether one of the first `n` records is about user `id`.
pub open spec fn names_user(records: Seq<LimitedUserFriendView>, n: int, id: Seq<char>) -> bool {
    exists|k: int| 0 <= k < n && k < records.len() && records[k].id == id
}

/// The first `n` of the friends who are offline that belong on the one list
/// of all friends: those about a user whom neither a record of the friends
/// who are online nor an earlier one of these is about.
pub open spec fn fresh_offline(
    online: Seq<LimitedUserFriendView>,
    offline: Seq<LimitedUserFriendView>,
    n: int,
) -> Seq<LimitedUserFriendView>
    decreases n,
{
    if n <= 0 || n > offline.len() {
        Seq::empty()
    } else {
        let before = fresh_offline(online, offline, n - 1);
        let record = offline[n - 1];
        if names_user(online, online.len() as int, record.id) || names_user(
            offline,
            n - 1,
            record.id,
        ) {
            before
        } else {
            before.push(record)
        }
    }
}

/// The one list of all friends: those who are online, as they came, then
/// those who are offline and not yet on the list.
pub open spec fn spec_combine_friends(
    online: Seq<LimitedUserFriendView>,
    offline: Seq<LimitedUserFriendView>,
) -> Seq<LimitedUserFriendView> {
    online + fresh_offline(online, offline, offline.len() as int)
}

/// Whether one of the records is about user `id`.
fn has_user(records: &Vec<LimitedUserFriend>, id: &str) -> (r: bool)
    ensures
        r == names_user(view_seq(records@), records@.len() as int, id@),
{
    let mut i: usize = 0;
    while i < records.len()
        invariant
            i <= records@.len(),
            !names_user(view_seq(records@), i as int, id@),
        decreases records@.len() - i,
    {
        if str_eq(records[i].id.as_str(), id) {
            assert(view_seq(records@)[i as int].id == id@);
            return true;
        }
        i += 1;
    }
    false
}

/// Makes the one list of all friends from the friends who are online and the
/// friends who are offline.
pub fn combine_friends(online: Vec<LimitedUserFriend>, offline: Vec<LimitedUserFriend>) -> (r: Vec<
    LimitedUserFriend,
>)
    ensures
        view_seq(r@) == spec_combine_friends(view_seq(online@), view_seq(offline@)),
{
    let ghost first = view_seq(online@);
    let ghost second = view_seq(offline@);
    let mut combined = online;
    let mut i: usize = 0;
    assert(view_seq(combined@) =~= first + fresh_offline(first, second, 0));
    while i < offline.len()
        invariant
            i <= offline@.len(),
            second == view_seq(offline@),
            first.len() <= combined@.len(),
            view_seq(combined@) == first + fresh_offline(first, second, i as int),
        decreases offline@.len() - i,
    {
        let ghost before = view_seq(combined@);
        let seen = has_user(&combined, offline[i].id.as_str());
        proof {
            lemma_seen(first, second, i as int, second[i as int].id);
        }
        if !seen {
            combined.push(offline[i].clone());
            assert(view_seq(combined@) =~= before.push(second[i as int]));
        }
        assert(view_seq(combined@) =~= first + fresh_offline(first, second, i + 1));
        i += 1;
    }
    combined
}

/// A user is on the list made so far exactly when a record of the friends who
/// are online or one of the records of the friends who are offline that were
/// looked at is about them.
pub proof fn lemma_seen(
    online: Seq<LimitedUserFriendView>,
    offline: Seq<LimitedUserFriendView>,
    n: int,
    id: Seq<char>,
)
    requires
        0 <= n <= offline.len(),
    ensures
        names_user(
            online + fresh_offline(online, offline, n),
            (online + fresh_offline(online, offline, n)).len() as int,
            id,
        ) <==> names_user(online, online.len() as int, id) || names_user(offline, n, id),
    decreases n,
{
    let list = online + fresh_offline(online, offline, n);
    if n > 0 {
        lemma_seen(online, offline, n - 1, id);
        lemma_seen(online, offline, n - 1, offline[n - 1].id);
        let shorter = online + fresh_offline(online, offline, n - 1);
        let record = offline[n - 1];
        if names_user(list, list.len() as int, id) {
            let k = choose|k: int| 0 <= k < list.len() && list[k].id == id;
            if k < shorter.len() {
                assert(shorter[k].id == id);
            } else {
                assert(list[k] == record);
                assert(offline[n - 1].id == id);
            }
        }
        if names_user(online, online.len() as int, id) {
            let k = choose|k: int| 0 <= k < online.len() && online[k].id == id;
            assert(list[k].id == id);
        }
        if names_user(offline, n, id) {
            let k = choose|k: int| 0 <= k < n && k < offline.len() && offline[k].id == id;
            if k < n - 1 {
                assert(names_user(offline, n - 1, id));
                let j = choose|j: int| 0 <= j < shorter.len() && shorter[j].id == id;
                assert(list[j].id == id);
            } else {
                if names_user(online, online.len() as int, record.id) || names_user(
                    offline,
                    n - 1,
                    record.id,
                ) {
                    let j = choose|j: int| 0 <= j < shorter.len() && shorter[j].id == record.id;
                    assert(list[j].id == id);
                } else {
                    assert(list[list.len() - 1].id == id);
                }
            }
        }
    } else {
        assert(list =~= online);
        if names_user(list, list.len() as int, id) {
            let k = choose|k: int| 0 <= k < list.len() && list[k].id == id;
            assert(online[k].id == id);
        }
    }
}

/// The figures of a world that the list of worlds may leave out and the
/// world's own record supplies.
#[derive(Debug, Clone, PartialEq, Eq)]
pub struct WorldStatistics {
    pub visits: Option<i32>,
    pub favorites: Option<i32>,
    pub popularity: Option<i32>,
    pub occupants: Option<i32>,
    pub capacity: Option<i32>,
    pub recommended_capacity: Option<i32>,
    pub heat: Option<i32>,
    pub organization: Option<String>,
}

/// The mathematical value of a [`WorldStatistics`].
pub struct WorldStatisticsView {
    pub visits: Option<i32>,
    pub favorites: Option<i32>,
    pub popularity: Option<i32>,
    pub occupants: Option<i32>,
    pub capacity: Option<i32>,
    pub recommended_capacity: Option<i32>,
    pub heat: Option<i32>,
    pub organization: Option<Seq<char>>,
}

impl View for WorldStatistics {
    type V = WorldStatisticsView;

    open spec fn view(&self) -> WorldStatisticsView {
        WorldStatisticsView {
            visits: self.visits,
            favorites: self.favorites,
            popularity: self.popularity,
            occupants: self.occupants,
            capacity: self.capacity,
            recommended_capacity: self.recommended_capacity,
            heat: self.heat,
            organization: view_opt(self.organization),
        }
    }
}

/// `new` where there is one, else `old`.
pub open spec fn or_else<T>(new: Option<T>, old: Option<T>) -> Option<T> {
    if new is Some {
        new
    } else {
        old
    }
}

impl WorldStatisticsView {
    /// Whether the world's own record is worth asking for: one of visits,
    /// favorites, popularity, occupants, capacity and recommended capacity
    /// is missing.
    pub open spec fn is_incomplete(self) -> bool {
        self.visits is None || self.favorites is None || self.popularity is None
            || self.occupants is None || self.capacity is None
            || self.recommended_capacity is None
    }

    /// The figures with every one replaced that the world's own record
    /// supplies.
    pub open spec fn backfilled(self, details: WorldStatisticsView) -> WorldStatisticsView {
        WorldStatisticsView {
            visits: or_else(details.visits, self.visits),
            favorites: or_else(details.favorites, self.favorites),
            popularity: or_else(details.popularity, self.popularity),
            occupants: or_else(details.occupants, self.occupants),
            capacity: or_else(details.capacity, self.capacity),
            recommended_capacity: or_else(details.recommended_capacity, self.recommended_capacity),
            heat: or_else(details.heat, self.heat),
            organization: or_else(details.organization, self.organization),
        }
    }
}

impl WorldStatistics {
    /// Whether the world's own record is worth asking for.
    pub fn is_incomplete(&self) -> (r: bool)
        ensures
            r == self@.is_incomplete(),
    {
        self.visits.is_none() || self.favorites.is_none() || self.popularity.is_none()
            || self.occupants.is_none() || self.capacity.is_none()
            || self.recommended_capacity.is_none()
    }

    /// Takes from the world's own record every figure that it supplies.
    pub fn backfill(&mut self, details: WorldStatistics)
        ensures
            final(self)@ == old(self)@.backfilled(details@),
    {
        if details.visits.is_some() {
            self.visits = details.visits;
        }
        if details.favorites.is_some() {
            self.favorites = details.favorites;
        }
        if details.popularity.is_some() {
            self.popularity = details.popularity;
        }
        if details.occupants.is_some() {
            self.occupants = details.occupants;
        }
        if details.capacity.is_some() {
            self.capacity = details.capacity;
        }
        if details.recommended_capacity.is_some() {
            self.recommended_capacity = details.recommended_capacity;
        }
        if details.heat.is_some() {
            self.heat = details.heat;
        }
        if details.organization.is_some() {
            self.organization = details.organization;
        }
    }
}

/// Where the next page of a list of uploads begins, after a page of `count`
/// entries that began at `offset`: `None` after a page that was not full.
pub open spec fn spec_next_upload_page(count: usize, offset: usize) -> Option<usize> {
    if count < PAGE_SIZE || offset + count > usize::MAX {
        None
    } else {
        Some((offset + count) as usize)
    }
}

/// Where the next page of a list of uploads begins.
pub fn next_upload_page(count: usize, offset: usize) -> (r: Option<usize>)
    ensures
        r == spec_next_upload_page(count, offset),
{
    if count < PAGE_SIZE || offset > usize::MAX - count {
        None
    } else {
        Some(offset + count)
    }
}

} // verus!
