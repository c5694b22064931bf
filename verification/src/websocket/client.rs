//! The connection to the pipeline, as a state machine.
//!
//! The manager decides; a driver around it does the waiting. The driver hands
//! in what happened: a sleep ended, a connection attempt succeeded or failed,
//! a read returned. The manager answers with what to do next, and with what to
//! tell outward. It connects only while it is enabled and has credentials,
//! reads frames into the cache while the connection is open, and after a
//! connection failed or ended waits before the next attempt, each time twice
//! as long, up to a ceiling, starting over after every connection that
//! opened.

use vstd::prelude::*;
use crate::http_common::{view_headers, view_opt_str, USER_AGENT_STRING};
use crate::store::user_store::{UserStore, UserStoreView};
use crate::text::{
    after_first, append_chars, before_first, chars_after_first, chars_before_first, str_chars,
    string_from_chars, trim_chars, trimmed,
};
use crate::views::{view_opt, view_seq};
use crate::vrchat_api::error::{VRCError, VRCErrorView};
use super::dispatch::{handle_message, spec_handle_message, Notification, NotificationView};
use super::message::{DecodeError, DecodeErrorView};

verus! {

/// Where the pipeline is reached.
pub const PIPELINE_BASE_URL: &'static str = "wss://pipeline.vrchat.cloud/";

/// The host of the pipeline.
pub const PIPELINE_HOST: &'static str = "pipeline.vrchat.cloud";

/// What a connection attempt needs: the address with the token, and the
/// headers of the upgrade request, but for the key of the handshake, which
/// is the transport's to make.
#[derive(Debug, Clone, PartialEq, Eq)]
pub struct ConnectRequest {
    pub url: String,
    /// Names and values, in the order of sending.
    pub headers: Vec<(String, String)>,
}

/// The mathematical value of a [`ConnectRequest`].
pub struct ConnectRequestView {
    pub url: Seq<char>,
    pub headers: Seq<(Seq<char>, Seq<char>)>,
}

impl View for ConnectRequest {
    type V = ConnectRequestView;

    open spec fn view(&self) -> ConnectRequestView {
        ConnectRequestView { url: self.url@, headers: view_headers(self.headers@) }
    }
}

/// The headers of the upgrade request that carries `cookies`.
pub open spec fn upgrade_headers(cookies: Seq<char>) -> Seq<(Seq<char>, Seq<char>)> {
    seq![
        ("Host"@, "pipeline.vrchat.cloud"@),
        ("User-Agent"@, "VRC-Circle/0.0.1 contact@kirameki.cafe"@),
        ("Connection"@, "Upgrade"@),
        ("Upgrade"@, "websocket"@),
        ("Sec-WebSocket-Version"@, "13"@),
        ("Cookie"@, cookies),
    ]
}

/// The name and value of a cookie: what stands before the first `;`, without
/// the white space around it.
pub open spec fn cookie_pair(cookie: Seq<char>) -> Seq<char> {
    trimmed(before_first(cookie, ';'))
}

/// The token of the session cookie: what stands after the first `=` of the
/// cookie's pair, without the white space around it; `None` where the pair has
/// no `=` or nothing after it.
pub open spec fn auth_token(cookie: Seq<char>) -> Option<Seq<char>> {
    match after_first(cookie_pair(cookie), '=') {
        Some(value) => if trimmed(value).len() > 0 {
            Some(trimmed(value))
        } else {
            None
        },
        None => None,
    }
}

/// The cookies to send: the pair of the session cookie, then `; ` and the
/// pair of the second-factor cookie where there is one that is not empty.
pub open spec fn cookie_header(auth_cookie: Seq<char>, two_factor_cookie: Option<Seq<char>>) -> Seq<
    char,
> {
    match two_factor_cookie {
        Some(second) => if cookie_pair(second).len() > 0 {
            cookie_pair(auth_cookie) + "; "@ + cookie_pair(second)
        } else {
            cookie_pair(auth_cookie)
        },
        None => cookie_pair(auth_cookie),
    }
}

/// The request that the credentials make, or why they make none.
pub open spec fn spec_connect_request(
    auth_cookie: Seq<char>,
    two_factor_cookie: Option<Seq<char>>,
) -> Result<ConnectRequestView, VRCErrorView> {
    match auth_token(auth_cookie) {
        Some(token) => Ok(
            ConnectRequestView {
                url: "wss://pipeline.vrchat.cloud/"@ + "?authToken="@ + token,
                headers: upgrade_headers(cookie_header(auth_cookie, two_factor_cookie)),
            },
        ),
        None => Err(
            VRCErrorView::InvalidInput(
                "Auth cookie missing auth token required for pipeline WebSocket"@,
            ),
        ),
    }
}

/// The name and value of a cookie.
fn cookie_pair_of(cookie: &str) -> (r: Vec<char>)
    ensures
        r@ == cookie_pair(cookie@),
{
    let chars = str_chars(cookie);
    let first = chars_before_first(&chars, ';');
    trim_chars(&first)
}

/// Makes the request for a connection from the credentials.
///
/// Fails with [`VRCError::InvalidInput`] where the session cookie holds no
/// token.
pub fn connect_request(auth_cookie: &str, two_factor_cookie: Option<&str>) -> (r: Result<
    ConnectRequest,
    VRCError,
>)
    ensures
        ({
            let expected = spec_connect_request(auth_cookie@, view_opt_str(two_factor_cookie));
            match r {
                Ok(request) => expected == Ok::<ConnectRequestView, VRCErrorView>(request@),
                Err(e) => expected == Err::<ConnectRequestView, VRCErrorView>(e@),
            }
        }),
{
    let pair = cookie_pair_of(auth_cookie);
    let token = match chars_after_first(&pair, '=') {
        Some(value) => {
            let token = trim_chars(&value);
            if token.len() > 0 {
                Some(token)
            } else {
                None
            }
        },
        None => None,
    };
    match token {
        Some(token) => {
            let mut url = str_chars(PIPELINE_BASE_URL);
            let query = str_chars("?authToken=");
            append_chars(&mut url, &query);
            append_chars(&mut url, &token);
            let mut cookies = pair;
            match two_factor_cookie {
                Some(second) => {
                    let second_pair = cookie_pair_of(second);
                    if second_pair.len() > 0 {
                        let separator = str_chars("; ");
                        append_chars(&mut cookies, &separator);
                        append_chars(&mut cookies, &second_pair);
                    }
                },
                None => {},
            }
            let mut headers: Vec<(String, String)> = Vec::new();
            headers.push(("Host".to_string(), PIPELINE_HOST.to_string()));
            headers.push(("User-Agent".to_string(), USER_AGENT_STRING.to_string()));
            headers.push(("Connection".to_string(), "Upgrade".to_string()));
            headers.push(("Upgrade".to_string(), "websocket".to_string()));
            headers.push(("Sec-WebSocket-Version".to_string(), "13".to_string()));
            headers.push(("Cookie".to_string(), string_from_chars(&cookies)));
            assert(view_headers(headers@) =~= upgrade_headers(cookies@));
            Ok(ConnectRequest { url: string_from_chars(&url), headers })
        },
        None => Err(
            VRCError::invalid_input(
                "Auth cookie missing auth token required for pipeline WebSocket".to_string(),
            ),
        ),
    }
}

/// How long the manager waits, in seconds.
#[derive(Debug, Clone, Copy, PartialEq, Eq, Structural)]
pub struct ReconnectPolicy {
    /// The wait after the first failure, and after every failure that follows
    /// a connection that opened.
    pub initial_delay: u64,
    /// The longest wait between two attempts.
    pub max_delay: u64,
    /// The wait before credentials are looked for again.
    pub idle_poll: u64,
}

impl ReconnectPolicy {
    /// Whether the waits make sense: the first is positive and no longer
    /// than the longest.
    pub open spec fn wf(self) -> bool {
        0 < self.initial_delay <= self.max_delay
    }

    /// The wait that follows a wait of `delay`: twice as long, up to the
    /// longest.
    pub open spec fn next_delay(self, delay: u64) -> u64 {
        if 2 * delay >= self.max_delay {
            self.max_delay
        } else {
            (2 * delay) as u64
        }
    }

    /// Two seconds at first, a minute at most, and five seconds between two
    /// looks for credentials.
    pub fn standard() -> (r: Self)
        ensures
            r.wf(),
            r == (ReconnectPolicy { initial_delay: 2, max_delay: 60, idle_poll: 5 }),
    {
        ReconnectPolicy { initial_delay: 2, max_delay: 60, idle_poll: 5 }
    }

    /// The wait that follows a wait of `delay`.
    pub fn following(&self, delay: u64) -> (r: u64)
        ensures
            r == self.next_delay(delay),
    {
        if delay >= self.max_delay / 2 + self.max_delay % 2 {
            self.max_delay
        } else {
            delay * 2
        }
    }
}

/// What the manager is doing.
#[derive(Debug, Clone, Copy, PartialEq, Eq, Structural)]
pub enum Phase {
    /// No loop runs.
    Idle,
    /// A loop was asked for and has not taken its first step.
    Starting,
    /// Enabled, without credentials: waiting to look again.
    AwaitingCredentials,
    /// A connection attempt is under way.
    Connecting,
    /// The connection is open and is read.
    Open,
    /// Waiting before the next attempt.
    Backoff,
}

/// What a read of the transport returned.
#[derive(Debug, Clone, PartialEq, Eq)]
pub enum Frame {
    /// A text message.
    Text(String),
    /// The peer closed the connection.
    Close,
    /// A message of another sort: binary, ping, pong.
    Other,
    /// The read failed.
    Error,
    /// The stream has ended.
    End,
}

/// What the driver reports to the manager.
#[derive(Debug, Clone, PartialEq, Eq)]
pub enum Event {
    /// The loop has started, or the wait that was asked for is over.
    Wake,
    /// The connection attempt succeeded.
    Connected,
    /// The connection attempt failed.
    ConnectFailed,
    /// A read returned.
    Frame(Frame),
}

/// The mathematical value of an [`Event`].
pub enum EventView {
    Wake,
    Connected,
    ConnectFailed,
    Text(Seq<char>),
    Close,
    Other,
    Error,
    End,
}

impl View for Event {
    type V = EventView;

    open spec fn view(&self) -> EventView {
        match self {
            Event::Wake => EventView::Wake,
            Event::Connected => EventView::Connected,
            Event::ConnectFailed => EventView::ConnectFailed,
            Event::Frame(Frame::Text(text)) => EventView::Text(text@),
            Event::Frame(Frame::Close) => EventView::Close,
            Event::Frame(Frame::Other) => EventView::Other,
            Event::Frame(Frame::Error) => EventView::Error,
            Event::Frame(Frame::End) => EventView::End,
        }
    }
}

/// What the driver is to do next.
#[derive(Debug, Clone, PartialEq, Eq)]
pub enum Action {
    /// End the loop.
    Exit,
    /// Wait for so many seconds, then report [`Event::Wake`].
    Sleep(u64),
    /// Try to connect, then report [`Event::Connected`] or
    /// [`Event::ConnectFailed`].
    Connect(ConnectRequest),
    /// Read from the connection, then report [`Event::Frame`].
    Read,
}

/// The mathematical value of an [`Action`].
pub enum ActionView {
    Exit,
    Sleep(u64),
    Connect(ConnectRequestView),
    Read,
}

impl View for Action {
    type V = ActionView;

    open spec fn view(&self) -> ActionView {
        match self {
            Action::Exit => ActionView::Exit,
            Action::Sleep(seconds) => ActionView::Sleep(*seconds),
            Action::Connect(request) => ActionView::Connect(request@),
            Action::Read => ActionView::Read,
        }
    }
}

/// The manager's answer to an event.
#[derive(Debug)]
pub struct Step {
    /// What to tell outward, in this order.
    pub notifications: Vec<Notification>,
    /// Why the frame that was handed in did not decode, where it did not.
    /// Such a frame is dropped; the connection goes on.
    pub fault: Option<DecodeError>,
    /// What to do next.
    pub action: Action,
}

/// The mathematical value of a [`Step`].
pub struct StepView {
    pub notifications: Seq<NotificationView>,
    pub fault: Option<DecodeErrorView>,
    pub action: ActionView,
}

impl View for Step {
    type V = StepView;

    open spec fn view(&self) -> StepView {
        StepView {
            notifications: view_seq(self.notifications@),
            fault: view_opt(self.fault),
            action: self.action@,
        }
    }
}

/// The manager of the connection to the pipeline, with the cache that the
/// frames are read into.
pub struct VRChatWebSocket {
    auth_cookie: Option<String>,
    two_factor_cookie: Option<String>,
    running: bool,
    phase: Phase,
    reconnect_delay: u64,
    policy: ReconnectPolicy,
    user_store: UserStore,
}

/// The mathematical value of a [`VRChatWebSocket`].
pub struct VRChatWebSocketView {
    pub auth_cookie: Option<Seq<char>>,
    pub two_factor_cookie: Option<Seq<char>>,
    /// Whether the manager is enabled.
    pub running: bool,
    pub phase: Phase,
    /// The wait that the next failure is answered with.
    pub reconnect_delay: u64,
    pub policy: ReconnectPolicy,
    pub user_store: UserStoreView,
}

impl View for VRChatWebSocket {
    type V = VRChatWebSocketView;

    closed spec fn view(&self) -> VRChatWebSocketView {
        VRChatWebSocketView {
            auth_cookie: view_opt(self.auth_cookie),
            two_factor_cookie: view_opt(self.two_factor_cookie),
            running: self.running,
            phase: self.phase,
            reconnect_delay: self.reconnect_delay,
            policy: self.policy,
            user_store: self.user_store@,
        }
    }
}

impl VRChatWebSocketView {
    /// The cache is well-formed, the policy makes sense, and the next wait
    /// lies between the first and the longest.
    pub open spec fn wf(self) -> bool {
        &&& self.user_store.wf()
        &&& self.policy.wf()
        &&& self.policy.initial_delay <= self.reconnect_delay <= self.policy.max_delay
    }

    /// The manager after it was enabled: where no loop runs, one is about to.
    pub open spec fn started(self) -> VRChatWebSocketView {
        VRChatWebSocketView {
            running: true,
            phase: if self.phase == Phase::Idle {
                Phase::Starting
            } else {
                self.phase
            },
            ..self
        }
    }

    /// A step that tells nothing outward.
    pub open spec fn quiet(action: ActionView) -> StepView {
        StepView { notifications: Seq::empty(), fault: None, action }
    }

    /// The manager gives up the loop, or waits out the current delay and
    /// doubles it: what follows a connection attempt that failed and a
    /// connection that ended.
    pub open spec fn retry(self, notifications: Seq<NotificationView>) -> (
        VRChatWebSocketView,
        StepView,
    ) {
        if !self.running {
            (
                VRChatWebSocketView { phase: Phase::Idle, ..self },
                StepView { notifications, fault: None, action: ActionView::Exit },
            )
        } else {
            (
                VRChatWebSocketView {
                    phase: Phase::Backoff,
                    reconnect_delay: self.policy.next_delay(self.reconnect_delay),
                    ..self
                },
                StepView {
                    notifications,
                    fault: None,
                    action: ActionView::Sleep(self.reconnect_delay),
                },
            )
        }
    }

    /// The top of the loop: give up where the manager is disabled; wait and
    /// look again where there are no credentials; else try to connect, and
    /// count credentials that make no request as a failed attempt.
    pub open spec fn attempt(self) -> (VRChatWebSocketView, StepView) {
        if !self.running {
            (
                VRChatWebSocketView { phase: Phase::Idle, ..self },
                Self::quiet(ActionView::Exit),
            )
        } else {
            match self.auth_cookie {
                None => (
                    VRChatWebSocketView { phase: Phase::AwaitingCredentials, ..self },
                    Self::quiet(ActionView::Sleep(self.policy.idle_poll)),
                ),
                Some(auth) => match spec_connect_request(auth, self.two_factor_cookie) {
                    Ok(request) => (
                        VRChatWebSocketView { phase: Phase::Connecting, ..self },
                        Self::quiet(ActionView::Connect(request)),
                    ),
                    Err(_) => self.retry(Seq::empty()),
                },
            }
        }
    }

    /// The connection has ended: told outward, the delay starts over, and the
    /// manager gives up the loop or waits for the next attempt.
    pub open spec fn closed(self) -> (VRChatWebSocketView, StepView) {
        (VRChatWebSocketView {
            reconnect_delay: self.policy.initial_delay,
            ..self
        }).retry(seq![NotificationView::Disconnected])
    }

    /// The manager after an event, and its answer.
    ///
    /// A frame is looked at only while the manager is enabled: once it is
    /// disabled, the next frame that arrives ends the connection.
    pub open spec fn step(self, event: EventView, now: u64) -> (VRChatWebSocketView, StepView) {
        match event {
            EventView::Wake => self.attempt(),
            EventView::Connected => (
                VRChatWebSocketView {
                    phase: Phase::Open,
                    reconnect_delay: self.policy.initial_delay,
                    ..self
                },
                StepView {
                    notifications: seq![NotificationView::Connected],
                    fault: None,
                    action: ActionView::Read,
                },
            ),
            EventView::ConnectFailed => self.retry(Seq::empty()),
            EventView::Text(text) => if !self.running {
                self.closed()
            } else {
                match spec_handle_message(text, self.user_store, now) {
                    Ok((store, notifications)) => (
                        VRChatWebSocketView { user_store: store, ..self },
                        StepView { notifications, fault: None, action: ActionView::Read },
                    ),
                    Err(e) => (
                        self,
                        StepView {
                            notifications: Seq::empty(),
                            fault: Some(e),
                            action: ActionView::Read,
                        },
                    ),
                }
            },
            EventView::Other => if !self.running {
                self.closed()
            } else {
                (self, Self::quiet(ActionView::Read))
            },
            EventView::Close => self.closed(),
            EventView::Error => self.closed(),
            EventView::End => self.closed(),
        }
    }
}

/// A list of no notifications.
fn none() -> (r: Vec<Notification>)
    ensures
        view_seq(r@) == Seq::<NotificationView>::empty(),
{
    let out: Vec<Notification> = Vec::new();
    assert(view_seq(out@) =~= Seq::<NotificationView>::empty());
    out
}

/// A list of one notification.
fn only(note: Notification) -> (r: Vec<Notification>)
    ensures
        view_seq(r@) == seq![note@],
{
    let mut out: Vec<Notification> = Vec::new();
    out.push(note);
    assert(view_seq(out@) =~= seq![note@]);
    out
}

impl VRChatWebSocket {
    /// Whether the manager is well-formed.
    pub open spec fn wf(&self) -> bool {
        self@.wf()
    }

    /// A manager around a cache: disabled, without credentials, with the
    /// standard policy.
    pub fn new(user_store: UserStore) -> (r: Self)
        requires
            user_store.wf(),
        ensures
            r.wf(),
            r@ == (VRChatWebSocketView {
                auth_cookie: None,
                two_factor_cookie: None,
                running: false,
                phase: Phase::Idle,
                reconnect_delay: 2,
                policy: ReconnectPolicy { initial_delay: 2, max_delay: 60, idle_poll: 5 },
                user_store: user_store@,
            }),
    {
        let policy = ReconnectPolicy::standard();
        VRChatWebSocket {
            auth_cookie: None,
            two_factor_cookie: None,
            running: false,
            phase: Phase::Idle,
            reconnect_delay: policy.initial_delay,
            policy,
            user_store,
        }
    }

    /// A manager around a cache with a policy of its own; `None` where the
    /// policy makes no sense.
    pub fn with_policy(user_store: UserStore, policy: ReconnectPolicy) -> (r: Option<Self>)
        requires
            user_store.wf(),
        ensures
            r is Some <==> policy.wf(),
            r matches Some(manager) ==> manager.wf() && manager@ == (VRChatWebSocketView {
                auth_cookie: None,
                two_factor_cookie: None,
                running: false,
                phase: Phase::Idle,
                reconnect_delay: policy.initial_delay,
                policy,
                user_store: user_store@,
            }),
    {
        if 0 < policy.initial_delay && policy.initial_delay <= policy.max_delay {
            Some(
                VRChatWebSocket {
                    auth_cookie: None,
                    two_factor_cookie: None,
                    running: false,
                    phase: Phase::Idle,
                    reconnect_delay: policy.initial_delay,
                    policy,
                    user_store,
                },
            )
        } else {
            None
        }
    }

    /// The cache.
    pub fn get_user_store(&self) -> (r: &UserStore)
        ensures
            r@ == self@.user_store,
            self.wf() ==> r.wf(),
    {
        &self.user_store
    }

    /// The cache, to write into: the way in for the other parts of the
    /// application. The manager is well-formed afterwards where the cache is.
    pub fn user_store_mut(&mut self) -> (r: &mut UserStore)
        ensures
            r@ == old(self)@.user_store,
            final(self)@ == (VRChatWebSocketView { user_store: final(r)@, ..old(self)@ }),
    {
        &mut self.user_store
    }

    /// Supplies, replaces or clears the credentials. They are read at the
    /// next connection attempt.
    pub fn set_cookies(&mut self, auth_cookie: Option<String>, two_factor_cookie: Option<String>)
        ensures
            final(self)@ == (VRChatWebSocketView {
                auth_cookie: view_opt(auth_cookie),
                two_factor_cookie: view_opt(two_factor_cookie),
                ..old(self)@
            }),
            old(self).wf() ==> final(self).wf(),
    {
        self.auth_cookie = auth_cookie;
        self.two_factor_cookie = two_factor_cookie;
    }

    /// Enables the manager. Returns whether the caller is to start a loop:
    /// where none runs. Starting a manager whose loop runs starts no second
    /// one.
    pub fn start(&mut self) -> (r: bool)
        ensures
            final(self)@ == old(self)@.started(),
            r == (old(self)@.phase == Phase::Idle),
            old(self).wf() ==> final(self).wf(),
    {
        self.running = true;
        if self.phase == Phase::Idle {
            self.phase = Phase::Starting;
            true
        } else {
            false
        }
    }

    /// Disables the manager. The loop ends at its next step; a read that is
    /// under way is not cut off.
    pub fn stop(&mut self)
        ensures
            final(self)@ == (VRChatWebSocketView { running: false, ..old(self)@ }),
            old(self).wf() ==> final(self).wf(),
    {
        self.running = false;
    }

    /// Whether the manager is enabled.
    pub fn is_running(&self) -> (r: bool)
        ensures
            r == self@.running,
    {
        self.running
    }

    /// What the manager is doing.
    pub fn phase(&self) -> (r: Phase)
        ensures
            r == self@.phase,
    {
        self.phase
    }

    /// Gives up the loop, or waits out the current delay and doubles it.
    fn retry(&mut self, notifications: Vec<Notification>) -> (r: Step)
        requires
            old(self).wf(),
        ensures
            final(self).wf(),
            (final(self)@, r@) == old(self)@.retry(view_seq(notifications@)),
    {
        if !self.running {
            self.phase = Phase::Idle;
            Step { notifications, fault: None, action: Action::Exit }
        } else {
            let wait = self.reconnect_delay;
            self.phase = Phase::Backoff;
            self.reconnect_delay = self.policy.following(wait);
            Step { notifications, fault: None, action: Action::Sleep(wait) }
        }
    }

    /// The top of the loop.
    fn attempt(&mut self) -> (r: Step)
        requires
            old(self).wf(),
        ensures
            final(self).wf(),
            (final(self)@, r@) == old(self)@.attempt(),
    {
        if !self.running {
            self.phase = Phase::Idle;
            return Step { notifications: none(), fault: None, action: Action::Exit };
        }
        let request = match &self.auth_cookie {
            None => {
                self.phase = Phase::AwaitingCredentials;
                return Step {
                    notifications: none(),
                    fault: None,
                    action: Action::Sleep(self.policy.idle_poll),
                };
            },
            Some(auth) => {
                let second = match &self.two_factor_cookie {
                    Some(s) => Some(s.as_str()),
                    None => None,
                };
                connect_request(auth.as_str(), second)
            },
        };
        match request {
            Ok(request) => {
                self.phase = Phase::Connecting;
                Step { notifications: none(), fault: None, action: Action::Connect(request) }
            },
            Err(_) => self.retry(none()),
        }
    }

    /// The connection has ended.
    fn closed(&mut self) -> (r: Step)
        requires
            old(self).wf(),
        ensures
            final(self).wf(),
            (final(self)@, r@) == old(self)@.closed(),
    {
        self.reconnect_delay = self.policy.initial_delay;
        self.retry(only(Notification::Disconnected))
    }

    /// Takes an event from the driver and answers with what to do next.
    ///
    /// `now` is the reading of the clock that a frame stamps the cache with.
    ///
    /// The answer is [`Action::Connect`] only where the manager is enabled
    /// and holds a session cookie with a token; a frame that does not decode
    /// is reported in the step's `fault`, changes nothing and leaves the
    /// connection open.
    pub fn step(&mut self, event: Event, now: u64) -> (r: Step)
        requires
            old(self).wf(),
        ensures
            final(self).wf(),
            (final(self)@, r@) == old(self)@.step(event@, now),
    {
        match event {
            Event::Wake => self.attempt(),
            Event::Connected => {
                self.phase = Phase::Open;
                self.reconnect_delay = self.policy.initial_delay;
                Step {
                    notifications: only(Notification::Connected),
                    fault: None,
                    action: Action::Read,
                }
            },
            Event::ConnectFailed => self.retry(none()),
            Event::Frame(Frame::Text(text)) => {
                if !self.running {
                    self.closed()
                } else {
                    match handle_message(text.as_str(), &mut self.user_store, now) {
                        Ok(notifications) => Step {
                            notifications,
                            fault: None,
                            action: Action::Read,
                        },
                        Err(e) => Step {
                            notifications: none(),
                            fault: Some(e),
                            action: Action::Read,
                        },
                    }
                }
            },
            Event::Frame(Frame::Other) => {
                if !self.running {
                    self.closed()
                } else {
                    Step { notifications: none(), fault: None, action: Action::Read }
                }
            },
            Event::Frame(Frame::Close) => self.closed(),
            Event::Frame(Frame::Error) => self.closed(),
            Event::Frame(Frame::End) => self.closed(),
        }
    }
}

} // verus!
