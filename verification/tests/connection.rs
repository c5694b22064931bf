use vrc_one::store::user_store::UserStore;
use vrc_one::vrchat_api::error::VRCError;
use vrc_one::websocket::client::{
    connect_request, Action, ConnectRequest, Event, Frame, Phase, ReconnectPolicy, VRChatWebSocket,
    PIPELINE_BASE_URL, PIPELINE_HOST,
};

fn headers(cookies: &str) -> Vec<(String, String)> {
    [
        ("Host", "pipeline.vrchat.cloud"),
        ("User-Agent", "VRC-Circle/0.0.1 contact@kirameki.cafe"),
        ("Connection", "Upgrade"),
        ("Upgrade", "websocket"),
        ("Sec-WebSocket-Version", "13"),
        ("Cookie", cookies),
    ]
    .iter()
    .map(|h| (h.0.to_string(), h.1.to_string()))
    .collect()
}

fn cookies_of(request: &ConnectRequest) -> &str {
    request.headers.last().map(|h| h.1.as_str()).unwrap_or("")
}
use vrc_one::websocket::dispatch::Notification;

fn manager() -> VRChatWebSocket {
    VRChatWebSocket::new(UserStore::new())
}

fn running_with_cookie() -> VRChatWebSocket {
    let mut m = manager();
    m.set_cookies(Some("auth=authcookie_abc; Path=/".to_string()), None);
    assert!(m.start());
    m
}

fn names(notes: &[Notification]) -> Vec<&'static str> {
    notes.iter().map(|n| n.name()).collect()
}

#[test]
fn the_request_carries_token_and_cookies() {
    let request = connect_request(
        " auth=authcookie_abc ; Path=/; HttpOnly",
        Some("twoFactorAuth=tfa_1; Max-Age=10"),
    )
    .unwrap();
    assert_eq!(
        request,
        ConnectRequest {
            url: "wss://pipeline.vrchat.cloud/?authToken=authcookie_abc".to_string(),
            headers: headers("auth=authcookie_abc; twoFactorAuth=tfa_1"),
        }
    );
    assert_eq!(PIPELINE_BASE_URL, "wss://pipeline.vrchat.cloud/");
    assert_eq!(PIPELINE_HOST, "pipeline.vrchat.cloud");
}

#[test]
fn the_request_leaves_out_an_empty_second_cookie() {
    let request = connect_request("auth=tok", None).unwrap();
    assert_eq!(request.url, "wss://pipeline.vrchat.cloud/?authToken=tok");
    assert_eq!(cookies_of(&request), "auth=tok");
    let request = connect_request("auth=tok", Some("  ; twoFactorAuth=x")).unwrap();
    assert_eq!(cookies_of(&request), "auth=tok");
    let request = connect_request("auth=tok", Some("")).unwrap();
    assert_eq!(cookies_of(&request), "auth=tok");
}

#[test]
fn the_token_is_what_follows_the_first_equals_sign() {
    let request = connect_request("auth = a=b= ;x", None).unwrap();
    assert_eq!(request.url, "wss://pipeline.vrchat.cloud/?authToken=a=b=");
    assert_eq!(cookies_of(&request), "auth = a=b=");
}

#[test]
fn a_cookie_without_token_makes_no_request() {
    let expected = VRCError::InvalidInput(
        "Auth cookie missing auth token required for pipeline WebSocket".to_string(),
    );
    assert_eq!(connect_request("auth", None).unwrap_err(), expected);
    assert_eq!(connect_request("auth=", None).unwrap_err(), expected);
    assert_eq!(connect_request("auth=   ; Path=/", None).unwrap_err(), expected);
    assert_eq!(connect_request("", None).unwrap_err(), expected);
    assert_eq!(connect_request("; auth=tok", None).unwrap_err(), expected);
}

#[test]
fn without_credentials_no_connection_is_attempted() {
    let mut m = manager();
    assert_eq!(m.phase(), Phase::Idle);
    assert!(!m.is_running());
    assert!(m.start());
    for _ in 0..5 {
        let step = m.step(Event::Wake, 0);
        assert_eq!(step.action, Action::Sleep(5));
        assert!(step.notifications.is_empty());
        assert_eq!(m.phase(), Phase::AwaitingCredentials);
    }
}

#[test]
fn credentials_lead_to_one_attempt_at_the_next_poll() {
    let mut m = manager();
    m.start();
    assert_eq!(m.step(Event::Wake, 0).action, Action::Sleep(5));
    m.set_cookies(Some("auth=tok".to_string()), Some("twoFactorAuth=second".to_string()));
    let step = m.step(Event::Wake, 0);
    assert_eq!(
        step.action,
        Action::Connect(ConnectRequest {
            url: "wss://pipeline.vrchat.cloud/?authToken=tok".to_string(),
            headers: headers("auth=tok; twoFactorAuth=second"),
        })
    );
    assert_eq!(m.phase(), Phase::Connecting);
    let step = m.step(Event::Connected, 0);
    assert_eq!(step.action, Action::Read);
    assert_eq!(names(&step.notifications), vec!["websocket-connected"]);
    assert_eq!(m.phase(), Phase::Open);
}

#[test]
fn cleared_credentials_stop_the_attempts() {
    let mut m = running_with_cookie();
    assert!(matches!(m.step(Event::Wake, 0).action, Action::Connect(_)));
    assert_eq!(m.step(Event::ConnectFailed, 0).action, Action::Sleep(2));
    m.set_cookies(None, None);
    assert_eq!(m.step(Event::Wake, 0).action, Action::Sleep(5));
    assert_eq!(m.phase(), Phase::AwaitingCredentials);
}

#[test]
fn failures_double_the_delay_and_an_open_connection_resets_it() {
    let mut m = running_with_cookie();
    let mut delays = Vec::new();
    for _ in 0..3 {
        assert!(matches!(m.step(Event::Wake, 0).action, Action::Connect(_)));
        let Action::Sleep(seconds) = m.step(Event::ConnectFailed, 0).action else {
            panic!("a wait")
        };
        assert_eq!(m.phase(), Phase::Backoff);
        delays.push(seconds);
    }
    assert_eq!(delays, vec![2, 4, 8]);
    assert!(matches!(m.step(Event::Wake, 0).action, Action::Connect(_)));
    assert_eq!(m.step(Event::Connected, 0).action, Action::Read);
    let step = m.step(Event::Frame(Frame::Error), 0);
    assert_eq!(step.action, Action::Sleep(2));
    assert_eq!(names(&step.notifications), vec!["websocket-disconnected"]);
    assert!(matches!(m.step(Event::Wake, 0).action, Action::Connect(_)));
    assert_eq!(m.step(Event::ConnectFailed, 0).action, Action::Sleep(4));
}

#[test]
fn the_delay_is_capped() {
    let mut m = running_with_cookie();
    let mut delays = Vec::new();
    for _ in 0..8 {
        let Action::Sleep(seconds) = m.step(Event::ConnectFailed, 0).action else {
            panic!("a wait")
        };
        delays.push(seconds);
    }
    assert_eq!(delays, vec![2, 4, 8, 16, 32, 60, 60, 60]);
}

#[test]
fn a_policy_of_ones_own_sets_floor_and_ceiling() {
    let policy = ReconnectPolicy { initial_delay: 3, max_delay: 10, idle_poll: 1 };
    let mut m = VRChatWebSocket::with_policy(UserStore::new(), policy).unwrap();
    m.start();
    assert_eq!(m.step(Event::Wake, 0).action, Action::Sleep(1));
    m.set_cookies(Some("auth=tok".to_string()), None);
    let mut delays = Vec::new();
    for _ in 0..4 {
        let Action::Sleep(seconds) = m.step(Event::ConnectFailed, 0).action else {
            panic!("a wait")
        };
        delays.push(seconds);
    }
    assert_eq!(delays, vec![3, 6, 10, 10]);
    m.step(Event::Connected, 0);
    assert_eq!(m.step(Event::Frame(Frame::Close), 0).action, Action::Sleep(3));
}

#[test]
fn a_policy_that_makes_no_sense_is_refused() {
    let zero = ReconnectPolicy { initial_delay: 0, max_delay: 10, idle_poll: 1 };
    assert!(VRChatWebSocket::with_policy(UserStore::new(), zero).is_none());
    let upside_down = ReconnectPolicy { initial_delay: 11, max_delay: 10, idle_poll: 1 };
    assert!(VRChatWebSocket::with_policy(UserStore::new(), upside_down).is_none());
    let equal = ReconnectPolicy { initial_delay: 10, max_delay: 10, idle_poll: 0 };
    assert!(VRChatWebSocket::with_policy(UserStore::new(), equal).is_some());
    let huge = ReconnectPolicy { initial_delay: u64::MAX - 1, max_delay: u64::MAX, idle_poll: 0 };
    let mut m = VRChatWebSocket::with_policy(UserStore::new(), huge).unwrap();
    m.start();
    assert_eq!(m.step(Event::ConnectFailed, 0).action, Action::Sleep(u64::MAX - 1));
    assert_eq!(m.step(Event::ConnectFailed, 0).action, Action::Sleep(u64::MAX));
    assert_eq!(ReconnectPolicy::standard().following(29), 58);
    assert_eq!(ReconnectPolicy::standard().following(30), 60);
    assert_eq!(ReconnectPolicy::standard().following(31), 60);
}

#[test]
fn credentials_without_token_count_as_a_failed_attempt() {
    let mut m = manager();
    m.set_cookies(Some("auth=".to_string()), None);
    m.start();
    assert_eq!(m.step(Event::Wake, 0).action, Action::Sleep(2));
    assert_eq!(m.phase(), Phase::Backoff);
    assert_eq!(m.step(Event::Wake, 0).action, Action::Sleep(4));
}

#[test]
fn starting_twice_starts_one_loop() {
    let mut m = manager();
    assert!(m.start());
    assert_eq!(m.phase(), Phase::Starting);
    assert!(!m.start());
    m.stop();
    assert!(!m.start());
    m.step(Event::Wake, 0);
    assert!(!m.start());
    assert!(m.is_running());
    m.stop();
    assert!(!m.is_running());
    assert!(!m.start());
    m.stop();
    assert_eq!(m.step(Event::Wake, 0).action, Action::Exit);
    assert_eq!(m.phase(), Phase::Idle);
    assert!(m.start());
}

#[test]
fn a_disabled_manager_does_nothing() {
    let mut m = manager();
    m.set_cookies(Some("auth=tok".to_string()), None);
    let step = m.step(Event::Wake, 0);
    assert_eq!(step.action, Action::Exit);
    assert!(step.notifications.is_empty());
}

#[test]
fn stopping_ends_an_open_connection_at_the_next_frame() {
    let mut m = running_with_cookie();
    m.step(Event::Wake, 0);
    m.step(Event::Connected, 0);
    m.stop();
    let text = "{\"type\":\"friend-offline\",\"content\":{\"userId\":\"usr_a\"}}".to_string();
    let step = m.step(Event::Frame(Frame::Text(text)), 0);
    assert_eq!(step.action, Action::Exit);
    assert_eq!(names(&step.notifications), vec!["websocket-disconnected"]);
    assert_eq!(m.phase(), Phase::Idle);
}

#[test]
fn stopping_during_a_wait_ends_the_loop_at_the_wake() {
    let mut m = running_with_cookie();
    assert_eq!(m.step(Event::ConnectFailed, 0).action, Action::Sleep(2));
    m.stop();
    assert_eq!(m.step(Event::Wake, 0).action, Action::Exit);
    let mut m = running_with_cookie();
    m.step(Event::Wake, 0);
    m.stop();
    assert_eq!(m.step(Event::ConnectFailed, 0).action, Action::Exit);
}

#[test]
fn frames_feed_the_cache_and_are_told() {
    let mut m = running_with_cookie();
    m.step(Event::Wake, 0);
    m.step(Event::Connected, 0);
    let text = "{\"type\":\"friend-add\",\"content\":{\"userId\":\"usr_a\",\"user\":{\"id\":\"usr_a\",\"displayName\":\"A\",\"location\":\"wrld_1\"}}}";
    let step = m.step(Event::Frame(Frame::Text(text.to_string())), 17);
    assert_eq!(step.action, Action::Read);
    assert!(step.fault.is_none());
    assert_eq!(names(&step.notifications), vec!["friend-added", "friend-update"]);
    assert!(m.get_user_store().is_friend("usr_a"));
    assert!(m.get_user_store().is_user_online("usr_a"));
    assert_eq!(m.get_user_store().get_cached_user("usr_a").unwrap().last_updated, 17);
    assert_eq!(m.phase(), Phase::Open);
}

#[test]
fn a_bad_frame_is_reported_and_the_connection_survives() {
    let mut m = running_with_cookie();
    m.step(Event::Wake, 0);
    m.step(Event::Connected, 0);
    let step = m.step(Event::Frame(Frame::Text("{oops".to_string())), 1);
    assert_eq!(step.action, Action::Read);
    assert!(step.fault.is_some());
    assert!(step.notifications.is_empty());
    assert_eq!(m.phase(), Phase::Open);
    let step = m.step(Event::Frame(Frame::Other), 1);
    assert_eq!(step.action, Action::Read);
    assert!(step.fault.is_none());
    assert!(step.notifications.is_empty());
}

#[test]
fn every_end_of_the_connection_leads_to_a_reconnect() {
    for end in [Frame::Close, Frame::Error, Frame::End] {
        let mut m = running_with_cookie();
        m.step(Event::Wake, 0);
        m.step(Event::Connected, 0);
        let step = m.step(Event::Frame(end), 0);
        assert_eq!(step.action, Action::Sleep(2));
        assert_eq!(names(&step.notifications), vec!["websocket-disconnected"]);
        assert_eq!(m.phase(), Phase::Backoff);
        assert!(matches!(m.step(Event::Wake, 0).action, Action::Connect(_)));
    }
}

#[test]
fn the_cache_can_be_written_from_outside() {
    let mut m = manager();
    m.user_store_mut().set_friend_offline("usr_none", 1);
    assert_eq!(m.get_user_store().get_stats().total_cached, 0);
}
