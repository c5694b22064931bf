use vrc_one::http_common::{
    build_api_headers, RetryState, INITIAL_BACKOFF, MAX_BACKOFF, MAX_REQUEST_RETRIES,
    USER_AGENT_STRING,
};
use vrc_one::store::image_cache::{
    cookies_for, download_with_retry, is_vrchat_domain, Download, Fetched, RateLimiter,
};
use vrc_one::vrchat_api::client::{
    combine_friends, create_basic_auth, extract_retry_after, next_friend_page, next_upload_page,
    send_with_retry, CookieStore, Outcome, Verdict, WorldStatistics, PAGE_SIZE,
};
use vrc_one::vrchat_api::error::VRCError;
use vrc_one::vrchat_api::types::{DeveloperType, LimitedUserFriend, UserStatus};

fn friend(id: &str, display_name: &str) -> LimitedUserFriend {
    LimitedUserFriend {
        id: id.to_string(),
        display_name: display_name.to_string(),
        bio: String::new(),
        bio_links: Vec::new(),
        current_avatar_image_url: None,
        current_avatar_thumbnail_image_url: None,
        current_avatar_tags: Vec::new(),
        developer_type: DeveloperType::Normal,
        friend_key: None,
        is_friend: false,
        image_url: None,
        last_platform: None,
        location: None,
        last_login: None,
        last_activity: None,
        last_mobile: None,
        platform: String::new(),
        profile_pic_override: None,
        profile_pic_override_thumbnail: None,
        status: UserStatus::Offline,
        status_description: String::new(),
        tags: Vec::new(),
        user_icon: None,
    }
}

fn pairs(headers: &[(String, String)]) -> Vec<(&str, &str)> {
    headers.iter().map(|h| (h.0.as_str(), h.1.as_str())).collect()
}

#[test]
fn the_headers_name_the_client() {
    let headers = build_api_headers(None, None);
    assert_eq!(
        pairs(&headers),
        vec![
            ("user-agent", USER_AGENT_STRING),
            ("accept", "*/*"),
            ("content-type", "application/json"),
            ("origin", "https://vrchat.com"),
        ]
    );
    let headers = build_api_headers(Some("Basic abc"), Some("auth=tok"));
    assert_eq!(headers.len(), 6);
    assert_eq!(pairs(&headers)[4], ("authorization", "Basic abc"));
    assert_eq!(pairs(&headers)[5], ("cookie", "auth=tok"));
    let headers = build_api_headers(None, Some("auth=tok"));
    assert_eq!(pairs(&headers)[4], ("cookie", "auth=tok"));
}

#[test]
fn the_backoff_doubles_up_to_its_ceiling() {
    let mut state = RetryState::new();
    assert_eq!(state, RetryState { attempt: 0, backoff: INITIAL_BACKOFF });
    let mut waits = Vec::new();
    while let Some(wait) = state.next_wait(None) {
        waits.push(wait);
    }
    assert_eq!(waits, vec![500, 1000, 2000, 4000, 8000]);
    assert_eq!(state.attempt, MAX_REQUEST_RETRIES);
    assert_eq!(state.backoff, MAX_BACKOFF);
    assert_eq!(state.next_wait(Some(1)), None);
    assert_eq!(state.attempt, MAX_REQUEST_RETRIES);
}

#[test]
fn the_service_may_name_the_wait() {
    let mut state = RetryState::new();
    assert_eq!(state.next_wait(Some(3)), Some(3000));
    assert_eq!(state.backoff, 1000);
    assert_eq!(state.next_wait(Some(0)), Some(0));
    assert_eq!(state.next_wait(Some(u64::MAX)), Some(u64::MAX));
    assert_eq!(state.next_wait(Some(u64::MAX / 1000)), Some(u64::MAX / 1000 * 1000));
    assert_eq!(state.next_wait(None), Some(8000));
}

#[test]
fn cookies_make_one_header() {
    let mut store = CookieStore::default();
    assert_eq!(store.to_header_value(), None);
    assert!(!store.has_auth());
    store.two_factor_cookie = Some("twoFactorAuth=b".to_string());
    assert_eq!(store.to_header_value(), Some("twoFactorAuth=b".to_string()));
    assert!(!store.has_auth());
    store.auth_cookie = Some("auth=a".to_string());
    assert_eq!(store.to_header_value(), Some("auth=a; twoFactorAuth=b".to_string()));
    assert!(store.has_auth());
    store.two_factor_cookie = None;
    assert_eq!(store.to_header_value(), Some("auth=a".to_string()));
    store.clear();
    assert_eq!(store, CookieStore::default());
}

#[test]
fn set_cookie_headers_fill_the_store() {
    let mut store = CookieStore::default();
    store.update_from_response(&vec![
        "other=1; Path=/".to_string(),
        "auth=first; Path=/; HttpOnly".to_string(),
        "twoFactorAuth=second".to_string(),
        " auth=not at the start".to_string(),
        "auth=last;".to_string(),
        "authx=no".to_string(),
    ]);
    assert_eq!(store.auth_cookie, Some("auth=last".to_string()));
    assert_eq!(store.two_factor_cookie, Some("twoFactorAuth=second".to_string()));
    store.update_from_response(&Vec::new());
    assert_eq!(store.auth_cookie, Some("auth=last".to_string()));
    store.update_from_response(&vec!["auth=".to_string()]);
    assert_eq!(store.auth_cookie, Some("auth=".to_string()));
}

#[test]
fn retry_after_is_a_number_of_seconds() {
    assert_eq!(extract_retry_after(Some("30")), Some(30));
    assert_eq!(extract_retry_after(Some("0")), Some(0));
    assert_eq!(extract_retry_after(Some("007")), Some(7));
    assert_eq!(extract_retry_after(Some("+5")), Some(5));
    assert_eq!(extract_retry_after(Some("18446744073709551615")), Some(u64::MAX));
    assert_eq!(extract_retry_after(Some("18446744073709551616")), None);
    assert_eq!(extract_retry_after(Some("99999999999999999999999")), None);
    assert_eq!(extract_retry_after(Some("")), None);
    assert_eq!(extract_retry_after(Some("+")), None);
    assert_eq!(extract_retry_after(Some("-1")), None);
    assert_eq!(extract_retry_after(Some(" 5")), None);
    assert_eq!(extract_retry_after(Some("5s")), None);
    assert_eq!(extract_retry_after(Some("++5")), None);
    assert_eq!(extract_retry_after(Some("Wed, 21 Oct 2015 07:28:00 GMT")), None);
    assert_eq!(extract_retry_after(None), None);
    for text in ["30", "+5", "", "+", "-1", "18446744073709551616", "0012"] {
        assert_eq!(extract_retry_after(Some(text)), text.parse::<u64>().ok(), "{}", text);
    }
}

#[test]
fn a_good_response_is_the_answer() {
    let mut state = RetryState::new();
    for status in [200, 204, 301, 400, 401, 404, 428, 430, 499, 600] {
        let outcome = Outcome::Response { status, reason: None, retry_after: Some(9) };
        assert_eq!(send_with_retry(&mut state, outcome), Verdict::Accept);
    }
    assert_eq!(state, RetryState::new());
}

#[test]
fn refusals_and_server_errors_are_repeated() {
    let mut state = RetryState::new();
    let busy = Outcome::Response { status: 429, reason: None, retry_after: Some(2) };
    assert_eq!(send_with_retry(&mut state, busy), Verdict::Retry(2000));
    let broken = Outcome::Response { status: 503, reason: None, retry_after: None };
    assert_eq!(send_with_retry(&mut state, broken), Verdict::Retry(1000));
    let lost = Outcome::Failure("connection reset".to_string());
    assert_eq!(send_with_retry(&mut state, lost), Verdict::Retry(2000));
    assert_eq!(state, RetryState { attempt: 3, backoff: 4000 });
}

#[test]
fn a_request_gives_up_after_its_repetitions() {
    let mut state = RetryState { attempt: MAX_REQUEST_RETRIES, backoff: MAX_BACKOFF };
    let busy = Outcome::Response { status: 429, reason: Some("Too Many Requests".to_string()), retry_after: None };
    assert_eq!(
        send_with_retry(&mut state, busy),
        Verdict::Fail(VRCError::RateLimit(
            "Too many requests. Please wait before trying again.".to_string()
        ))
    );
    let broken = Outcome::Response { status: 502, reason: Some("Bad Gateway".to_string()), retry_after: None };
    assert_eq!(
        send_with_retry(&mut state, broken),
        Verdict::Fail(VRCError::Http { status: 502, message: "Bad Gateway".to_string() })
    );
    let odd = Outcome::Response { status: 599, reason: None, retry_after: None };
    assert_eq!(
        send_with_retry(&mut state, odd),
        Verdict::Fail(VRCError::Http { status: 599, message: "Server error".to_string() })
    );
    let lost = Outcome::Failure("timed out".to_string());
    assert_eq!(
        send_with_retry(&mut state, lost),
        Verdict::Fail(VRCError::Network("Request failed after retries: timed out".to_string()))
    );
    assert_eq!(state.attempt, MAX_REQUEST_RETRIES);
}

#[test]
fn the_friend_list_is_walked_by_full_pages() {
    assert_eq!(PAGE_SIZE, 100);
    assert_eq!(next_friend_page(100, 0), Some(100));
    assert_eq!(next_friend_page(100, 300), Some(400));
    assert_eq!(next_friend_page(99, 0), None);
    assert_eq!(next_friend_page(0, 200), None);
    assert_eq!(next_friend_page(100, usize::MAX - 99), None);
    assert_eq!(next_friend_page(100, usize::MAX - 100), Some(usize::MAX));
}

#[test]
fn the_two_friend_lists_make_one() {
    let online = vec![friend("usr_a", "A"), friend("usr_b", "B"), friend("usr_a", "A again")];
    let offline = vec![
        friend("usr_c", "C"),
        friend("usr_b", "B offline"),
        friend("usr_c", "C again"),
        friend("usr_d", "D"),
    ];
    let all = combine_friends(online, offline);
    let names: Vec<&str> = all.iter().map(|f| f.display_name.as_str()).collect();
    assert_eq!(names, vec!["A", "B", "A again", "C", "D"]);
    assert!(combine_friends(Vec::new(), Vec::new()).is_empty());
    let only_offline = combine_friends(Vec::new(), vec![friend("usr_x", "X"), friend("usr_x", "X2")]);
    assert_eq!(only_offline.len(), 1);
    assert_eq!(only_offline[0].display_name, "X");
}

#[test]
fn the_bucket_is_filled_once_a_second() {
    let mut limiter = RateLimiter::new(2, 10_000);
    assert_eq!(limiter.acquire(10_000), None);
    assert_eq!(limiter.acquire(10_100), None);
    assert_eq!(limiter.tokens, 0);
    assert_eq!(limiter.acquire(10_400), Some(600));
    assert_eq!(limiter.acquire(10_999), Some(1));
    assert_eq!(limiter.acquire(11_000), None);
    assert_eq!(limiter, RateLimiter { last_reset: 11_000, tokens: 1, max_tokens: 2 });
    assert_eq!(limiter.acquire(9_000), None);
    assert_eq!(limiter.acquire(9_000), Some(1000));
}

#[test]
fn an_empty_bucket_never_gives() {
    let mut limiter = RateLimiter::new(0, 0);
    assert_eq!(limiter.acquire(0), Some(1000));
    assert_eq!(limiter.acquire(5_000), Some(1000));
    assert_eq!(limiter.last_reset, 5_000);
}

#[test]
fn cookies_go_to_the_services_own_addresses_only() {
    assert!(is_vrchat_domain("https://api.vrchat.cloud/api/1/image/file_1/1/256"));
    assert!(is_vrchat_domain("https://files.vrchat.cloud/thumbnails/1.png"));
    assert!(is_vrchat_domain("https://assets.vrchat.com/www/x.png"));
    assert!(is_vrchat_domain("https://d348imysud55la.cloudfront.net/x"));
    assert!(is_vrchat_domain("https://api.vrchat.cloud/"));
    assert!(!is_vrchat_domain("https://api.vrchat.cloud"));
    assert!(!is_vrchat_domain("http://api.vrchat.cloud/x"));
    assert!(!is_vrchat_domain("https://api.vrchat.cloud.evil.example/x"));
    assert!(!is_vrchat_domain("https://example.com/https://api.vrchat.cloud/"));
    assert!(!is_vrchat_domain(""));
    let cookies = Some("auth=tok".to_string());
    assert_eq!(cookies_for("https://files.vrchat.cloud/a.png", cookies.clone()), cookies);
    assert_eq!(cookies_for("https://example.com/a.png", cookies), None);
    assert_eq!(cookies_for("https://files.vrchat.cloud/a.png", None), None);
}

#[test]
fn a_download_is_taken_repeated_or_given_up() {
    let url = "https://files.vrchat.cloud/a.png";
    let mut state = RetryState::new();
    let ok = Fetched::Response { status: 200, retry_after: None };
    assert_eq!(download_with_retry(&mut state, url, ok), Download::Take);
    let partial = Fetched::Response { status: 299, retry_after: None };
    assert_eq!(download_with_retry(&mut state, url, partial), Download::Take);
    let missing = Fetched::Response { status: 404, retry_after: None };
    assert_eq!(
        download_with_retry(&mut state, url, missing),
        Download::Fail("Failed to download image (status 404): https://files.vrchat.cloud/a.png".to_string())
    );
    let moved = Fetched::Response { status: 302, retry_after: None };
    assert!(matches!(download_with_retry(&mut state, url, moved), Download::Fail(_)));
    assert_eq!(state, RetryState::new());
    let busy = Fetched::Response { status: 429, retry_after: Some(1) };
    assert_eq!(download_with_retry(&mut state, url, busy), Download::Retry(1000));
    let broken = Fetched::Response { status: 500, retry_after: None };
    assert_eq!(download_with_retry(&mut state, url, broken), Download::Retry(1000));
    let lost = Fetched::Failure("reset".to_string());
    assert_eq!(download_with_retry(&mut state, url, lost), Download::Retry(2000));
    let mut spent = RetryState { attempt: MAX_REQUEST_RETRIES, backoff: MAX_BACKOFF };
    let busy = Fetched::Response { status: 429, retry_after: Some(1) };
    assert_eq!(
        download_with_retry(&mut spent, url, busy),
        Download::Fail(
            "Image request failed after retries (status 429): https://files.vrchat.cloud/a.png".to_string()
        )
    );
    let lost = Fetched::Failure("reset".to_string());
    assert_eq!(
        download_with_retry(&mut spent, url, lost),
        Download::Fail("Failed to download image: reset".to_string())
    );
}

#[test]
fn basic_authentication_encodes_email_and_password() {
    assert_eq!(create_basic_auth("user@example.com", "pass:word"), "Basic dXNlckBleGFtcGxlLmNvbTpwYXNzOndvcmQ=");
    assert_eq!(create_basic_auth("", ""), "Basic Og==");
    assert_eq!(create_basic_auth("a", ""), "Basic YTo=");
    assert_eq!(create_basic_auth("é", "ü"), "Basic w6k6w7w=");
}

fn statistics(visits: Option<i32>, heat: Option<i32>, organization: Option<&str>) -> WorldStatistics {
    WorldStatistics {
        visits,
        favorites: Some(1),
        popularity: Some(2),
        occupants: Some(3),
        capacity: Some(4),
        recommended_capacity: Some(5),
        heat,
        organization: organization.map(str::to_string),
    }
}

#[test]
fn a_world_without_a_figure_is_incomplete() {
    assert!(!statistics(Some(0), None, None).is_incomplete());
    assert!(statistics(None, Some(1), Some("vrchat")).is_incomplete());
    let mut no_capacity = statistics(Some(0), None, None);
    no_capacity.recommended_capacity = None;
    assert!(no_capacity.is_incomplete());
}

#[test]
fn the_worlds_own_record_fills_the_gaps() {
    let mut listed = statistics(None, Some(7), Some("vrchat"));
    listed.favorites = Some(10);
    let mut details = statistics(Some(99), None, None);
    details.favorites = Some(11);
    details.occupants = None;
    listed.backfill(details);
    assert_eq!(listed.visits, Some(99));
    assert_eq!(listed.favorites, Some(11));
    assert_eq!(listed.occupants, Some(3));
    assert_eq!(listed.heat, Some(7));
    assert_eq!(listed.organization, Some("vrchat".to_string()));
    listed.backfill(statistics(None, Some(8), Some("other")));
    assert_eq!(listed.visits, Some(99));
    assert_eq!(listed.heat, Some(8));
    assert_eq!(listed.organization, Some("other".to_string()));
}

#[test]
fn uploads_are_walked_by_what_came() {
    assert_eq!(next_upload_page(100, 0), Some(100));
    assert_eq!(next_upload_page(150, 100), Some(250));
    assert_eq!(next_upload_page(99, 100), None);
    assert_eq!(next_upload_page(0, 0), None);
    assert_eq!(next_upload_page(100, usize::MAX - 50), None);
}
