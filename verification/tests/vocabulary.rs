use vrc_one::vrchat_api::error::VRCError;
use vrc_one::vrchat_api::types::{
    AgeVerificationStatus, DeveloperType, FriendRequestStatus, OrderOption, PerformanceRatings,
    ReleaseStatus, TwoFactorMethod, UserState, UserStatus,
};

#[test]
fn statuses_go_by_their_wire_names() {
    assert_eq!(UserStatus::Active.to_string(), "active");
    assert_eq!(UserStatus::JoinMe.to_string(), "join me");
    assert_eq!(UserStatus::AskMe.to_string(), "ask me");
    assert_eq!(UserStatus::Busy.to_string(), "busy");
    assert_eq!(UserStatus::Offline.to_string(), "offline");
    assert_eq!(UserStatus::from_name("join me"), Some(UserStatus::JoinMe));
    assert_eq!(UserStatus::from_name("JoinMe"), None);
    assert_eq!(UserStatus::default(), UserStatus::Offline);
}

#[test]
fn the_other_vocabularies_have_names_and_defaults() {
    assert_eq!(ReleaseStatus::default(), ReleaseStatus::Public);
    assert_eq!(ReleaseStatus::All.to_string(), "all");
    assert_eq!(ReleaseStatus::from_name("hidden"), Some(ReleaseStatus::Hidden));
    assert_eq!(DeveloperType::default(), DeveloperType::Normal);
    assert_eq!(DeveloperType::Normal.to_string(), "none");
    assert_eq!(DeveloperType::from_name("moderator"), Some(DeveloperType::Moderator));
    assert_eq!(AgeVerificationStatus::default(), AgeVerificationStatus::Hidden);
    assert_eq!(AgeVerificationStatus::Plus18.to_string(), "18+");
    assert_eq!(AgeVerificationStatus::from_name("18+"), Some(AgeVerificationStatus::Plus18));
    assert_eq!(FriendRequestStatus::default(), FriendRequestStatus::NoRequest);
    assert_eq!(FriendRequestStatus::NoRequest.to_string(), "");
    assert_eq!(FriendRequestStatus::from_name(""), Some(FriendRequestStatus::NoRequest));
    assert_eq!(FriendRequestStatus::from_name("incoming"), Some(FriendRequestStatus::Incoming));
    assert_eq!(UserState::default(), UserState::Offline);
    assert_eq!(UserState::Online.to_string(), "online");
    assert_eq!(PerformanceRatings::default(), PerformanceRatings::Unrated);
    assert_eq!(PerformanceRatings::Unrated.to_string(), "None");
    assert_eq!(PerformanceRatings::VeryPoor.to_string(), "VeryPoor");
    assert_eq!(PerformanceRatings::from_name("verypoor"), None);
    assert_eq!(OrderOption::default(), OrderOption::Descending);
    assert_eq!(OrderOption::Ascending.to_string(), "ascending");
}

#[test]
fn two_factor_methods_are_read_without_regard_to_case() {
    assert_eq!(TwoFactorMethod::EmailOtp.endpoint(), "emailotp");
    assert_eq!(TwoFactorMethod::Totp.endpoint(), "totp");
    assert_eq!(TwoFactorMethod::from_str("EmailOTP"), Some(TwoFactorMethod::EmailOtp));
    assert_eq!(TwoFactorMethod::from_str("totp"), Some(TwoFactorMethod::Totp));
    assert_eq!(TwoFactorMethod::from_str("OTP"), Some(TwoFactorMethod::Totp));
    assert_eq!(TwoFactorMethod::from_str("sms"), None);
    assert_eq!(TwoFactorMethod::from_str(""), None);
}

#[test]
fn errors_carry_message_and_status() {
    let http = VRCError::http(404, "Not Found".to_string());
    assert_eq!(http.message(), "Not Found");
    assert_eq!(http.status_code(), Some(404));
    assert_eq!(http.to_string(), "HTTP 404 error: Not Found");
    assert_eq!(VRCError::http(0, String::new()).to_string(), "HTTP 0 error: ");
    assert_eq!(VRCError::http(65535, "x".to_string()).to_string(), "HTTP 65535 error: x");
    assert_eq!(VRCError::http(10, "x".to_string()).to_string(), "HTTP 10 error: x");
    let network = VRCError::network("down".to_string());
    assert_eq!(network, VRCError::Network("down".to_string()));
    assert_eq!(network.status_code(), None);
    assert_eq!(network.to_string(), "Network error: down");
    assert_eq!(VRCError::auth("no".to_string()).to_string(), "Authentication error: no");
    assert_eq!(VRCError::rate_limit("slow".to_string()).to_string(), "Rate limit: slow");
    assert_eq!(VRCError::parse("bad".to_string()).to_string(), "Parse error: bad");
    assert_eq!(VRCError::invalid_input("arg".to_string()).to_string(), "Invalid input: arg");
    assert_eq!(VRCError::unknown("?".to_string()).to_string(), "Unknown error: ?");
    assert_eq!(VRCError::unknown("?".to_string()).message(), "?");
}
