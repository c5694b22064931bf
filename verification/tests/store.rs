use vrc_one::store::user_store::{
    parse_platform, parse_user_status, platform_name, CachedUser, CurrentUserPipelineUpdate,
    Platform, UserRelationship, UserStore,
};
use vrc_one::vrchat_api::types::{
    AgeVerificationStatus, DeveloperType, FriendRequestStatus, LimitedUserFriend, User, UserStatus,
};

fn user(id: &str, display_name: &str, username: &str) -> User {
    User {
        id: id.to_string(),
        username: username.to_string(),
        display_name: display_name.to_string(),
        accepted_privacy_version: None,
        accepted_tos_version: None,
        account_deletion_date: None,
        state: String::new(),
        status: UserStatus::Offline,
        status_description: String::new(),
        status_first_time: None,
        status_history: Vec::new(),
        bio: String::new(),
        bio_links: Vec::new(),
        age_verification_status: AgeVerificationStatus::Hidden,
        age_verified: None,
        is_adult: None,
        date_joined: None,
        last_login: None,
        last_activity: None,
        last_platform: None,
        last_mobile: None,
        platform: String::new(),
        platform_history: Vec::new(),
        location: None,
        traveling_to_world: None,
        traveling_to_location: None,
        traveling_to_instance: None,
        home_location: None,
        instance_id: None,
        world_id: None,
        allow_avatar_copying: None,
        two_factor_auth_enabled: None,
        two_factor_auth_enabled_date: None,
        current_avatar: None,
        fallback_avatar: None,
        current_avatar_tags: Vec::new(),
        profile_pic_override: None,
        profile_pic_override_thumbnail: None,
        user_icon: None,
        current_avatar_image_url: None,
        current_avatar_thumbnail_image_url: None,
        banner_id: None,
        banner_url: None,
        pronouns: None,
        languages: None,
        pronouns_history: Vec::new(),
        friends: Vec::new(),
        friend_group_names: Vec::new(),
        friend_key: None,
        friend_request_status: FriendRequestStatus::NoRequest,
        past_display_names: None,
        badges: None,
        tags: Vec::new(),
        is_friend: None,
        note: None,
        developer_type: DeveloperType::Normal,
        is_booping_enabled: None,
        receive_mobile_invitations: None,
        hide_content_filter_settings: None,
        has_birthday: None,
        has_email: None,
        has_pending_email: None,
        has_logged_in_from_client: None,
        unsubscribe: None,
        updated_at: None,
        email_verified: None,
        obfuscated_email: None,
        user_language: None,
        user_language_code: None,
        discord_id: None,
        discord_details: None,
        google_id: None,
        google_details: None,
        steam_id: None,
        steam_details: None,
        oculus_id: None,
        pico_id: None,
        vive_id: None,
    }
}

fn friend(id: &str, display_name: &str) -> LimitedUserFriend {
    LimitedUserFriend {
        id: id.to_string(),
        display_name: display_name.to_string(),
        bio: String::new(),
        bio_links: Vec::new(),
        current_avatar_image_url: None,
        current_avatar_thumbnail_image_url: None,
        current_avatar_tags: Vec::new(),
        developer_type: DeveloperType::Normal,
        friend_key: None,
        is_friend: false,
        image_url: None,
        last_platform: None,
        location: None,
        last_login: None,
        last_activity: None,
        last_mobile: None,
        platform: String::new(),
        profile_pic_override: None,
        profile_pic_override_thumbnail: None,
        status: UserStatus::Offline,
        status_description: String::new(),
        tags: Vec::new(),
        user_icon: None,
    }
}

fn friend_at(id: &str, display_name: &str, location: &str) -> LimitedUserFriend {
    let mut f = friend(id, display_name);
    f.location = Some(location.to_string());
    f
}

fn patch(id: &str) -> CurrentUserPipelineUpdate {
    CurrentUserPipelineUpdate {
        id: id.to_string(),
        display_name: "Me Again".to_string(),
        username: "me".to_string(),
        status: "join me".to_string(),
        status_description: "hello".to_string(),
        bio: "new bio".to_string(),
        user_icon: Some("icon".to_string()),
        profile_pic_override: None,
        profile_pic_override_thumbnail: None,
        current_avatar: Some("avtr_1".to_string()),
        current_avatar_asset_url: None,
        current_avatar_image_url: Some("img".to_string()),
        current_avatar_thumbnail_image_url: None,
        fallback_avatar: Some("avtr_0".to_string()),
        tags: vec!["tag_a".to_string()],
    }
}

#[test]
fn a_new_store_is_empty() {
    let store = UserStore::new();
    let stats = store.get_stats();
    assert_eq!(stats.total_cached, 0);
    assert_eq!(stats.friends, 0);
    assert_eq!(stats.online_friends, 0);
    assert!(!stats.has_current_user);
    assert!(store.get_current_user().is_none());
    assert!(store.get_current_user_id().is_none());
    assert!(store.get_all_friends().is_empty());
}

#[test]
fn a_friend_who_left_the_list_is_known() {
    let mut store = UserStore::new();
    store.set_friends(Vec::new(), 1);
    store.set_friends(vec![friend("usr_a", "A"), friend("usr_b", "B")], 2);
    assert!(store.is_friend("usr_a"));
    assert!(store.is_friend("usr_b"));
    store.set_friends(vec![friend("usr_a", "A")], 3);
    assert!(store.is_friend("usr_a"));
    assert!(!store.is_friend("usr_b"));
    let b = store.get_cached_user("usr_b").expect("b is kept");
    assert_eq!(b.relationship, UserRelationship::Known);
    assert_eq!(store.get_stats().total_cached, 2);
    assert_eq!(store.get_stats().friends, 1);
}

#[test]
fn loading_the_friend_list_twice_changes_nothing_more() {
    let mut store = UserStore::new();
    store.set_friends(vec![friend("usr_a", "A"), friend("usr_b", "B")], 2);
    store.set_friends(vec![friend("usr_a", "A"), friend("usr_b", "B")], 2);
    assert_eq!(store.get_stats().total_cached, 2);
    assert_eq!(store.get_stats().friends, 2);
    let names: Vec<String> = store.get_all_friends().into_iter().map(|f| f.display_name).collect();
    assert_eq!(names, vec!["A".to_string(), "B".to_string()]);
}

#[test]
fn the_friend_list_leaves_the_current_user_alone() {
    let mut store = UserStore::new();
    let mut me = user("usr_me", "Me", "me");
    me.bio = "my bio".to_string();
    store.set_current_user(me, 1);
    let mut as_friend = friend_at("usr_me", "Me?", "wrld_9");
    as_friend.bio = "lean".to_string();
    store.set_friends(vec![as_friend, friend("usr_a", "A")], 2);
    let entry = store.get_cached_user("usr_me").unwrap();
    assert_eq!(entry.relationship, UserRelationship::CurrentUser);
    assert_eq!(entry.username, Some("me".to_string()));
    assert_eq!(entry.bio, Some("my bio".to_string()));
    assert_eq!(entry.display_name, "Me");
    assert_eq!(entry.location, Some("wrld_9".to_string()));
    assert!(!store.is_friend("usr_me"));
    assert_eq!(store.get_stats().friends, 1);
    assert_eq!(store.get_stats().total_cached, 2);
}

#[test]
fn upsert_of_the_current_user_keeps_username_and_bio() {
    let mut store = UserStore::new();
    let mut me = user("usr_me", "Me", "me");
    me.bio = "my bio".to_string();
    me.status = UserStatus::Active;
    me.location = Some("wrld_1".to_string());
    me.platform = "standalonewindows".to_string();
    me.status_description = "before".to_string();
    store.set_current_user(me, 1);

    let mut record = friend_at("usr_me", "Someone", "wrld_2");
    record.bio = "other bio".to_string();
    record.status = UserStatus::Busy;
    record.platform = "android".to_string();
    record.status_description = String::new();
    store.upsert_friend(record, 5);

    let entry = store.get_cached_user("usr_me").unwrap();
    assert_eq!(entry.username, Some("me".to_string()));
    assert_eq!(entry.bio, Some("my bio".to_string()));
    assert_eq!(entry.display_name, "Me");
    assert_eq!(entry.relationship, UserRelationship::CurrentUser);
    assert_eq!(entry.location, Some("wrld_2".to_string()));
    assert_eq!(entry.status, Some(UserStatus::Busy));
    assert_eq!(entry.platform, Some(Platform::Android));
    assert_eq!(entry.status_description, Some("before".to_string()));
    assert_eq!(entry.last_updated, 5);
    assert!(entry.friend_data.is_some());

    let profile = store.get_current_user().unwrap();
    assert_eq!(profile.username, "me");
    assert_eq!(profile.bio, "my bio");
    assert_eq!(profile.location, Some("wrld_2".to_string()));
    assert_eq!(profile.status, UserStatus::Busy);
    assert_eq!(profile.platform, "android");
    assert_eq!(profile.status_description, "before");
}

#[test]
fn upsert_of_the_current_user_adds_no_entry() {
    let mut store = UserStore::new();
    store.apply_current_user_update(patch("usr_me"), 1);
    store.upsert_friend(friend("usr_me", "Me"), 3);
    assert_eq!(store.get_stats().total_cached, 1);
    assert_eq!(store.get_stats().friends, 0);
    assert!(!store.is_friend("usr_me"));
    let entry = store.get_cached_user("usr_me").unwrap();
    assert_eq!(entry.relationship, UserRelationship::CurrentUser);
    assert_eq!(entry.display_name, "Me Again");
    assert_eq!(entry.status, Some(UserStatus::Offline));
    assert_eq!(entry.last_updated, 3);
}

#[test]
fn upsert_of_a_stranger_makes_a_friend() {
    let mut store = UserStore::new();
    store.upsert_friend(friend_at("usr_a", "A", "wrld_1"), 4);
    let entry = store.get_cached_user("usr_a").unwrap();
    assert_eq!(entry.relationship, UserRelationship::Friend);
    assert_eq!(entry.username, None);
    assert_eq!(entry.bio, Some(String::new()));
    assert_eq!(entry.status, Some(UserStatus::Offline));
    assert_eq!(entry.platform, Some(Platform::Other(String::new())));
    assert_eq!(entry.location, Some("wrld_1".to_string()));
    assert_eq!(entry.last_updated, 4);
    assert!(entry.full_user.is_none());
    assert_eq!(entry.as_friend().unwrap().id, "usr_a");
    assert_eq!(store.get_user("usr_a").unwrap().display_name, "A");
}

#[test]
fn upsert_promotes_a_known_user_and_keeps_the_profile() {
    let mut store = UserStore::new();
    store.cache_full_user(user("usr_a", "A", ""), 1);
    assert_eq!(store.get_cached_user("usr_a").unwrap().relationship, UserRelationship::Known);
    store.upsert_friend(friend("usr_a", "A2"), 2);
    let entry = store.get_cached_user("usr_a").unwrap();
    assert_eq!(entry.relationship, UserRelationship::Friend);
    assert_eq!(entry.display_name, "A2");
    assert!(entry.full_user.is_some());
    assert_eq!(store.get_full_user("usr_a").unwrap().display_name, "A");
}

#[test]
fn is_online_goes_by_the_location() {
    let mut store = UserStore::new();
    store.upsert_friend(friend_at("usr_empty", "E", ""), 1);
    store.upsert_friend(friend_at("usr_off", "O", "offline"), 1);
    store.upsert_friend(friend_at("usr_priv", "P", "private"), 1);
    store.upsert_friend(friend("usr_none", "N"), 1);
    store.upsert_friend(friend_at("usr_on", "W", "wrld_1:123"), 1);
    store.upsert_friend(friend_at("usr_trav", "T", "traveling"), 1);
    assert!(!store.is_user_online("usr_empty"));
    assert!(!store.is_user_online("usr_off"));
    assert!(!store.is_user_online("usr_priv"));
    assert!(!store.is_user_online("usr_none"));
    assert!(!store.is_user_online("usr_absent"));
    assert!(store.is_user_online("usr_on"));
    assert!(store.is_user_online("usr_trav"));
    assert_eq!(store.get_online_friend_count(), 2);
    let online: Vec<String> = store.get_online_friends().into_iter().map(|f| f.id).collect();
    assert_eq!(online, vec!["usr_on".to_string(), "usr_trav".to_string()]);
    assert_eq!(store.get_stats().online_friends, 2);
    assert_eq!(store.get_stats().friends, 6);
}

#[test]
fn cached_user_is_online_by_location() {
    let on = CachedUser::from_friend(friend_at("usr_a", "A", "wrld_1"), 0);
    assert!(on.is_online());
    let off = CachedUser::from_friend(friend_at("usr_a", "A", "offline"), 0);
    assert!(!off.is_online());
    let private = CachedUser::from_friend(friend_at("usr_a", "A", "private"), 0);
    assert!(!private.is_online());
    let empty = CachedUser::from_friend(friend_at("usr_a", "A", ""), 0);
    assert!(!empty.is_online());
    let none = CachedUser::from_friend(friend("usr_a", "A"), 0);
    assert!(!none.is_online());
}

#[test]
fn an_empty_username_does_not_clobber_a_known_one() {
    let mut store = UserStore::new();
    store.cache_full_user(user("usr_a", "A", "alice"), 1);
    assert_eq!(store.get_cached_user("usr_a").unwrap().username, Some("alice".to_string()));
    let mut again = user("usr_a", "A renamed", "");
    again.bio = "fresh".to_string();
    store.cache_full_user(again, 2);
    let entry = store.get_cached_user("usr_a").unwrap();
    assert_eq!(entry.username, Some("alice".to_string()));
    assert_eq!(entry.display_name, "A renamed");
    assert_eq!(entry.bio, Some("fresh".to_string()));
    assert_eq!(entry.last_updated, 2);
    store.cache_full_user(user("usr_a", "A", "alicia"), 3);
    assert_eq!(store.get_cached_user("usr_a").unwrap().username, Some("alicia".to_string()));
}

#[test]
fn a_fetched_profile_keeps_the_relationship() {
    let mut store = UserStore::new();
    store.upsert_friend(friend("usr_a", "A"), 1);
    store.cache_full_user(user("usr_a", "A", ""), 2);
    let entry = store.get_cached_user("usr_a").unwrap();
    assert_eq!(entry.relationship, UserRelationship::Friend);
    assert!(entry.friend_data.is_some());
    assert!(entry.full_user.is_some());
    assert_eq!(entry.username, None);
}

#[test]
fn from_user_takes_an_empty_username_as_none() {
    let bare = CachedUser::from_user(user("usr_a", "A", ""), UserRelationship::Known, 9);
    assert_eq!(bare.username, None);
    assert_eq!(bare.last_updated, 9);
    assert_eq!(bare.relationship, UserRelationship::Known);
    assert!(bare.friend_data.is_none());
    let named = CachedUser::from_user(user("usr_a", "A", "alice"), UserRelationship::CurrentUser, 9);
    assert_eq!(named.username, Some("alice".to_string()));
    assert_eq!(named.relationship, UserRelationship::CurrentUser);
}

#[test]
fn update_from_friend_keeps_id_username_and_relationship() {
    let mut entry = CachedUser::from_user(user("usr_a", "A", "alice"), UserRelationship::Known, 1);
    let mut record = friend_at("usr_zzz", "Renamed", "wrld_3");
    record.platform = "web".to_string();
    entry.update_from_friend(record, 7);
    assert_eq!(entry.id, "usr_a");
    assert_eq!(entry.username, Some("alice".to_string()));
    assert_eq!(entry.relationship, UserRelationship::Known);
    assert_eq!(entry.display_name, "Renamed");
    assert_eq!(entry.platform, Some(Platform::Web));
    assert_eq!(entry.location, Some("wrld_3".to_string()));
    assert_eq!(entry.last_updated, 7);
    assert!(entry.full_user.is_some());
}

#[test]
fn age_is_measured_from_the_last_write() {
    let entry = CachedUser::from_friend(friend("usr_a", "A"), 100);
    assert_eq!(entry.age_seconds(100), 0);
    assert_eq!(entry.age_seconds(160), 60);
    assert_eq!(entry.age_seconds(40), 0);
}

#[test]
fn set_current_user_keeps_the_previous_one_cached() {
    let mut store = UserStore::new();
    store.set_current_user(user("usr_one", "One", "one"), 1);
    store.set_current_user(user("usr_two", "Two", "two"), 2);
    assert_eq!(store.get_current_user_id(), Some(&"usr_two".to_string()));
    assert_eq!(store.get_current_user().unwrap().id, "usr_two");
    assert!(store.get_cached_user("usr_one").is_some());
    assert_eq!(store.get_stats().total_cached, 2);
    store.clear_current_user();
    assert!(store.get_current_user().is_none());
    assert!(!store.get_stats().has_current_user);
    assert_eq!(store.get_stats().total_cached, 2);
}

#[test]
fn set_current_user_replaces_the_entry() {
    let mut store = UserStore::new();
    store.upsert_friend(friend_at("usr_me", "Me", "wrld_1"), 1);
    store.set_current_user(user("usr_me", "Me", "me"), 2);
    let entry = store.get_cached_user("usr_me").unwrap();
    assert_eq!(entry.relationship, UserRelationship::CurrentUser);
    assert!(entry.friend_data.is_none());
    assert_eq!(entry.location, None);
    assert_eq!(store.get_stats().total_cached, 1);
}

#[test]
fn going_offline_marks_entry_and_friend_record() {
    let mut store = UserStore::new();
    let mut record = friend_at("usr_a", "A", "wrld_1");
    record.platform = "android".to_string();
    store.upsert_friend(record, 1);
    store.set_friend_offline("usr_a", 2);
    let entry = store.get_cached_user("usr_a").unwrap();
    assert_eq!(entry.location, Some("offline".to_string()));
    assert_eq!(entry.platform, Some(Platform::Android));
    assert_eq!(entry.relationship, UserRelationship::Friend);
    assert_eq!(entry.last_updated, 2);
    let data = store.get_user("usr_a").unwrap();
    assert_eq!(data.location, Some("offline".to_string()));
    assert_eq!(data.platform, "");
    assert!(!store.is_user_online("usr_a"));
    store.set_friend_offline("usr_unknown", 3);
    assert_eq!(store.get_stats().total_cached, 1);
}

#[test]
fn a_location_update_mirrors_into_the_friend_record() {
    let mut store = UserStore::new();
    store.upsert_friend(friend_at("usr_a", "A", "offline"), 1);
    store.update_user_location("usr_a", "wrld_2".to_string(), Some("android".to_string()), 2);
    let entry = store.get_cached_user("usr_a").unwrap();
    assert_eq!(entry.location, Some("wrld_2".to_string()));
    assert_eq!(entry.platform, Some(Platform::Android));
    let data = store.get_user("usr_a").unwrap();
    assert_eq!(data.location, Some("wrld_2".to_string()));
    assert_eq!(data.platform, "android");
    store.update_user_location("usr_a", "wrld_3".to_string(), None, 3);
    let data = store.get_user("usr_a").unwrap();
    assert_eq!(data.location, Some("wrld_3".to_string()));
    assert_eq!(data.platform, "android");
    store.update_user_location("usr_a", "wrld_4".to_string(), Some("Quest".to_string()), 4);
    let entry = store.get_cached_user("usr_a").unwrap();
    assert_eq!(entry.platform, Some(Platform::Other("Quest".to_string())));
    assert_eq!(store.get_user("usr_a").unwrap().platform, "Quest");
    store.update_user_location("usr_nobody", "wrld_1".to_string(), None, 5);
    assert_eq!(store.get_stats().total_cached, 1);
}

#[test]
fn removing_a_friend_demotes_and_keeps() {
    let mut store = UserStore::new();
    store.cache_full_user(user("usr_a", "A", ""), 1);
    store.upsert_friend(friend_at("usr_a", "A", "wrld_1"), 2);
    store.remove_friend("usr_a", 3);
    let entry = store.get_cached_user("usr_a").unwrap();
    assert_eq!(entry.relationship, UserRelationship::Known);
    assert!(entry.friend_data.is_none());
    assert_eq!(entry.location, None);
    assert_eq!(entry.platform, None);
    assert!(entry.full_user.is_some());
    assert_eq!(entry.last_updated, 3);
    assert!(store.get_user("usr_a").is_none());
    assert!(!store.is_friend("usr_a"));
    store.remove_friend("usr_unknown", 4);
    assert_eq!(store.get_stats().total_cached, 1);
}

#[test]
fn a_current_user_update_creates_the_entry() {
    let mut store = UserStore::new();
    store.apply_current_user_update(patch("usr_me"), 3);
    assert_eq!(store.get_current_user_id(), Some(&"usr_me".to_string()));
    let entry = store.get_cached_user("usr_me").unwrap();
    assert_eq!(entry.relationship, UserRelationship::CurrentUser);
    assert_eq!(entry.display_name, "Me Again");
    assert_eq!(entry.username, Some("me".to_string()));
    assert_eq!(entry.status, Some(UserStatus::JoinMe));
    assert_eq!(entry.bio, Some("new bio".to_string()));
    assert_eq!(entry.location, None);
    assert_eq!(entry.platform, None);
    assert!(entry.full_user.is_none());
    assert_eq!(entry.last_updated, 3);
    assert!(store.get_current_user().is_none());
}

#[test]
fn a_current_user_update_patches_the_profile() {
    let mut store = UserStore::new();
    let mut me = user("usr_me", "Me", "me_old");
    me.location = Some("wrld_1".to_string());
    me.note = Some("kept".to_string());
    me.tags = vec!["old".to_string()];
    store.set_current_user(me, 1);
    store.apply_current_user_update(patch("usr_me"), 2);
    let profile = store.get_current_user().unwrap();
    assert_eq!(profile.display_name, "Me Again");
    assert_eq!(profile.username, "me");
    assert_eq!(profile.status, UserStatus::JoinMe);
    assert_eq!(profile.status_description, "hello");
    assert_eq!(profile.bio, "new bio");
    assert_eq!(profile.current_avatar, Some("avtr_1".to_string()));
    assert_eq!(profile.fallback_avatar, Some("avtr_0".to_string()));
    assert_eq!(profile.tags, vec!["tag_a".to_string()]);
    assert_eq!(profile.location, Some("wrld_1".to_string()));
    assert_eq!(profile.note, Some("kept".to_string()));
    let entry = store.get_cached_user("usr_me").unwrap();
    assert_eq!(entry.location, Some("wrld_1".to_string()));
}

#[test]
fn a_current_user_update_moves_the_pointer() {
    let mut store = UserStore::new();
    store.set_current_user(user("usr_one", "One", "one"), 1);
    store.upsert_friend(friend("usr_two", "Two"), 1);
    store.apply_current_user_update(patch("usr_two"), 2);
    assert_eq!(store.get_current_user_id(), Some(&"usr_two".to_string()));
    let two = store.get_cached_user("usr_two").unwrap();
    assert_eq!(two.relationship, UserRelationship::CurrentUser);
    assert!(two.friend_data.is_some());
    assert_eq!(store.get_stats().friends, 0);
}

#[test]
fn an_unknown_status_name_counts_as_offline() {
    assert_eq!(parse_user_status("active"), UserStatus::Active);
    assert_eq!(parse_user_status("join me"), UserStatus::JoinMe);
    assert_eq!(parse_user_status("ask me"), UserStatus::AskMe);
    assert_eq!(parse_user_status("busy"), UserStatus::Busy);
    assert_eq!(parse_user_status("offline"), UserStatus::Offline);
    assert_eq!(parse_user_status("Active"), UserStatus::Offline);
    assert_eq!(parse_user_status(""), UserStatus::Offline);
}

#[test]
fn platforms_keep_their_text() {
    assert_eq!(parse_platform("standalonewindows"), Platform::StandaloneWindows);
    assert_eq!(parse_platform("android"), Platform::Android);
    assert_eq!(parse_platform("web"), Platform::Web);
    assert_eq!(parse_platform("Android"), Platform::Other("Android".to_string()));
    assert_eq!(parse_platform(""), Platform::Other(String::new()));
    assert_eq!(platform_name(&Platform::StandaloneWindows), "standalonewindows");
    assert_eq!(platform_name(&Platform::Android), "android");
    assert_eq!(platform_name(&Platform::Web), "web");
    assert_eq!(platform_name(&Platform::Other("ios".to_string())), "ios");
}

#[test]
fn search_ignores_case_and_matches_inside() {
    let mut store = UserStore::new();
    store.upsert_friend(friend("usr_a", "Alice Wonder"), 1);
    store.upsert_friend(friend("usr_b", "bob"), 1);
    store.cache_full_user(user("usr_c", "MALICE", ""), 1);
    let hits: Vec<String> = store.search_users("LIC").into_iter().map(|u| u.id.clone()).collect();
    assert_eq!(hits, vec!["usr_a".to_string(), "usr_c".to_string()]);
    assert_eq!(store.search_users("").len(), 3);
    assert!(store.search_users("zed").is_empty());
}

#[test]
fn clear_cache_keeps_the_current_user_only() {
    let mut store = UserStore::new();
    store.upsert_friend(friend("usr_a", "A"), 1);
    store.set_current_user(user("usr_me", "Me", "me"), 1);
    store.upsert_friend(friend("usr_b", "B"), 1);
    store.clear_cache();
    assert_eq!(store.get_stats().total_cached, 1);
    assert!(store.get_cached_user("usr_me").is_some());
    assert!(store.get_stats().has_current_user);
    store.clear_current_user();
    store.clear_cache();
    assert_eq!(store.get_stats().total_cached, 0);
}

#[test]
fn clear_all_forgets_everything() {
    let mut store = UserStore::new();
    store.set_current_user(user("usr_me", "Me", "me"), 1);
    store.upsert_friend(friend("usr_a", "A"), 1);
    store.clear_all();
    assert_eq!(store.get_stats().total_cached, 0);
    assert!(!store.get_stats().has_current_user);
    assert!(store.get_current_user_id().is_none());
}

#[test]
fn eviction_spares_friends_and_the_current_user() {
    let mut store = UserStore::new();
    store.set_current_user(user("usr_me", "Me", "me"), 0);
    store.upsert_friend(friend("usr_friend", "F"), 0);
    store.cache_full_user(user("usr_old", "Old", ""), 0);
    store.cache_full_user(user("usr_edge", "Edge", ""), 40);
    store.cache_full_user(user("usr_new", "New", ""), 41);
    store.remove_stale(60, 100);
    assert!(store.get_cached_user("usr_me").is_some());
    assert!(store.get_cached_user("usr_friend").is_some());
    assert!(store.get_cached_user("usr_old").is_none());
    assert!(store.get_cached_user("usr_edge").is_none());
    assert!(store.get_cached_user("usr_new").is_some());
    assert_eq!(store.get_stats().total_cached, 3);
    let order: Vec<String> = store.search_users("").into_iter().map(|u| u.id.clone()).collect();
    assert_eq!(order, vec!["usr_me".to_string(), "usr_friend".to_string(), "usr_new".to_string()]);
}

#[test]
fn eviction_with_a_zero_age_drops_every_stranger() {
    let mut store = UserStore::new();
    store.cache_full_user(user("usr_a", "A", ""), 10);
    store.upsert_friend(friend("usr_f", "F"), 10);
    store.remove_stale(0, 10);
    assert!(store.get_cached_user("usr_a").is_none());
    assert!(store.get_cached_user("usr_f").is_some());
}
