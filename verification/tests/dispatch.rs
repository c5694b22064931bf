use vrc_one::store::user_store::{UserRelationship, UserStore};
use vrc_one::vrchat_api::types::UserStatus;
use vrc_one::websocket::dispatch::{dispatch, handle_message, Notification};
use vrc_one::websocket::message::{decode_message, DecodeError, EventKind};
use vrc_one::websocket::decode::DecodeFault;

fn friend_json(id: &str, name: &str) -> String {
    format!("{{\"id\":\"{}\",\"displayName\":\"{}\",\"status\":\"active\",\"platform\":\"standalonewindows\"}}", id, name)
}

fn frame(kind: &str, content: &str) -> String {
    format!("{{\"type\":\"{}\",\"content\":{}}}", kind, content)
}

fn names(notes: &[Notification]) -> Vec<&'static str> {
    notes.iter().map(|n| n.name()).collect()
}

#[test]
fn the_last_event_wins() {
    let mut store = UserStore::new();
    let online = frame(
        "friend-online",
        &format!("{{\"userId\":\"usr_a\",\"location\":\"wrld_1\",\"user\":{}}}", friend_json("usr_a", "A")),
    );
    let offline = frame("friend-offline", "{\"userId\":\"usr_a\"}");
    let moved = frame("friend-location", "{\"userId\":\"usr_a\",\"location\":\"wrld_2\"}");

    handle_message(&online, &mut store, 1).unwrap();
    assert_eq!(store.get_user("usr_a").unwrap().location, Some("wrld_1".to_string()));
    assert!(store.is_user_online("usr_a"));
    handle_message(&offline, &mut store, 2).unwrap();
    assert_eq!(store.get_user("usr_a").unwrap().location, Some("offline".to_string()));
    assert!(!store.is_user_online("usr_a"));
    handle_message(&moved, &mut store, 3).unwrap();
    assert_eq!(store.get_user("usr_a").unwrap().location, Some("wrld_2".to_string()));
    assert!(store.is_user_online("usr_a"));
    assert!(store.is_friend("usr_a"));
}

#[test]
fn the_order_of_events_matters() {
    let mut store = UserStore::new();
    let online = frame(
        "friend-online",
        &format!("{{\"userId\":\"usr_a\",\"location\":\"wrld_1\",\"user\":{}}}", friend_json("usr_a", "A")),
    );
    let offline = frame("friend-offline", "{\"userId\":\"usr_a\"}");
    let moved = frame("friend-location", "{\"userId\":\"usr_a\",\"location\":\"wrld_2\"}");
    handle_message(&online, &mut store, 1).unwrap();
    handle_message(&moved, &mut store, 2).unwrap();
    handle_message(&offline, &mut store, 3).unwrap();
    assert_eq!(store.get_user("usr_a").unwrap().location, Some("offline".to_string()));
    assert!(!store.is_user_online("usr_a"));
}

#[test]
fn a_new_friend_is_told_twice() {
    let mut store = UserStore::new();
    let text = frame(
        "friend-add",
        &format!("{{\"userId\":\"usr_a\",\"user\":{}}}", friend_json("usr_a", "A")),
    );
    let notes = handle_message(&text, &mut store, 1).unwrap();
    assert_eq!(names(&notes), vec!["friend-added", "friend-update"]);
    let (Notification::FriendAdded(added), Notification::FriendUpdate(updated)) =
        (&notes[0], &notes[1])
    else {
        panic!("added and updated")
    };
    assert_eq!(added.user_id, "usr_a");
    assert_eq!(updated.user_id, "usr_a");
    assert_eq!(added.user.display_name, "A");
    assert_eq!(updated.user.display_name, "A");
    assert!(store.is_friend("usr_a"));
}

#[test]
fn an_active_friend_is_told_as_active_and_online() {
    let mut store = UserStore::new();
    let text = frame(
        "friend-active",
        &format!("{{\"userid\":\"usr_a\",\"platform\":\"web\",\"user\":{}}}", friend_json("usr_a", "A")),
    );
    let notes = handle_message(&text, &mut store, 1).unwrap();
    assert_eq!(names(&notes), vec!["friend-active", "friend-online"]);
    assert!(store.is_friend("usr_a"));
    assert_eq!(store.get_cached_user("usr_a").unwrap().status, Some(UserStatus::Active));
}

#[test]
fn a_removed_friend_is_demoted_and_told() {
    let mut store = UserStore::new();
    let add = frame(
        "friend-add",
        &format!("{{\"userId\":\"usr_a\",\"user\":{}}}", friend_json("usr_a", "A")),
    );
    handle_message(&add, &mut store, 1).unwrap();
    let notes =
        handle_message(&frame("friend-delete", "{\"userId\":\"usr_a\"}"), &mut store, 2).unwrap();
    assert_eq!(names(&notes), vec!["friend-removed"]);
    let entry = store.get_cached_user("usr_a").unwrap();
    assert_eq!(entry.relationship, UserRelationship::Known);
    assert!(entry.friend_data.is_none());
}

#[test]
fn going_online_without_location_keeps_the_friends_own() {
    let mut store = UserStore::new();
    let text = frame(
        "friend-online",
        "{\"userId\":\"usr_a\",\"platform\":\"android\",\"user\":{\"id\":\"usr_a\",\"displayName\":\"A\",\"location\":\"private\",\"platform\":\"web\"}}",
    );
    let notes = handle_message(&text, &mut store, 1).unwrap();
    assert_eq!(names(&notes), vec!["friend-online"]);
    let data = store.get_user("usr_a").unwrap();
    assert_eq!(data.location, Some("private".to_string()));
    assert_eq!(data.platform, "web");
}

#[test]
fn going_online_with_location_takes_the_events_platform() {
    let mut store = UserStore::new();
    let text = frame(
        "friend-online",
        "{\"userId\":\"usr_a\",\"platform\":\"android\",\"location\":\"wrld_1\",\"user\":{\"id\":\"usr_a\",\"displayName\":\"A\",\"location\":\"private\",\"platform\":\"web\"}}",
    );
    handle_message(&text, &mut store, 1).unwrap();
    let data = store.get_user("usr_a").unwrap();
    assert_eq!(data.location, Some("wrld_1".to_string()));
    assert_eq!(data.platform, "android");
}

#[test]
fn a_location_with_a_friend_record_merges_the_record_first() {
    let mut store = UserStore::new();
    let text = frame(
        "friend-location",
        "{\"userId\":\"usr_a\",\"location\":\"wrld_5\",\"user\":{\"id\":\"usr_a\",\"displayName\":\"A\",\"location\":\"traveling\",\"platform\":\"android\"}}",
    );
    let notes = handle_message(&text, &mut store, 1).unwrap();
    assert_eq!(names(&notes), vec!["friend-location"]);
    assert!(store.is_friend("usr_a"));
    let data = store.get_user("usr_a").unwrap();
    assert_eq!(data.location, Some("wrld_5".to_string()));
    assert_eq!(data.platform, "android");
}

#[test]
fn a_location_of_a_stranger_changes_nothing() {
    let mut store = UserStore::new();
    let notes = handle_message(
        &frame("friend-location", "{\"userId\":\"usr_x\",\"location\":\"wrld_5\"}"),
        &mut store,
        1,
    )
    .unwrap();
    assert_eq!(names(&notes), vec!["friend-location"]);
    assert_eq!(store.get_stats().total_cached, 0);
}

#[test]
fn a_user_update_patches_the_current_user() {
    let mut store = UserStore::new();
    let text = frame(
        "user-update",
        "{\"userId\":\"usr_me\",\"user\":{\"id\":\"usr_me\",\"displayName\":\"Me\",\"username\":\"me\",\"status\":\"busy\",\"bio\":\"b\",\"tags\":[\"x\"],\"profilePicOverrideThumbnailImageUrl\":\"thumb\"}}",
    );
    let notes = handle_message(&text, &mut store, 4).unwrap();
    assert_eq!(names(&notes), vec!["user-update"]);
    assert_eq!(store.get_current_user_id(), Some(&"usr_me".to_string()));
    let entry = store.get_cached_user("usr_me").unwrap();
    assert_eq!(entry.relationship, UserRelationship::CurrentUser);
    assert_eq!(entry.status, Some(UserStatus::Busy));
    assert_eq!(entry.username, Some("me".to_string()));
    assert_eq!(entry.profile_pic_override_thumbnail, Some("thumb".to_string()));
    assert_eq!(entry.last_updated, 4);
}

#[test]
fn the_current_users_location_reaches_their_entry() {
    let mut store = UserStore::new();
    handle_message(
        &frame(
            "user-update",
            "{\"userId\":\"usr_me\",\"user\":{\"id\":\"usr_me\",\"displayName\":\"Me\",\"username\":\"me\"}}",
        ),
        &mut store,
        1,
    )
    .unwrap();
    let notes = handle_message(
        &frame("user-location", "{\"userId\":\"usr_me\",\"location\":\"wrld_7\"}"),
        &mut store,
        2,
    )
    .unwrap();
    assert_eq!(names(&notes), vec!["user-location"]);
    let entry = store.get_cached_user("usr_me").unwrap();
    assert_eq!(entry.location, Some("wrld_7".to_string()));
    assert_eq!(entry.relationship, UserRelationship::CurrentUser);
    assert!(store.is_user_online("usr_me"));
}

#[test]
fn events_outside_the_cache_are_only_told() {
    let cases = [
        ("notification", "{\"id\":\"n\"}", "vrchat-notification"),
        (
            "response-notification",
            "{\"notificationId\":\"n\",\"receiverId\":\"r\",\"responseId\":\"x\"}",
            "vrchat-notification-response",
        ),
        ("see-notification", "\"n\"", "vrchat-notification-see"),
        ("hide-notification", "\"n\"", "vrchat-notification-hide"),
        ("clear-notification", "null", "vrchat-notification-clear"),
        (
            "notification-v2",
            "{\"id\":\"n\",\"version\":2,\"type\":\"t\",\"category\":\"c\",\"isSystem\":true,\"ignoreDnd\":false,\"receiverUserId\":\"usr_me\"}",
            "vrchat-notification-v2",
        ),
        ("notification-v2-update", "{\"id\":\"n\",\"version\":2}", "vrchat-notification-v2-update"),
        ("notification-v2-delete", "{\"version\":2}", "vrchat-notification-v2-delete"),
        ("user-badge-assigned", "{\"badge\":{\"badgeId\":\"b\"}}", "user-badge-assigned"),
        ("user-badge-unassigned", "{\"badgeId\":\"b\"}", "user-badge-unassigned"),
        ("content-refresh", "{\"contentType\":\"world\"}", "content-refresh"),
        (
            "modified-image-update",
            "{\"fileId\":\"f\",\"pixelSize\":1,\"versionNumber\":1,\"needsProcessing\":false}",
            "modified-image-update",
        ),
        ("instance-queue-joined", "{\"instanceLocation\":\"i\",\"position\":1}", "instance-queue-joined"),
        ("instance-queue-ready", "{\"instanceLocation\":\"i\",\"expiry\":\"e\"}", "instance-queue-ready"),
        ("group-joined", "{\"groupId\":\"g\"}", "group-joined"),
        ("group-left", "{\"groupId\":\"g\"}", "group-left"),
        ("group-member-updated", "{\"member\":{}}", "group-member-updated"),
        ("group-role-updated", "{\"role\":null}", "group-role-updated"),
    ];
    for (kind, content, told) in cases {
        let mut store = UserStore::new();
        let notes = handle_message(&frame(kind, content), &mut store, 1).unwrap();
        assert_eq!(names(&notes), vec![told], "{}", kind);
        assert_eq!(store.get_stats().total_cached, 0, "{}", kind);
    }
}

#[test]
fn an_unknown_event_is_dropped_in_silence() {
    let mut store = UserStore::new();
    let notes = handle_message("{\"type\":\"brand-new\",\"content\":[1,2,3]}", &mut store, 1).unwrap();
    assert!(notes.is_empty());
    assert_eq!(store.get_stats().total_cached, 0);
}

#[test]
fn a_frame_that_does_not_decode_changes_nothing() {
    let mut store = UserStore::new();
    let add = frame(
        "friend-add",
        &format!("{{\"userId\":\"usr_a\",\"user\":{}}}", friend_json("usr_a", "A")),
    );
    handle_message(&add, &mut store, 1).unwrap();
    let err = handle_message(&frame("friend-offline", "{\"user\":1}"), &mut store, 2).unwrap_err();
    assert_eq!(
        err,
        DecodeError::Payload {
            kind: EventKind::FriendOffline,
            fault: DecodeFault::MissingField("userId")
        }
    );
    assert!(matches!(handle_message("][", &mut store, 3), Err(DecodeError::Syntax(_))));
    let entry = store.get_cached_user("usr_a").unwrap();
    assert_eq!(entry.last_updated, 1);
    assert_eq!(store.get_stats().total_cached, 1);
}

#[test]
fn dispatch_takes_a_decoded_event() {
    let mut store = UserStore::new();
    let message = decode_message(&frame("friend-offline", "{\"userId\":\"usr_a\"}")).unwrap();
    let notes = dispatch(message, &mut store, 1);
    assert_eq!(names(&notes), vec!["friend-offline"]);
    let Notification::FriendOffline(event) = &notes[0] else { panic!("friend-offline") };
    assert_eq!(event.user_id, "usr_a");
}

#[test]
fn the_connection_events_have_their_names() {
    assert_eq!(Notification::Connected.name(), "websocket-connected");
    assert_eq!(Notification::Disconnected.name(), "websocket-disconnected");
    assert_eq!(Notification::NotificationCleared.name(), "vrchat-notification-clear");
}
