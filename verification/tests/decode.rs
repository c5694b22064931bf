use vrc_one::json::{parse_json, Json};
use vrc_one::vrchat_api::types::{DeveloperType, UserStatus};
use vrc_one::websocket::decode::{decode_value, DecodeFault, Payload};
use vrc_one::websocket::message::{
    decode_content, decode_envelope, decode_message, DecodeError, EventKind, WebSocketMessage,
};
use vrc_one::websocket::types::{
    FriendActiveContent, FriendLocationContent, FriendOnlineContent, ModifiedImageUpdateContent,
    NotificationPayload, NotificationV2Payload, NotificationV2UpdatePayload,
};

const FRIEND: &str = r#"{"id":"usr_a","displayName":"Alice","bio":"hi","tags":["t1","t2"],"status":"join me","platform":"android","location":"wrld_1","developerType":"trusted","isFriend":true,"extraField":42}"#;

fn quoted(text: &str) -> String {
    let mut out = String::from("\"");
    for c in text.chars() {
        match c {
            '"' => out.push_str("\\\""),
            '\\' => out.push_str("\\\\"),
            other => out.push(other),
        }
    }
    out.push('"');
    out
}

fn envelope(kind: &str, content: &str) -> String {
    format!("{{\"type\":\"{}\",\"content\":{}}}", kind, content)
}

#[test]
fn parse_json_reads_documents() {
    let doc = parse_json(r#"{"b":[1,2.5,"x",null,true],"a":{"n":-7}}"#).unwrap();
    let Json::Object(members) = &doc else { panic!("an object") };
    let keys: Vec<&str> = members.iter().map(|m| m.0.as_str()).collect();
    assert_eq!(keys, vec!["a", "b"]);
    let Some(Json::Array(items)) = doc.get("b") else { panic!("an array") };
    assert_eq!(items.len(), 5);
    let Json::Number(one) = &items[0] else { panic!("a number") };
    assert_eq!(one.int, Some(1));
    assert_eq!(one.text, "1");
    let Json::Number(half) = &items[1] else { panic!("a number") };
    assert_eq!(half.int, None);
    assert_eq!(half.text, "2.5");
    assert_eq!(items[2], Json::Str("x".to_string()));
    assert_eq!(items[3], Json::Null);
    assert_eq!(items[4], Json::Bool(true));
    let inner = doc.get("a").unwrap();
    let Some(Json::Number(n)) = inner.get("n") else { panic!("a number") };
    assert_eq!(n.int, Some(-7));
    assert!(doc.get("missing").is_none());
    assert!(items[0].get("a").is_none());
    assert_eq!(doc.clone(), doc);
}

#[test]
fn parse_json_reports_the_parsers_message() {
    let err = parse_json("{\"a\":").unwrap_err();
    assert_eq!(err, "EOF while parsing a value at line 1 column 5");
    assert!(parse_json("").is_err());
    assert!(parse_json("nul").is_err());
}

#[test]
fn a_number_beyond_i64_has_no_integer() {
    let doc = parse_json("[18446744073709551615, 9223372036854775807]").unwrap();
    let Json::Array(items) = doc else { panic!("an array") };
    let Json::Number(big) = &items[0] else { panic!("a number") };
    assert_eq!(big.int, None);
    assert_eq!(big.text, "18446744073709551615");
    let Json::Number(max) = &items[1] else { panic!("a number") };
    assert_eq!(max.int, Some(i64::MAX));
}

#[test]
fn an_unknown_type_is_no_error() {
    let message = decode_message(r#"{"type":"something-new","content":{"a":1}}"#).unwrap();
    assert!(matches!(message, WebSocketMessage::Unknown));
    let message = decode_message(r#"{"type":"something-new"}"#).unwrap();
    assert!(matches!(message, WebSocketMessage::Unknown));
    let message = decode_message(r#"{"type":"","content":"text"}"#).unwrap();
    assert!(matches!(message, WebSocketMessage::Unknown));
    let message = decode_message(r#"{"type":"Friend-Add","content":null}"#).unwrap();
    assert!(matches!(message, WebSocketMessage::Unknown));
}

#[test]
fn a_frame_that_is_no_json_fails_with_the_parsers_message() {
    let err = decode_message("not json").unwrap_err();
    assert_eq!(err, DecodeError::Syntax("expected ident at line 1 column 2".to_string()));
}

#[test]
fn a_frame_that_is_no_envelope_fails() {
    assert_eq!(
        decode_message("[1,2]").unwrap_err(),
        DecodeError::Envelope(DecodeFault::NotAnObject)
    );
    assert_eq!(
        decode_message(r#"{"content":{}}"#).unwrap_err(),
        DecodeError::Envelope(DecodeFault::MissingField("type"))
    );
    assert_eq!(
        decode_message(r#"{"type":7,"content":{}}"#).unwrap_err(),
        DecodeError::Envelope(DecodeFault::InvalidField("type"))
    );
}

#[test]
fn single_and_double_encoding_decode_alike() {
    let content = format!("{{\"userId\":\"usr_a\",\"user\":{}}}", FRIEND);
    let single = decode_message(&envelope("friend-add", &content)).unwrap();
    let double = decode_message(&envelope("friend-add", &quoted(&content))).unwrap();
    let (WebSocketMessage::FriendAdd(a), WebSocketMessage::FriendAdd(b)) = (single, double) else {
        panic!("two friend-add events")
    };
    let a = a.into_inner();
    let b = b.into_inner();
    assert_eq!(a.user_id, "usr_a");
    assert_eq!(b.user_id, "usr_a");
    assert_eq!(format!("{:?}", a), format!("{:?}", b));
    assert_eq!(a.user.display_name, "Alice");
    assert_eq!(a.user.bio, "hi");
    assert_eq!(a.user.tags, vec!["t1".to_string(), "t2".to_string()]);
    assert_eq!(a.user.status, UserStatus::JoinMe);
    assert_eq!(a.user.developer_type, DeveloperType::Trusted);
    assert_eq!(a.user.platform, "android");
    assert_eq!(a.user.location, Some("wrld_1".to_string()));
    assert!(a.user.is_friend);
    assert_eq!(a.user.friend_key, None);
    assert!(a.user.bio_links.is_empty());
}

#[test]
fn every_record_kind_takes_both_encodings() {
    let cases: Vec<(&str, String)> = vec![
        ("notification", r#"{"id":"not_1","type":"invite","seen":false}"#.to_string()),
        (
            "response-notification",
            r#"{"notificationId":"n","receiverId":"r","responseId":"x"}"#.to_string(),
        ),
        (
            "notification-v2",
            r#"{"id":"n","version":2,"type":"t","category":"c","isSystem":true,"ignoreDnd":false,"receiverUserId":"usr_me"}"#.to_string(),
        ),
        ("notification-v2-update", r#"{"id":"n","version":2,"updates":{"seen":true}}"#.to_string()),
        ("notification-v2-delete", r#"{"ids":["a","b"],"version":2}"#.to_string()),
        ("friend-add", format!("{{\"userId\":\"usr_a\",\"user\":{}}}", FRIEND)),
        ("friend-delete", r#"{"userId":"usr_a"}"#.to_string()),
        ("friend-update", format!("{{\"userId\":\"usr_a\",\"user\":{}}}", FRIEND)),
        ("friend-online", format!("{{\"userId\":\"usr_a\",\"location\":\"wrld_1\",\"user\":{}}}", FRIEND)),
        ("friend-active", format!("{{\"userid\":\"usr_a\",\"user\":{}}}", FRIEND)),
        ("friend-offline", r#"{"userId":"usr_a"}"#.to_string()),
        ("friend-location", r#"{"userId":"usr_a","location":"wrld_2"}"#.to_string()),
        (
            "user-update",
            r#"{"userId":"usr_me","user":{"id":"usr_me","displayName":"Me","username":"me"}}"#.to_string(),
        ),
        ("user-location", r#"{"userId":"usr_me","location":"wrld_2"}"#.to_string()),
        ("user-badge-assigned", r#"{"badge":{"badgeId":"bdg_1","shiny":true}}"#.to_string()),
        ("user-badge-unassigned", r#"{"badgeId":"bdg_1"}"#.to_string()),
        ("content-refresh", r#"{"contentType":"avatar","actionType":"created"}"#.to_string()),
        (
            "modified-image-update",
            r#"{"fileId":"file_1","pixelSize":256,"versionNumber":3,"needsProcessing":false}"#.to_string(),
        ),
        ("instance-queue-joined", r#"{"instanceLocation":"wrld_1:1","position":4}"#.to_string()),
        ("instance-queue-ready", r#"{"instanceLocation":"wrld_1:1","expiry":"soon"}"#.to_string()),
        ("group-joined", r#"{"groupId":"grp_1"}"#.to_string()),
        ("group-left", r#"{"groupId":"grp_1"}"#.to_string()),
        ("group-member-updated", r#"{"member":{"id":"gmem_1","roleIds":[]}}"#.to_string()),
        ("group-role-updated", r#"{"role":{"id":"grol_1"}}"#.to_string()),
    ];
    for (kind, content) in cases {
        let single = decode_message(&envelope(kind, &content));
        let double = decode_message(&envelope(kind, &quoted(&content)));
        assert!(single.is_ok(), "{}: {:?}", kind, single);
        assert_eq!(format!("{:?}", single), format!("{:?}", double), "{}", kind);
    }
}

#[test]
fn a_string_content_is_taken_as_it_is() {
    let seen = decode_message(r#"{"type":"see-notification","content":"not_1"}"#).unwrap();
    let WebSocketMessage::SeeNotification(id) = seen else { panic!("see-notification") };
    assert_eq!(id.as_inner(), "not_1");
    let hidden = decode_message(r#"{"type":"hide-notification","content":"\"not_1\""}"#).unwrap();
    let WebSocketMessage::HideNotification(id) = hidden else { panic!("hide-notification") };
    assert_eq!(id.into_inner(), "\"not_1\"");
    assert_eq!(
        decode_message(r#"{"type":"see-notification","content":{"id":"x"}}"#).unwrap_err(),
        DecodeError::Payload { kind: EventKind::SeeNotification, fault: DecodeFault::NotAString }
    );
}

#[test]
fn clearing_notifications_takes_no_content() {
    assert!(matches!(
        decode_message(r#"{"type":"clear-notification"}"#).unwrap(),
        WebSocketMessage::ClearNotification
    ));
    assert!(matches!(
        decode_message(r#"{"type":"clear-notification","content":null}"#).unwrap(),
        WebSocketMessage::ClearNotification
    ));
    assert_eq!(
        decode_message(r#"{"type":"clear-notification","content":{}}"#).unwrap_err(),
        DecodeError::Payload { kind: EventKind::ClearNotification, fault: DecodeFault::NotEmpty }
    );
}

#[test]
fn a_missing_content_fails_a_kind_with_a_record() {
    assert_eq!(
        decode_message(r#"{"type":"friend-delete"}"#).unwrap_err(),
        DecodeError::Payload {
            kind: EventKind::FriendDelete,
            fault: DecodeFault::MissingField("content")
        }
    );
}

#[test]
fn the_first_bad_member_names_the_fault() {
    assert_eq!(
        decode_message(r#"{"type":"friend-delete","content":{"user":"x"}}"#).unwrap_err(),
        DecodeError::Payload {
            kind: EventKind::FriendDelete,
            fault: DecodeFault::MissingField("userId")
        }
    );
    assert_eq!(
        decode_message(r#"{"type":"friend-delete","content":{"userId":5}}"#).unwrap_err(),
        DecodeError::Payload {
            kind: EventKind::FriendDelete,
            fault: DecodeFault::InvalidField("userId")
        }
    );
    assert_eq!(
        decode_message(r#"{"type":"friend-delete","content":[1]}"#).unwrap_err(),
        DecodeError::Payload { kind: EventKind::FriendDelete, fault: DecodeFault::NotAnObject }
    );
    assert_eq!(
        decode_message(
            r#"{"type":"friend-add","content":{"userId":"usr_a","user":{"id":"usr_a","displayName":"A","status":"sleeping"}}}"#
        )
        .unwrap_err(),
        DecodeError::Payload {
            kind: EventKind::FriendAdd,
            fault: DecodeFault::InvalidField("status")
        }
    );
    assert_eq!(
        decode_message(
            r#"{"type":"friend-add","content":{"userId":"usr_a","user":{"id":"usr_a","displayName":"A","bio":null}}}"#
        )
        .unwrap_err(),
        DecodeError::Payload { kind: EventKind::FriendAdd, fault: DecodeFault::InvalidField("bio") }
    );
    assert_eq!(
        decode_message(
            r#"{"type":"friend-add","content":{"userId":"usr_a","user":{"id":"usr_a","displayName":"A","tags":["a",1]}}}"#
        )
        .unwrap_err(),
        DecodeError::Payload { kind: EventKind::FriendAdd, fault: DecodeFault::InvalidField("tags") }
    );
}

#[test]
fn a_string_that_holds_no_record_fails_with_the_first_fault() {
    assert_eq!(
        decode_message(r#"{"type":"friend-delete","content":"not json at all"}"#).unwrap_err(),
        DecodeError::Payload { kind: EventKind::FriendDelete, fault: DecodeFault::NotAnObject }
    );
    assert_eq!(
        decode_message(r#"{"type":"friend-delete","content":"{\"userId\":5}"}"#).unwrap_err(),
        DecodeError::Payload {
            kind: EventKind::FriendDelete,
            fault: DecodeFault::InvalidField("userId")
        }
    );
    assert_eq!(
        decode_message(r#"{"type":"friend-delete","content":"[]"}"#).unwrap_err(),
        DecodeError::Payload { kind: EventKind::FriendDelete, fault: DecodeFault::NotAnObject }
    );
}

#[test]
fn optional_members_may_be_missing_or_null() {
    let doc = parse_json(
        r#"{"userId":"usr_a","platform":null,"canRequestInvite":true,"unknown":[1],"user":{"id":"usr_a","displayName":"A"}}"#,
    )
    .unwrap();
    let content = FriendOnlineContent::decode(&doc).unwrap();
    assert_eq!(content.user_id, "usr_a");
    assert_eq!(content.platform, None);
    assert_eq!(content.location, None);
    assert_eq!(content.can_request_invite, Some(true));
    assert_eq!(content.user.bio, "");
    assert_eq!(content.user.status, UserStatus::Offline);
    assert_eq!(content.user.developer_type, DeveloperType::Normal);
    assert!(!content.user.is_friend);
    assert!(content.user.tags.is_empty());
    assert_eq!(content.user.platform, "");
}

#[test]
fn a_friend_location_may_come_without_the_friend() {
    let doc = parse_json(r#"{"userId":"usr_a","location":"wrld_2","worldId":"wrld_2"}"#).unwrap();
    let content: FriendLocationContent = decode_value(&doc).unwrap();
    assert_eq!(content.location, "wrld_2");
    assert_eq!(content.world_id, Some("wrld_2".to_string()));
    assert!(content.user.is_none());
    let doc = parse_json(r#"{"userId":"usr_a","location":"wrld_2","user":null}"#).unwrap();
    let content: FriendLocationContent = decode_value(&doc).unwrap();
    assert!(content.user.is_none());
    let doc = parse_json(r#"{"userId":"usr_a","location":"wrld_2","user":{"id":"usr_a"}}"#).unwrap();
    assert_eq!(
        decode_value::<FriendLocationContent>(&doc).unwrap_err(),
        DecodeFault::MissingField("displayName")
    );
}

#[test]
fn the_active_friend_comes_under_two_spellings() {
    let lower = parse_json(&format!("{{\"userid\":\"usr_a\",\"user\":{}}}", FRIEND)).unwrap();
    assert_eq!(FriendActiveContent::decode(&lower).unwrap().user_id, "usr_a");
    let camel = parse_json(&format!("{{\"userId\":\"usr_b\",\"user\":{}}}", FRIEND)).unwrap();
    assert_eq!(FriendActiveContent::decode(&camel).unwrap().user_id, "usr_b");
    let both =
        parse_json(&format!("{{\"userid\":\"a\",\"userId\":\"b\",\"user\":{}}}", FRIEND)).unwrap();
    assert_eq!(
        FriendActiveContent::decode(&both).unwrap_err(),
        DecodeFault::DuplicateField("userid")
    );
    let neither = parse_json(&format!("{{\"user\":{}}}", FRIEND)).unwrap();
    assert_eq!(
        FriendActiveContent::decode(&neither).unwrap_err(),
        DecodeFault::MissingField("userid")
    );
    let wrong = parse_json(&format!("{{\"userid\":1,\"user\":{}}}", FRIEND)).unwrap();
    assert_eq!(
        FriendActiveContent::decode(&wrong).unwrap_err(),
        DecodeFault::InvalidField("userid")
    );
}

#[test]
fn integers_must_fit() {
    let doc = parse_json(
        r#"{"fileId":"f","pixelSize":9007199254740993,"versionNumber":-1,"needsProcessing":true}"#,
    )
    .unwrap();
    let content = ModifiedImageUpdateContent::decode(&doc).unwrap();
    assert_eq!(content.pixel_size, 9007199254740993);
    assert_eq!(content.version_number, -1);
    assert!(content.needs_processing);
    let doc = parse_json(
        r#"{"fileId":"f","pixelSize":1.5,"versionNumber":1,"needsProcessing":true}"#,
    )
    .unwrap();
    assert_eq!(
        ModifiedImageUpdateContent::decode(&doc).unwrap_err(),
        DecodeFault::InvalidField("pixelSize")
    );
    let doc = parse_json(r#"{"id":"n","version":2147483647}"#).unwrap();
    assert_eq!(NotificationV2UpdatePayload::decode(&doc).unwrap().version, i32::MAX);
    let doc = parse_json(r#"{"id":"n","version":-2147483648}"#).unwrap();
    assert_eq!(NotificationV2UpdatePayload::decode(&doc).unwrap().version, i32::MIN);
    let doc = parse_json(r#"{"id":"n","version":2147483648}"#).unwrap();
    assert_eq!(
        NotificationV2UpdatePayload::decode(&doc).unwrap_err(),
        DecodeFault::InvalidField("version")
    );
    let doc = parse_json(r#"{"id":"n"}"#).unwrap();
    assert_eq!(
        NotificationV2UpdatePayload::decode(&doc).unwrap_err(),
        DecodeFault::MissingField("version")
    );
    let doc = parse_json(r#"{"id":"n","version":1,"updates":[1]}"#).unwrap();
    assert_eq!(
        NotificationV2UpdatePayload::decode(&doc).unwrap_err(),
        DecodeFault::InvalidField("updates")
    );
}

#[test]
fn members_without_a_field_are_kept_aside() {
    let doc = parse_json(
        r#"{"id":"not_1","type":"invite","details":{"worldId":"wrld_1"},"zeta":1,"alpha":"a","seen":true}"#,
    )
    .unwrap();
    let note = NotificationPayload::decode(&doc).unwrap();
    assert_eq!(note.id, Some("not_1".to_string()));
    assert_eq!(note.kind, Some("invite".to_string()));
    assert_eq!(note.seen, Some(true));
    assert!(matches!(note.details, Some(Json::Object(_))));
    let extra: Vec<&str> = note.extra.iter().map(|m| m.0.as_str()).collect();
    assert_eq!(extra, vec!["alpha", "zeta"]);
    assert_eq!(note.extra[0].1, Json::Str("a".to_string()));
    let empty = NotificationPayload::decode(&parse_json("{}").unwrap()).unwrap();
    assert_eq!(empty.id, None);
    assert!(empty.extra.is_empty());
    assert!(empty.details.is_none());
}

#[test]
fn a_notification_of_the_second_generation_lists_its_responses() {
    let doc = parse_json(
        r#"{"id":"n","version":2,"type":"group.invite","category":"social","isSystem":false,"ignoreDnd":true,"receiverUserId":"usr_me","responses":[{"type":"accept","text":"Join"},{"icon":"x","more":1}],"title":"T"}"#,
    )
    .unwrap();
    let note = NotificationV2Payload::decode(&doc).unwrap();
    assert_eq!(note.kind, "group.invite");
    assert!(note.ignore_dnd);
    assert!(!note.is_system);
    assert_eq!(note.title, Some("T".to_string()));
    assert_eq!(note.responses.len(), 2);
    assert_eq!(note.responses[0].kind, Some("accept".to_string()));
    assert_eq!(note.responses[0].text, Some("Join".to_string()));
    assert_eq!(note.responses[1].icon, Some("x".to_string()));
    assert_eq!(note.responses[1].extra.len(), 1);
    assert!(note.extra.is_empty());
    let doc = parse_json(
        r#"{"id":"n","version":2,"type":"t","category":"c","isSystem":false,"ignoreDnd":true,"receiverUserId":"usr_me","responses":[{"type":"accept"},7]}"#,
    )
    .unwrap();
    assert_eq!(NotificationV2Payload::decode(&doc).unwrap_err(), DecodeFault::NotAnObject);
    let doc = parse_json(
        r#"{"id":"n","version":2,"type":"t","category":"c","isSystem":"no","ignoreDnd":true,"receiverUserId":"usr_me"}"#,
    )
    .unwrap();
    assert_eq!(
        NotificationV2Payload::decode(&doc).unwrap_err(),
        DecodeFault::InvalidField("isSystem")
    );
}

#[test]
fn decode_envelope_takes_a_parsed_document() {
    let doc = parse_json(r#"{"content":{"groupId":"grp_1"},"type":"group-left","more":1}"#).unwrap();
    let WebSocketMessage::GroupLeft(content) = decode_envelope(&doc).unwrap() else {
        panic!("group-left")
    };
    assert_eq!(content.as_inner().group_id, "grp_1");
}

#[test]
fn decode_content_goes_by_the_kind() {
    let doc = parse_json(r#"{"groupId":"grp_1"}"#).unwrap();
    assert!(matches!(
        decode_content(EventKind::GroupJoined, Some(&doc)).unwrap(),
        WebSocketMessage::GroupJoined(_)
    ));
    assert_eq!(
        decode_content(EventKind::FriendOffline, Some(&doc)).unwrap_err(),
        DecodeFault::MissingField("userId")
    );
    assert_eq!(
        decode_content(EventKind::GroupJoined, None).unwrap_err(),
        DecodeFault::MissingField("content")
    );
}

#[test]
fn every_kind_is_found_by_its_tag() {
    let tags = [
        ("notification", EventKind::Notification),
        ("response-notification", EventKind::ResponseNotification),
        ("see-notification", EventKind::SeeNotification),
        ("hide-notification", EventKind::HideNotification),
        ("clear-notification", EventKind::ClearNotification),
        ("notification-v2", EventKind::NotificationV2),
        ("notification-v2-update", EventKind::NotificationV2Update),
        ("notification-v2-delete", EventKind::NotificationV2Delete),
        ("friend-add", EventKind::FriendAdd),
        ("friend-delete", EventKind::FriendDelete),
        ("friend-update", EventKind::FriendUpdate),
        ("friend-online", EventKind::FriendOnline),
        ("friend-active", EventKind::FriendActive),
        ("friend-offline", EventKind::FriendOffline),
        ("friend-location", EventKind::FriendLocation),
        ("user-update", EventKind::UserUpdate),
        ("user-location", EventKind::UserLocation),
        ("user-badge-assigned", EventKind::UserBadgeAssigned),
        ("user-badge-unassigned", EventKind::UserBadgeUnassigned),
        ("content-refresh", EventKind::ContentRefresh),
        ("modified-image-update", EventKind::ModifiedImageUpdate),
        ("instance-queue-joined", EventKind::InstanceQueueJoined),
        ("instance-queue-ready", EventKind::InstanceQueueReady),
        ("group-joined", EventKind::GroupJoined),
        ("group-left", EventKind::GroupLeft),
        ("group-member-updated", EventKind::GroupMemberUpdated),
        ("group-role-updated", EventKind::GroupRoleUpdated),
    ];
    for (tag, kind) in tags {
        assert_eq!(EventKind::from_tag(tag), Some(kind));
    }
    assert_eq!(EventKind::from_tag("friend"), None);
    assert_eq!(EventKind::from_tag(""), None);
}
