//! The records of the pipeline: what each kind of event carries, and what is
//! told outward of it.

use vstd::prelude::*;
use crate::json::{Json, JsonValue};
use crate::views::{view_opt, view_seq};
use crate::vrchat_api::types::user::{LimitedUserFriend, LimitedUserFriendView};
use super::decode::{
    developer_type, document, flag, flag_or_false, integer, integer32, is_object, members,
    opt_document, opt_flag, opt_integer, opt_record, opt_text, record, records, rest,
    spec_developer_type, spec_document, spec_flag, spec_flag_or_false, spec_integer, spec_integer32,
    spec_members, spec_opt_document, spec_opt_flag, spec_opt_integer, spec_opt_record,
    spec_opt_text, spec_record, spec_records, spec_rest, spec_status, spec_text, spec_text_alias,
    spec_text_or_empty, spec_texts, status, text, text_alias, text_or_empty, texts, view_members,
    DecodeFault, DecodeFaultView, Decoded, Payload,
};

verus! {

impl Payload for LimitedUserFriend {
    open spec fn spec_decode(content: JsonValue) -> Decoded<LimitedUserFriendView> {
        if !(content is Object) {
            Err(DecodeFaultView::NotAnObject)
        } else if spec_text(content, "id"@) is Err {
            Err(spec_text(content, "id"@)->Err_0)
        } else if spec_text(content, "displayName"@) is Err {
            Err(spec_text(content, "displayName"@)->Err_0)
        } else if spec_text_or_empty(content, "bio"@) is Err {
            Err(spec_text_or_empty(content, "bio"@)->Err_0)
        } else if spec_texts(content, "bioLinks"@) is Err {
            Err(spec_texts(content, "bioLinks"@)->Err_0)
        } else if spec_opt_text(content, "currentAvatarImageUrl"@) is Err {
            Err(spec_opt_text(content, "currentAvatarImageUrl"@)->Err_0)
        } else if spec_opt_text(content, "currentAvatarThumbnailImageUrl"@) is Err {
            Err(spec_opt_text(content, "currentAvatarThumbnailImageUrl"@)->Err_0)
        } else if spec_texts(content, "currentAvatarTags"@) is Err {
            Err(spec_texts(content, "currentAvatarTags"@)->Err_0)
        } else if spec_developer_type(content, "developerType"@) is Err {
            Err(spec_developer_type(content, "developerType"@)->Err_0)
        } else if spec_opt_text(content, "friendKey"@) is Err {
            Err(spec_opt_text(content, "friendKey"@)->Err_0)
        } else if spec_flag_or_false(content, "isFriend"@) is Err {
            Err(spec_flag_or_false(content, "isFriend"@)->Err_0)
        } else if spec_opt_text(content, "imageUrl"@) is Err {
            Err(spec_opt_text(content, "imageUrl"@)->Err_0)
        } else if spec_opt_text(content, "lastPlatform"@) is Err {
            Err(spec_opt_text(content, "lastPlatform"@)->Err_0)
        } else if spec_opt_text(content, "location"@) is Err {
            Err(spec_opt_text(content, "location"@)->Err_0)
        } else if spec_opt_text(content, "lastLogin"@) is Err {
            Err(spec_opt_text(content, "lastLogin"@)->Err_0)
        } else if spec_opt_text(content, "lastActivity"@) is Err {
            Err(spec_opt_text(content, "lastActivity"@)->Err_0)
        } else if spec_opt_text(content, "lastMobile"@) is Err {
            Err(spec_opt_text(content, "lastMobile"@)->Err_0)
        } else if spec_text_or_empty(content, "platform"@) is Err {
            Err(spec_text_or_empty(content, "platform"@)->Err_0)
        } else if spec_opt_text(content, "profilePicOverride"@) is Err {
            Err(spec_opt_text(content, "profilePicOverride"@)->Err_0)
        } else if spec_opt_text(content, "profilePicOverrideThumbnail"@) is Err {
            Err(spec_opt_text(content, "profilePicOverrideThumbnail"@)->Err_0)
        } else if spec_status(content, "status"@) is Err {
            Err(spec_status(content, "status"@)->Err_0)
        } else if spec_text_or_empty(content, "statusDescription"@) is Err {
            Err(spec_text_or_empty(content, "statusDescription"@)->Err_0)
        } else if spec_texts(content, "tags"@) is Err {
            Err(spec_texts(content, "tags"@)->Err_0)
        } else if spec_opt_text(content, "userIcon"@) is Err {
            Err(spec_opt_text(content, "userIcon"@)->Err_0)
        } else {
            Ok(
                LimitedUserFriendView {
                    id: spec_text(content, "id"@)->Ok_0,
                    display_name: spec_text(content, "displayName"@)->Ok_0,
                    bio: spec_text_or_empty(content, "bio"@)->Ok_0,
                    bio_links: spec_texts(content, "bioLinks"@)->Ok_0,
                    current_avatar_image_url: spec_opt_text(
                        content,
                        "currentAvatarImageUrl"@,
                    )->Ok_0,
                    current_avatar_thumbnail_image_url: spec_opt_text(
                        content,
                        "currentAvatarThumbnailImageUrl"@,
                    )->Ok_0,
                    current_avatar_tags: spec_texts(content, "currentAvatarTags"@)->Ok_0,
                    developer_type: spec_developer_type(content, "developerType"@)->Ok_0,
                    friend_key: spec_opt_text(content, "friendKey"@)->Ok_0,
                    is_friend: spec_flag_or_false(content, "isFriend"@)->Ok_0,
                    image_url: spec_opt_text(content, "imageUrl"@)->Ok_0,
                    last_platform: spec_opt_text(content, "lastPlatform"@)->Ok_0,
                    location: spec_opt_text(content, "location"@)->Ok_0,
                    last_login: spec_opt_text(content, "lastLogin"@)->Ok_0,
                    last_activity: spec_opt_text(content, "lastActivity"@)->Ok_0,
                    last_mobile: spec_opt_text(content, "lastMobile"@)->Ok_0,
                    platform: spec_text_or_empty(content, "platform"@)->Ok_0,
                    profile_pic_override: spec_opt_text(content, "profilePicOverride"@)->Ok_0,
                    profile_pic_override_thumbnail: spec_opt_text(
                        content,
                        "profilePicOverrideThumbnail"@,
                    )->Ok_0,
                    status: spec_status(content, "status"@)->Ok_0,
                    status_description: spec_text_or_empty(content, "statusDescription"@)->Ok_0,
                    tags: spec_texts(content, "tags"@)->Ok_0,
                    user_icon: spec_opt_text(content, "userIcon"@)->Ok_0,
                },
            )
        }
    }

    fn decode(content: &Json) -> (r: Result<Self, DecodeFault>) {
        if !is_object(content) {
            return Err(DecodeFault::NotAnObject);
        }
        let id = text(content, "id")?;
        let display_name = text(content, "displayName")?;
        let bio = text_or_empty(content, "bio")?;
        let bio_links = texts(content, "bioLinks")?;
        let current_avatar_image_url = opt_text(content, "currentAvatarImageUrl")?;
        let current_avatar_thumbnail_image_url = opt_text(
            content,
            "currentAvatarThumbnailImageUrl",
        )?;
        let current_avatar_tags = texts(content, "currentAvatarTags")?;
        let developer_type = developer_type(content, "developerType")?;
        let friend_key = opt_text(content, "friendKey")?;
        let is_friend = flag_or_false(content, "isFriend")?;
        let image_url = opt_text(content, "imageUrl")?;
        let last_platform = opt_text(content, "lastPlatform")?;
        let location = opt_text(content, "location")?;
        let last_login = opt_text(content, "lastLogin")?;
        let last_activity = opt_text(content, "lastActivity")?;
        let last_mobile = opt_text(content, "lastMobile")?;
        let platform = text_or_empty(content, "platform")?;
        let profile_pic_override = opt_text(content, "profilePicOverride")?;
        let profile_pic_override_thumbnail = opt_text(content, "profilePicOverrideThumbnail")?;
        let status = status(content, "status")?;
        let status_description = text_or_empty(content, "statusDescription")?;
        let tags = texts(content, "tags")?;
        let user_icon = opt_text(content, "userIcon")?;
        Ok(
            LimitedUserFriend {
                id,
                display_name,
                bio,
                bio_links,
                current_avatar_image_url,
                current_avatar_thumbnail_image_url,
                current_avatar_tags,
                developer_type,
                friend_key,
                is_friend,
                image_url,
                last_platform,
                location,
                last_login,
                last_activity,
                last_mobile,
                platform,
                profile_pic_override,
                profile_pic_override_thumbnail,
                status,
                status_description,
                tags,
                user_icon,
            },
        )
    }
}

/// A notification of the first generation. Members that the record does not
/// name are kept in `extra`.
#[derive(Debug, Clone)]
pub struct NotificationPayload {
    pub id: Option<String>,
    pub kind: Option<String>,
    pub category: Option<String>,
    pub sender_user_id: Option<String>,
    pub sender_username: Option<String>,
    pub receiver_user_id: Option<String>,
    pub message: Option<String>,
    pub details: Option<Json>,
    pub image_url: Option<String>,
    pub link: Option<String>,
    pub link_text: Option<String>,
    pub seen: Option<bool>,
    pub can_respond: Option<bool>,
    pub expires_at: Option<String>,
    pub expiry_after_seen: Option<i64>,
    pub require_seen: Option<bool>,
    pub hide_after_seen: Option<bool>,
    pub created_at: Option<String>,
    pub updated_at: Option<String>,
    pub extra: Vec<(String, Json)>,
}

/// The mathematical value of a [`NotificationPayload`].
pub struct NotificationPayloadView {
    pub id: Option<Seq<char>>,
    pub kind: Option<Seq<char>>,
    pub category: Option<Seq<char>>,
    pub sender_user_id: Option<Seq<char>>,
    pub sender_username: Option<Seq<char>>,
    pub receiver_user_id: Option<Seq<char>>,
    pub message: Option<Seq<char>>,
    pub details: Option<JsonValue>,
    pub image_url: Option<Seq<char>>,
    pub link: Option<Seq<char>>,
    pub link_text: Option<Seq<char>>,
    pub seen: Option<bool>,
    pub can_respond: Option<bool>,
    pub expires_at: Option<Seq<char>>,
    pub expiry_after_seen: Option<i64>,
    pub require_seen: Option<bool>,
    pub hide_after_seen: Option<bool>,
    pub created_at: Option<Seq<char>>,
    pub updated_at: Option<Seq<char>>,
    pub extra: Seq<(Seq<char>, JsonValue)>,
}

impl View for NotificationPayload {
    type V = NotificationPayloadView;

    open spec fn view(&self) -> NotificationPayloadView {
        NotificationPayloadView {
            id: view_opt(self.id),
            kind: view_opt(self.kind),
            category: view_opt(self.category),
            sender_user_id: view_opt(self.sender_user_id),
            sender_username: view_opt(self.sender_username),
            receiver_user_id: view_opt(self.receiver_user_id),
            message: view_opt(self.message),
            details: view_opt(self.details),
            image_url: view_opt(self.image_url),
            link: view_opt(self.link),
            link_text: view_opt(self.link_text),
            seen: self.seen,
            can_respond: self.can_respond,
            expires_at: view_opt(self.expires_at),
            expiry_after_seen: self.expiry_after_seen,
            require_seen: self.require_seen,
            hide_after_seen: self.hide_after_seen,
            created_at: view_opt(self.created_at),
            updated_at: view_opt(self.updated_at),
            extra: view_members(self.extra@),
        }
    }
}

/// The names of the members that a [`NotificationPayload`] takes for its own
/// fields.
pub open spec fn notification_payload_keys() -> Seq<Seq<char>> {
    seq![
        "id"@,
        "type"@,
        "category"@,
        "senderUserId"@,
        "senderUsername"@,
        "receiverUserId"@,
        "message"@,
        "details"@,
        "imageUrl"@,
        "link"@,
        "linkText"@,
        "seen"@,
        "canRespond"@,
        "expiresAt"@,
        "expiryAfterSeen"@,
        "requireSeen"@,
        "hideAfterSeen"@,
        "createdAt"@,
        "updatedAt"@,
    ]
}

/// The names of the members that a [`NotificationPayload`] takes for its own
/// fields.
pub fn notification_payload_key_list() -> (r: Vec<&'static str>)
    ensures
        view_seq(r@) == notification_payload_keys(),
{
    let r = vec![
        "id",
        "type",
        "category",
        "senderUserId",
        "senderUsername",
        "receiverUserId",
        "message",
        "details",
        "imageUrl",
        "link",
        "linkText",
        "seen",
        "canRespond",
        "expiresAt",
        "expiryAfterSeen",
        "requireSeen",
        "hideAfterSeen",
        "createdAt",
        "updatedAt",
    ];
    assert(view_seq(r@) =~= notification_payload_keys());
    r
}

impl Payload for NotificationPayload {
    open spec fn spec_decode(content: JsonValue) -> Decoded<NotificationPayloadView> {
        if !(content is Object) {
            Err(DecodeFaultView::NotAnObject)
        } else if spec_opt_text(content, "id"@) is Err {
            Err(spec_opt_text(content, "id"@)->Err_0)
        } else if spec_opt_text(content, "type"@) is Err {
            Err(spec_opt_text(content, "type"@)->Err_0)
        } else if spec_opt_text(content, "category"@) is Err {
            Err(spec_opt_text(content, "category"@)->Err_0)
        } else if spec_opt_text(content, "senderUserId"@) is Err {
            Err(spec_opt_text(content, "senderUserId"@)->Err_0)
        } else if spec_opt_text(content, "senderUsername"@) is Err {
            Err(spec_opt_text(content, "senderUsername"@)->Err_0)
        } else if spec_opt_text(content, "receiverUserId"@) is Err {
            Err(spec_opt_text(content, "receiverUserId"@)->Err_0)
        } else if spec_opt_text(content, "message"@) is Err {
            Err(spec_opt_text(content, "message"@)->Err_0)
        } else if spec_opt_document(content, "details"@) is Err {
            Err(spec_opt_document(content, "details"@)->Err_0)
        } else if spec_opt_text(content, "imageUrl"@) is Err {
            Err(spec_opt_text(content, "imageUrl"@)->Err_0)
        } else if spec_opt_text(content, "link"@) is Err {
            Err(spec_opt_text(content, "link"@)->Err_0)
        } else if spec_opt_text(content, "linkText"@) is Err {
            Err(spec_opt_text(content, "linkText"@)->Err_0)
        } else if spec_opt_flag(content, "seen"@) is Err {
            Err(spec_opt_flag(content, "seen"@)->Err_0)
        } else if spec_opt_flag(content, "canRespond"@) is Err {
            Err(spec_opt_flag(content, "canRespond"@)->Err_0)
        } else if spec_opt_text(content, "expiresAt"@) is Err {
            Err(spec_opt_text(content, "expiresAt"@)->Err_0)
        } else if spec_opt_integer(content, "expiryAfterSeen"@) is Err {
            Err(spec_opt_integer(content, "expiryAfterSeen"@)->Err_0)
        } else if spec_opt_flag(content, "requireSeen"@) is Err {
            Err(spec_opt_flag(content, "requireSeen"@)->Err_0)
        } else if spec_opt_flag(content, "hideAfterSeen"@) is Err {
            Err(spec_opt_flag(content, "hideAfterSeen"@)->Err_0)
        } else if spec_opt_text(content, "createdAt"@) is Err {
            Err(spec_opt_text(content, "createdAt"@)->Err_0)
        } else if spec_opt_text(content, "updatedAt"@) is Err {
            Err(spec_opt_text(content, "updatedAt"@)->Err_0)
        } else {
            Ok(
                NotificationPayloadView {
                    id: spec_opt_text(content, "id"@)->Ok_0,
                    kind: spec_opt_text(content, "type"@)->Ok_0,
                    category: spec_opt_text(content, "category"@)->Ok_0,
                    sender_user_id: spec_opt_text(content, "senderUserId"@)->Ok_0,
                    sender_username: spec_opt_text(content, "senderUsername"@)->Ok_0,
                    receiver_user_id: spec_opt_text(content, "receiverUserId"@)->Ok_0,
                    message: spec_opt_text(content, "message"@)->Ok_0,
                    details: spec_opt_document(content, "details"@)->Ok_0,
                    image_url: spec_opt_text(content, "imageUrl"@)->Ok_0,
                    link: spec_opt_text(content, "link"@)->Ok_0,
                    link_text: spec_opt_text(content, "linkText"@)->Ok_0,
                    seen: spec_opt_flag(content, "seen"@)->Ok_0,
                    can_respond: spec_opt_flag(content, "canRespond"@)->Ok_0,
                    expires_at: spec_opt_text(content, "expiresAt"@)->Ok_0,
                    expiry_after_seen: spec_opt_integer(content, "expiryAfterSeen"@)->Ok_0,
                    require_seen: spec_opt_flag(content, "requireSeen"@)->Ok_0,
                    hide_after_seen: spec_opt_flag(content, "hideAfterSeen"@)->Ok_0,
                    created_at: spec_opt_text(content, "createdAt"@)->Ok_0,
                    updated_at: spec_opt_text(content, "updatedAt"@)->Ok_0,
                    extra: spec_rest(content, notification_payload_keys()),
                },
            )
        }
    }

    fn decode(content: &Json) -> (r: Result<Self, DecodeFault>) {
        if !is_object(content) {
            return Err(DecodeFault::NotAnObject);
        }
        let id = opt_text(content, "id")?;
        let kind = opt_text(content, "type")?;
        let category = opt_text(content, "category")?;
        let sender_user_id = opt_text(content, "senderUserId")?;
        let sender_username = opt_text(content, "senderUsername")?;
        let receiver_user_id = opt_text(content, "receiverUserId")?;
        let message = opt_text(content, "message")?;
        let details = opt_document(content, "details")?;
        let image_url = opt_text(content, "imageUrl")?;
        let link = opt_text(content, "link")?;
        let link_text = opt_text(content, "linkText")?;
        let seen = opt_flag(content, "seen")?;
        let can_respond = opt_flag(content, "canRespond")?;
        let expires_at = opt_text(content, "expiresAt")?;
        let expiry_after_seen = opt_integer(content, "expiryAfterSeen")?;
        let require_seen = opt_flag(content, "requireSeen")?;
        let hide_after_seen = opt_flag(content, "hideAfterSeen")?;
        let created_at = opt_text(content, "createdAt")?;
        let updated_at = opt_text(content, "updatedAt")?;
        let extra = rest(content, &notification_payload_key_list());
        Ok(
            NotificationPayload {
                id,
                kind,
                category,
                sender_user_id,
                sender_username,
                receiver_user_id,
                message,
                details,
                image_url,
                link,
                link_text,
                seen,
                can_respond,
                expires_at,
                expiry_after_seen,
                require_seen,
                hide_after_seen,
                created_at,
                updated_at,
                extra,
            },
        )
    }
}

/// The answer to a notification.
#[derive(Debug, Clone)]
pub struct ResponseNotificationContent {
    pub notification_id: String,
    pub receiver_id: String,
    pub response_id: String,
}

/// The mathematical value of a [`ResponseNotificationContent`].
pub struct ResponseNotificationContentView {
    pub notification_id: Seq<char>,
    pub receiver_id: Seq<char>,
    pub response_id: Seq<char>,
}

impl View for ResponseNotificationContent {
    type V = ResponseNotificationContentView;

    open spec fn view(&self) -> ResponseNotificationContentView {
        ResponseNotificationContentView {
            notification_id: self.notification_id@,
            receiver_id: self.receiver_id@,
            response_id: self.response_id@,
        }
    }
}

impl Payload for ResponseNotificationContent {
    open spec fn spec_decode(content: JsonValue) -> Decoded<ResponseNotificationContentView> {
        if !(content is Object) {
            Err(DecodeFaultView::NotAnObject)
        } else if spec_text(content, "notificationId"@) is Err {
            Err(spec_text(content, "notificationId"@)->Err_0)
        } else if spec_text(content, "receiverId"@) is Err {
            Err(spec_text(content, "receiverId"@)->Err_0)
        } else if spec_text(content, "responseId"@) is Err {
            Err(spec_text(content, "responseId"@)->Err_0)
        } else {
            Ok(
                ResponseNotificationContentView {
                    notification_id: spec_text(content, "notificationId"@)->Ok_0,
                    receiver_id: spec_text(content, "receiverId"@)->Ok_0,
                    response_id: spec_text(content, "responseId"@)->Ok_0,
                },
            )
        }
    }

    fn decode(content: &Json) -> (r: Result<Self, DecodeFault>) {
        if !is_object(content) {
            return Err(DecodeFault::NotAnObject);
        }
        let notification_id = text(content, "notificationId")?;
        let receiver_id = text(content, "receiverId")?;
        let response_id = text(content, "responseId")?;
        Ok(ResponseNotificationContent { notification_id, receiver_id, response_id })
    }
}

/// One of the answers that a notification of the second generation offers.
/// Members that the record does not name are kept in `extra`.
#[derive(Debug, Clone)]
pub struct NotificationV2Response {
    pub kind: Option<String>,
    pub data: Option<String>,
    pub icon: Option<String>,
    pub text: Option<String>,
    pub extra: Vec<(String, Json)>,
}

/// The mathematical value of a [`NotificationV2Response`].
pub struct NotificationV2ResponseView {
    pub kind: Option<Seq<char>>,
    pub data: Option<Seq<char>>,
    pub icon: Option<Seq<char>>,
    pub text: Option<Seq<char>>,
    pub extra: Seq<(Seq<char>, JsonValue)>,
}

impl View for NotificationV2Response {
    type V = NotificationV2ResponseView;

    open spec fn view(&self) -> NotificationV2ResponseView {
        NotificationV2ResponseView {
            kind: view_opt(self.kind),
            data: view_opt(self.data),
            icon: view_opt(self.icon),
            text: view_opt(self.text),
            extra: view_members(self.extra@),
        }
    }
}

/// The names of the members that a [`NotificationV2Response`] takes for its own
/// fields.
pub open spec fn notification_v2_response_keys() -> Seq<Seq<char>> {
    seq![
        "type"@,
        "data"@,
        "icon"@,
        "text"@,
    ]
}

/// The names of the members that a [`NotificationV2Response`] takes for its own
/// fields.
pub fn notification_v2_response_key_list() -> (r: Vec<&'static str>)
    ensures
        view_seq(r@) == notification_v2_response_keys(),
{
    let r = vec![
        "type",
        "data",
        "icon",
        "text",
    ];
    assert(view_seq(r@) =~= notification_v2_response_keys());
    r
}

impl Payload for NotificationV2Response {
    open spec fn spec_decode(content: JsonValue) -> Decoded<NotificationV2ResponseView> {
        if !(content is Object) {
            Err(DecodeFaultView::NotAnObject)
        } else if spec_opt_text(content, "type"@) is Err {
            Err(spec_opt_text(content, "type"@)->Err_0)
        } else if spec_opt_text(content, "data"@) is Err {
            Err(spec_opt_text(content, "data"@)->Err_0)
        } else if spec_opt_text(content, "icon"@) is Err {
            Err(spec_opt_text(content, "icon"@)->Err_0)
        } else if spec_opt_text(content, "text"@) is Err {
            Err(spec_opt_text(content, "text"@)->Err_0)
        } else {
            Ok(
                NotificationV2ResponseView {
                    kind: spec_opt_text(content, "type"@)->Ok_0,
                    data: spec_opt_text(content, "data"@)->Ok_0,
                    icon: spec_opt_text(content, "icon"@)->Ok_0,
                    text: spec_opt_text(content, "text"@)->Ok_0,
                    extra: spec_rest(content, notification_v2_response_keys()),
                },
            )
        }
    }

    fn decode(content: &Json) -> (r: Result<Self, DecodeFault>) {
        if !is_object(content) {
            return Err(DecodeFault::NotAnObject);
        }
        let kind = opt_text(content, "type")?;
        let data = opt_text(content, "data")?;
        let icon = opt_text(content, "icon")?;
        let text = opt_text(content, "text")?;
        let extra = rest(content, &notification_v2_response_key_list());
        Ok(NotificationV2Response { kind, data, icon, text, extra })
    }
}

/// A notification of the second generation. Members that the record does not
/// name are kept in `extra`.
#[derive(Debug, Clone)]
pub struct NotificationV2Payload {
    pub id: String,
    pub version: i32,
    pub kind: String,
    pub category: String,
    pub is_system: bool,
    pub ignore_dnd: bool,
    pub sender_user_id: Option<String>,
    pub sender_username: Option<String>,
    pub receiver_user_id: String,
    pub related_notifications_id: Option<String>,
    pub title: Option<String>,
    pub message: Option<String>,
    pub image_url: Option<String>,
    pub link: Option<String>,
    pub link_text: Option<String>,
    pub responses: Vec<NotificationV2Response>,
    pub expires_at: Option<String>,
    pub expiry_after_seen: Option<i64>,
    pub require_seen: Option<bool>,
    pub seen: Option<bool>,
    pub can_delete: Option<bool>,
    pub created_at: Option<String>,
    pub updated_at: Option<String>,
    pub extra: Vec<(String, Json)>,
}

/// The mathematical value of a [`NotificationV2Payload`].
pub struct NotificationV2PayloadView {
    pub id: Seq<char>,
    pub version: i32,
    pub kind: Seq<char>,
    pub category: Seq<char>,
    pub is_system: bool,
    pub ignore_dnd: bool,
    pub sender_user_id: Option<Seq<char>>,
    pub sender_username: Option<Seq<char>>,
    pub receiver_user_id: Seq<char>,
    pub related_notifications_id: Option<Seq<char>>,
    pub title: Option<Seq<char>>,
    pub message: Option<Seq<char>>,
    pub image_url: Option<Seq<char>>,
    pub link: Option<Seq<char>>,
    pub link_text: Option<Seq<char>>,
    pub responses: Seq<NotificationV2ResponseView>,
    pub expires_at: Option<Seq<char>>,
    pub expiry_after_seen: Option<i64>,
    pub require_seen: Option<bool>,
    pub seen: Option<bool>,
    pub can_delete: Option<bool>,
    pub created_at: Option<Seq<char>>,
    pub updated_at: Option<Seq<char>>,
    pub extra: Seq<(Seq<char>, JsonValue)>,
}

impl View for NotificationV2Payload {
    type V = NotificationV2PayloadView;

    open spec fn view(&self) -> NotificationV2PayloadView {
        NotificationV2PayloadView {
            id: self.id@,
            version: self.version,
            kind: self.kind@,
            category: self.category@,
            is_system: self.is_system,
            ignore_dnd: self.ignore_dnd,
            sender_user_id: view_opt(self.sender_user_id),
            sender_username: view_opt(self.sender_username),
            receiver_user_id: self.receiver_user_id@,
            related_notifications_id: view_opt(self.related_notifications_id),
            title: view_opt(self.title),
            message: view_opt(self.message),
            image_url: view_opt(self.image_url),
            link: view_opt(self.link),
            link_text: view_opt(self.link_text),
            responses: view_seq(self.responses@),
            expires_at: view_opt(self.expires_at),
            expiry_after_seen: self.expiry_after_seen,
            require_seen: self.require_seen,
            seen: self.seen,
            can_delete: self.can_delete,
            created_at: view_opt(self.created_at),
            updated_at: view_opt(self.updated_at),
            extra: view_members(self.extra@),
        }
    }
}

/// The names of the members that a [`NotificationV2Payload`] takes for its own
/// fields.
pub open spec fn notification_v2_payload_keys() -> Seq<Seq<char>> {
    seq![
        "id"@,
        "version"@,
        "type"@,
        "category"@,
        "isSystem"@,
        "ignoreDnd"@,
        "senderUserId"@,
        "senderUsername"@,
        "receiverUserId"@,
        "relatedNotificationsId"@,
        "title"@,
        "message"@,
        "imageUrl"@,
        "link"@,
        "linkText"@,
        "responses"@,
        "expiresAt"@,
        "expiryAfterSeen"@,
        "requireSeen"@,
        "seen"@,
        "canDelete"@,
        "createdAt"@,
        "updatedAt"@,
    ]
}

/// The names of the members that a [`NotificationV2Payload`] takes for its own
/// fields.
pub fn notification_v2_payload_key_list() -> (r: Vec<&'static str>)
    ensures
        view_seq(r@) == notification_v2_payload_keys(),
{
    let r = vec![
        "id",
        "version",
        "type",
        "category",
        "isSystem",
        "ignoreDnd",
        "senderUserId",
        "senderUsername",
        "receiverUserId",
        "relatedNotificationsId",
        "title",
        "message",
        "imageUrl",
        "link",
        "linkText",
        "responses",
        "expiresAt",
        "expiryAfterSeen",
        "requireSeen",
        "seen",
        "canDelete",
        "createdAt",
        "updatedAt",
    ];
    assert(view_seq(r@) =~= notification_v2_payload_keys());
    r
}

impl Payload for NotificationV2Payload {
    open spec fn spec_decode(content: JsonValue) -> Decoded<NotificationV2PayloadView> {
        if !(content is Object) {
            Err(DecodeFaultView::NotAnObject)
        } else if spec_text(content, "id"@) is Err {
            Err(spec_text(content, "id"@)->Err_0)
        } else if spec_integer32(content, "version"@) is Err {
            Err(spec_integer32(content, "version"@)->Err_0)
        } else if spec_text(content, "type"@) is Err {
            Err(spec_text(content, "type"@)->Err_0)
        } else if spec_text(content, "category"@) is Err {
            Err(spec_text(content, "category"@)->Err_0)
        } else if spec_flag(content, "isSystem"@) is Err {
            Err(spec_flag(content, "isSystem"@)->Err_0)
        } else if spec_flag(content, "ignoreDnd"@) is Err {
            Err(spec_flag(content, "ignoreDnd"@)->Err_0)
        } else if spec_opt_text(content, "senderUserId"@) is Err {
            Err(spec_opt_text(content, "senderUserId"@)->Err_0)
        } else if spec_opt_text(content, "senderUsername"@) is Err {
            Err(spec_opt_text(content, "senderUsername"@)->Err_0)
        } else if spec_text(content, "receiverUserId"@) is Err {
            Err(spec_text(content, "receiverUserId"@)->Err_0)
        } else if spec_opt_text(content, "relatedNotificationsId"@) is Err {
            Err(spec_opt_text(content, "relatedNotificationsId"@)->Err_0)
        } else if spec_opt_text(content, "title"@) is Err {
            Err(spec_opt_text(content, "title"@)->Err_0)
        } else if spec_opt_text(content, "message"@) is Err {
            Err(spec_opt_text(content, "message"@)->Err_0)
        } else if spec_opt_text(content, "imageUrl"@) is Err {
            Err(spec_opt_text(content, "imageUrl"@)->Err_0)
        } else if spec_opt_text(content, "link"@) is Err {
            Err(spec_opt_text(content, "link"@)->Err_0)
        } else if spec_opt_text(content, "linkText"@) is Err {
            Err(spec_opt_text(content, "linkText"@)->Err_0)
        } else if spec_records::<NotificationV2Response>(content, "responses"@) is Err {
            Err(spec_records::<NotificationV2Response>(content, "responses"@)->Err_0)
        } else if spec_opt_text(content, "expiresAt"@) is Err {
            Err(spec_opt_text(content, "expiresAt"@)->Err_0)
        } else if spec_opt_integer(content, "expiryAfterSeen"@) is Err {
            Err(spec_opt_integer(content, "expiryAfterSeen"@)->Err_0)
        } else if spec_opt_flag(content, "requireSeen"@) is Err {
            Err(spec_opt_flag(content, "requireSeen"@)->Err_0)
        } else if spec_opt_flag(content, "seen"@) is Err {
            Err(spec_opt_flag(content, "seen"@)->Err_0)
        } else if spec_opt_flag(content, "canDelete"@) is Err {
            Err(spec_opt_flag(content, "canDelete"@)->Err_0)
        } else if spec_opt_text(content, "createdAt"@) is Err {
            Err(spec_opt_text(content, "createdAt"@)->Err_0)
        } else if spec_opt_text(content, "updatedAt"@) is Err {
            Err(spec_opt_text(content, "updatedAt"@)->Err_0)
        } else {
            Ok(
                NotificationV2PayloadView {
                    id: spec_text(content, "id"@)->Ok_0,
                    version: spec_integer32(content, "version"@)->Ok_0,
                    kind: spec_text(content, "type"@)->Ok_0,
                    category: spec_text(content, "category"@)->Ok_0,
                    is_system: spec_flag(content, "isSystem"@)->Ok_0,
                    ignore_dnd: spec_flag(content, "ignoreDnd"@)->Ok_0,
                    sender_user_id: spec_opt_text(content, "senderUserId"@)->Ok_0,
                    sender_username: spec_opt_text(content, "senderUsername"@)->Ok_0,
                    receiver_user_id: spec_text(content, "receiverUserId"@)->Ok_0,
                    related_notifications_id: spec_opt_text(
                        content,
                        "relatedNotificationsId"@,
                    )->Ok_0,
                    title: spec_opt_text(content, "title"@)->Ok_0,
                    message: spec_opt_text(content, "message"@)->Ok_0,
                    image_url: spec_opt_text(content, "imageUrl"@)->Ok_0,
                    link: spec_opt_text(content, "link"@)->Ok_0,
                    link_text: spec_opt_text(content, "linkText"@)->Ok_0,
                    responses: spec_records::<NotificationV2Response>(content, "responses"@)->Ok_0,
                    expires_at: spec_opt_text(content, "expiresAt"@)->Ok_0,
                    expiry_after_seen: spec_opt_integer(content, "expiryAfterSeen"@)->Ok_0,
                    require_seen: spec_opt_flag(content, "requireSeen"@)->Ok_0,
                    seen: spec_opt_flag(content, "seen"@)->Ok_0,
                    can_delete: spec_opt_flag(content, "canDelete"@)->Ok_0,
                    created_at: spec_opt_text(content, "createdAt"@)->Ok_0,
                    updated_at: spec_opt_text(content, "updatedAt"@)->Ok_0,
                    extra: spec_rest(content, notification_v2_payload_keys()),
                },
            )
        }
    }

    fn decode(content: &Json) -> (r: Result<Self, DecodeFault>) {
        if !is_object(content) {
            return Err(DecodeFault::NotAnObject);
        }
        let id = text(content, "id")?;
        let version = integer32(content, "version")?;
        let kind = text(content, "type")?;
        let category = text(content, "category")?;
        let is_system = flag(content, "isSystem")?;
        let ignore_dnd = flag(content, "ignoreDnd")?;
        let sender_user_id = opt_text(content, "senderUserId")?;
        let sender_username = opt_text(content, "senderUsername")?;
        let receiver_user_id = text(content, "receiverUserId")?;
        let related_notifications_id = opt_text(content, "relatedNotificationsId")?;
        let title = opt_text(content, "title")?;
        let message = opt_text(content, "message")?;
        let image_url = opt_text(content, "imageUrl")?;
        let link = opt_text(content, "link")?;
        let link_text = opt_text(content, "linkText")?;
        let responses = records::<NotificationV2Response>(content, "responses")?;
        let expires_at = opt_text(content, "expiresAt")?;
        let expiry_after_seen = opt_integer(content, "expiryAfterSeen")?;
        let require_seen = opt_flag(content, "requireSeen")?;
        let seen = opt_flag(content, "seen")?;
        let can_delete = opt_flag(content, "canDelete")?;
        let created_at = opt_text(content, "createdAt")?;
        let updated_at = opt_text(content, "updatedAt")?;
        let extra = rest(content, &notification_v2_payload_key_list());
        Ok(
            NotificationV2Payload {
                id,
                version,
                kind,
                category,
                is_system,
                ignore_dnd,
                sender_user_id,
                sender_username,
                receiver_user_id,
                related_notifications_id,
                title,
                message,
                image_url,
                link,
                link_text,
                responses,
                expires_at,
                expiry_after_seen,
                require_seen,
                seen,
                can_delete,
                created_at,
                updated_at,
                extra,
            },
        )
    }
}

/// A change to a notification of the second generation: the members to
/// overwrite.
#[derive(Debug, Clone)]
pub struct NotificationV2UpdatePayload {
    pub id: String,
    pub version: i32,
    pub updates: Vec<(String, Json)>,
}

/// The mathematical value of a [`NotificationV2UpdatePayload`].
pub struct NotificationV2UpdatePayloadView {
    pub id: Seq<char>,
    pub version: i32,
    pub updates: Seq<(Seq<char>, JsonValue)>,
}

impl View for NotificationV2UpdatePayload {
    type V = NotificationV2UpdatePayloadView;

    open spec fn view(&self) -> NotificationV2UpdatePayloadView {
        NotificationV2UpdatePayloadView {
            id: self.id@,
            version: self.version,
            updates: view_members(self.updates@),
        }
    }
}

impl Payload for NotificationV2UpdatePayload {
    open spec fn spec_decode(content: JsonValue) -> Decoded<NotificationV2UpdatePayloadView> {
        if !(content is Object) {
            Err(DecodeFaultView::NotAnObject)
        } else if spec_text(content, "id"@) is Err {
            Err(spec_text(content, "id"@)->Err_0)
        } else if spec_integer32(content, "version"@) is Err {
            Err(spec_integer32(content, "version"@)->Err_0)
        } else if spec_members(content, "updates"@) is Err {
            Err(spec_members(content, "updates"@)->Err_0)
        } else {
            Ok(
                NotificationV2UpdatePayloadView {
                    id: spec_text(content, "id"@)->Ok_0,
                    version: spec_integer32(content, "version"@)->Ok_0,
                    updates: spec_members(content, "updates"@)->Ok_0,
                },
            )
        }
    }

    fn decode(content: &Json) -> (r: Result<Self, DecodeFault>) {
        if !is_object(content) {
            return Err(DecodeFault::NotAnObject);
        }
        let id = text(content, "id")?;
        let version = integer32(content, "version")?;
        let updates = members(content, "updates")?;
        Ok(NotificationV2UpdatePayload { id, version, updates })
    }
}

/// The notifications of the second generation to drop.
#[derive(Debug, Clone)]
pub struct NotificationV2DeletePayload {
    pub ids: Vec<String>,
    pub version: i32,
}

/// The mathematical value of a [`NotificationV2DeletePayload`].
pub struct NotificationV2DeletePayloadView {
    pub ids: Seq<Seq<char>>,
    pub version: i32,
}

impl View for NotificationV2DeletePayload {
    type V = NotificationV2DeletePayloadView;

    open spec fn view(&self) -> NotificationV2DeletePayloadView {
        NotificationV2DeletePayloadView {
            ids: view_seq(self.ids@),
            version: self.version,
        }
    }
}

impl Payload for NotificationV2DeletePayload {
    open spec fn spec_decode(content: JsonValue) -> Decoded<NotificationV2DeletePayloadView> {
        if !(content is Object) {
            Err(DecodeFaultView::NotAnObject)
        } else if spec_texts(content, "ids"@) is Err {
            Err(spec_texts(content, "ids"@)->Err_0)
        } else if spec_integer32(content, "version"@) is Err {
            Err(spec_integer32(content, "version"@)->Err_0)
        } else {
            Ok(
                NotificationV2DeletePayloadView {
                    ids: spec_texts(content, "ids"@)->Ok_0,
                    version: spec_integer32(content, "version"@)->Ok_0,
                },
            )
        }
    }

    fn decode(content: &Json) -> (r: Result<Self, DecodeFault>) {
        if !is_object(content) {
            return Err(DecodeFault::NotAnObject);
        }
        let ids = texts(content, "ids")?;
        let version = integer32(content, "version")?;
        Ok(NotificationV2DeletePayload { ids, version })
    }
}

/// A user became a friend.
#[derive(Debug, Clone)]
pub struct FriendAddContent {
    pub user_id: String,
    pub user: LimitedUserFriend,
}

/// The mathematical value of a [`FriendAddContent`].
pub struct FriendAddContentView {
    pub user_id: Seq<char>,
    pub user: LimitedUserFriendView,
}

impl View for FriendAddContent {
    type V = FriendAddContentView;

    open spec fn view(&self) -> FriendAddContentView {
        FriendAddContentView {
            user_id: self.user_id@,
            user: self.user@,
        }
    }
}

impl Payload for FriendAddContent {
    open spec fn spec_decode(content: JsonValue) -> Decoded<FriendAddContentView> {
        if !(content is Object) {
            Err(DecodeFaultView::NotAnObject)
        } else if spec_text(content, "userId"@) is Err {
            Err(spec_text(content, "userId"@)->Err_0)
        } else if spec_record::<LimitedUserFriend>(content, "user"@) is Err {
            Err(spec_record::<LimitedUserFriend>(content, "user"@)->Err_0)
        } else {
            Ok(
                FriendAddContentView {
                    user_id: spec_text(content, "userId"@)->Ok_0,
                    user: spec_record::<LimitedUserFriend>(content, "user"@)->Ok_0,
                },
            )
        }
    }

    fn decode(content: &Json) -> (r: Result<Self, DecodeFault>) {
        if !is_object(content) {
            return Err(DecodeFault::NotAnObject);
        }
        let user_id = text(content, "userId")?;
        let user = record::<LimitedUserFriend>(content, "user")?;
        Ok(FriendAddContent { user_id, user })
    }
}

/// A user is a friend no longer.
#[derive(Debug, Clone)]
pub struct FriendDeleteContent {
    pub user_id: String,
}

/// The mathematical value of a [`FriendDeleteContent`].
pub struct FriendDeleteContentView {
    pub user_id: Seq<char>,
}

impl View for FriendDeleteContent {
    type V = FriendDeleteContentView;

    open spec fn view(&self) -> FriendDeleteContentView {
        FriendDeleteContentView {
            user_id: self.user_id@,
        }
    }
}

impl Payload for FriendDeleteContent {
    open spec fn spec_decode(content: JsonValue) -> Decoded<FriendDeleteContentView> {
        if !(content is Object) {
            Err(DecodeFaultView::NotAnObject)
        } else if spec_text(content, "userId"@) is Err {
            Err(spec_text(content, "userId"@)->Err_0)
        } else {
            Ok(
                FriendDeleteContentView {
                    user_id: spec_text(content, "userId"@)->Ok_0,
                },
            )
        }
    }

    fn decode(content: &Json) -> (r: Result<Self, DecodeFault>) {
        if !is_object(content) {
            return Err(DecodeFault::NotAnObject);
        }
        let user_id = text(content, "userId")?;
        Ok(FriendDeleteContent { user_id })
    }
}

/// A friend changed their record.
#[derive(Debug, Clone)]
pub struct FriendUpdateContent {
    pub user_id: String,
    pub user: LimitedUserFriend,
}

/// The mathematical value of a [`FriendUpdateContent`].
pub struct FriendUpdateContentView {
    pub user_id: Seq<char>,
    pub user: LimitedUserFriendView,
}

impl View for FriendUpdateContent {
    type V = FriendUpdateContentView;

    open spec fn view(&self) -> FriendUpdateContentView {
        FriendUpdateContentView {
            user_id: self.user_id@,
            user: self.user@,
        }
    }
}

impl Payload for FriendUpdateContent {
    open spec fn spec_decode(content: JsonValue) -> Decoded<FriendUpdateContentView> {
        if !(content is Object) {
            Err(DecodeFaultView::NotAnObject)
        } else if spec_text(content, "userId"@) is Err {
            Err(spec_text(content, "userId"@)->Err_0)
        } else if spec_record::<LimitedUserFriend>(content, "user"@) is Err {
            Err(spec_record::<LimitedUserFriend>(content, "user"@)->Err_0)
        } else {
            Ok(
                FriendUpdateContentView {
                    user_id: spec_text(content, "userId"@)->Ok_0,
                    user: spec_record::<LimitedUserFriend>(content, "user"@)->Ok_0,
                },
            )
        }
    }

    fn decode(content: &Json) -> (r: Result<Self, DecodeFault>) {
        if !is_object(content) {
            return Err(DecodeFault::NotAnObject);
        }
        let user_id = text(content, "userId")?;
        let user = record::<LimitedUserFriend>(content, "user")?;
        Ok(FriendUpdateContent { user_id, user })
    }
}

/// A friend came online.
#[derive(Debug, Clone)]
pub struct FriendOnlineContent {
    pub user_id: String,
    pub platform: Option<String>,
    pub location: Option<String>,
    pub can_request_invite: Option<bool>,
    pub user: LimitedUserFriend,
}

/// The mathematical value of a [`FriendOnlineContent`].
pub struct FriendOnlineContentView {
    pub user_id: Seq<char>,
    pub platform: Option<Seq<char>>,
    pub location: Option<Seq<char>>,
    pub can_request_invite: Option<bool>,
    pub user: LimitedUserFriendView,
}

impl View for FriendOnlineContent {
    type V = FriendOnlineContentView;

    open spec fn view(&self) -> FriendOnlineContentView {
        FriendOnlineContentView {
            user_id: self.user_id@,
            platform: view_opt(self.platform),
            location: view_opt(self.location),
            can_request_invite: self.can_request_invite,
            user: self.user@,
        }
    }
}

impl Payload for FriendOnlineContent {
    open spec fn spec_decode(content: JsonValue) -> Decoded<FriendOnlineContentView> {
        if !(content is Object) {
            Err(DecodeFaultView::NotAnObject)
        } else if spec_text(content, "userId"@) is Err {
            Err(spec_text(content, "userId"@)->Err_0)
        } else if spec_opt_text(content, "platform"@) is Err {
            Err(spec_opt_text(content, "platform"@)->Err_0)
        } else if spec_opt_text(content, "location"@) is Err {
            Err(spec_opt_text(content, "location"@)->Err_0)
        } else if spec_opt_flag(content, "canRequestInvite"@) is Err {
            Err(spec_opt_flag(content, "canRequestInvite"@)->Err_0)
        } else if spec_record::<LimitedUserFriend>(content, "user"@) is Err {
            Err(spec_record::<LimitedUserFriend>(content, "user"@)->Err_0)
        } else {
            Ok(
                FriendOnlineContentView {
                    user_id: spec_text(content, "userId"@)->Ok_0,
                    platform: spec_opt_text(content, "platform"@)->Ok_0,
                    location: spec_opt_text(content, "location"@)->Ok_0,
                    can_request_invite: spec_opt_flag(content, "canRequestInvite"@)->Ok_0,
                    user: spec_record::<LimitedUserFriend>(content, "user"@)->Ok_0,
                },
            )
        }
    }

    fn decode(content: &Json) -> (r: Result<Self, DecodeFault>) {
        if !is_object(content) {
            return Err(DecodeFault::NotAnObject);
        }
        let user_id = text(content, "userId")?;
        let platform = opt_text(content, "platform")?;
        let location = opt_text(content, "location")?;
        let can_request_invite = opt_flag(content, "canRequestInvite")?;
        let user = record::<LimitedUserFriend>(content, "user")?;
        Ok(FriendOnlineContent { user_id, platform, location, can_request_invite, user })
    }
}

/// A friend became active outside the game. The user id comes as `userid`, or
/// as `userId`.
#[derive(Debug, Clone)]
pub struct FriendActiveContent {
    pub user_id: String,
    pub platform: Option<String>,
    pub user: LimitedUserFriend,
}

/// The mathematical value of a [`FriendActiveContent`].
pub struct FriendActiveContentView {
    pub user_id: Seq<char>,
    pub platform: Option<Seq<char>>,
    pub user: LimitedUserFriendView,
}

impl View for FriendActiveContent {
    type V = FriendActiveContentView;

    open spec fn view(&self) -> FriendActiveContentView {
        FriendActiveContentView {
            user_id: self.user_id@,
            platform: view_opt(self.platform),
            user: self.user@,
        }
    }
}

impl Payload for FriendActiveContent {
    open spec fn spec_decode(content: JsonValue) -> Decoded<FriendActiveContentView> {
        if !(content is Object) {
            Err(DecodeFaultView::NotAnObject)
        } else if spec_text_alias(content, "userid"@, "userId"@) is Err {
            Err(spec_text_alias(content, "userid"@, "userId"@)->Err_0)
        } else if spec_opt_text(content, "platform"@) is Err {
            Err(spec_opt_text(content, "platform"@)->Err_0)
        } else if spec_record::<LimitedUserFriend>(content, "user"@) is Err {
            Err(spec_record::<LimitedUserFriend>(content, "user"@)->Err_0)
        } else {
            Ok(
                FriendActiveContentView {
                    user_id: spec_text_alias(content, "userid"@, "userId"@)->Ok_0,
                    platform: spec_opt_text(content, "platform"@)->Ok_0,
                    user: spec_record::<LimitedUserFriend>(content, "user"@)->Ok_0,
                },
            )
        }
    }

    fn decode(content: &Json) -> (r: Result<Self, DecodeFault>) {
        if !is_object(content) {
            return Err(DecodeFault::NotAnObject);
        }
        let user_id = text_alias(content, "userid", "userId")?;
        let platform = opt_text(content, "platform")?;
        let user = record::<LimitedUserFriend>(content, "user")?;
        Ok(FriendActiveContent { user_id, platform, user })
    }
}

/// A friend went offline.
#[derive(Debug, Clone)]
pub struct FriendOfflineContent {
    pub user_id: String,
    pub platform: Option<String>,
}

/// The mathematical value of a [`FriendOfflineContent`].
pub struct FriendOfflineContentView {
    pub user_id: Seq<char>,
    pub platform: Option<Seq<char>>,
}

impl View for FriendOfflineContent {
    type V = FriendOfflineContentView;

    open spec fn view(&self) -> FriendOfflineContentView {
        FriendOfflineContentView {
            user_id: self.user_id@,
            platform: view_opt(self.platform),
        }
    }
}

impl Payload for FriendOfflineContent {
    open spec fn spec_decode(content: JsonValue) -> Decoded<FriendOfflineContentView> {
        if !(content is Object) {
            Err(DecodeFaultView::NotAnObject)
        } else if spec_text(content, "userId"@) is Err {
            Err(spec_text(content, "userId"@)->Err_0)
        } else if spec_opt_text(content, "platform"@) is Err {
            Err(spec_opt_text(content, "platform"@)->Err_0)
        } else {
            Ok(
                FriendOfflineContentView {
                    user_id: spec_text(content, "userId"@)->Ok_0,
                    platform: spec_opt_text(content, "platform"@)->Ok_0,
                },
            )
        }
    }

    fn decode(content: &Json) -> (r: Result<Self, DecodeFault>) {
        if !is_object(content) {
            return Err(DecodeFault::NotAnObject);
        }
        let user_id = text(content, "userId")?;
        let platform = opt_text(content, "platform")?;
        Ok(FriendOfflineContent { user_id, platform })
    }
}

/// A friend moved.
#[derive(Debug, Clone)]
pub struct FriendLocationContent {
    pub user_id: String,
    pub location: String,
    pub traveling_to_location: Option<String>,
    pub world_id: Option<String>,
    pub can_request_invite: Option<bool>,
    pub user: Option<LimitedUserFriend>,
}

/// The mathematical value of a [`FriendLocationContent`].
pub struct FriendLocationContentView {
    pub user_id: Seq<char>,
    pub location: Seq<char>,
    pub traveling_to_location: Option<Seq<char>>,
    pub world_id: Option<Seq<char>>,
    pub can_request_invite: Option<bool>,
    pub user: Option<LimitedUserFriendView>,
}

impl View for FriendLocationContent {
    type V = FriendLocationContentView;

    open spec fn view(&self) -> FriendLocationContentView {
        FriendLocationContentView {
            user_id: self.user_id@,
            location: self.location@,
            traveling_to_location: view_opt(self.traveling_to_location),
            world_id: view_opt(self.world_id),
            can_request_invite: self.can_request_invite,
            user: view_opt(self.user),
        }
    }
}

impl Payload for FriendLocationContent {
    open spec fn spec_decode(content: JsonValue) -> Decoded<FriendLocationContentView> {
        if !(content is Object) {
            Err(DecodeFaultView::NotAnObject)
        } else if spec_text(content, "userId"@) is Err {
            Err(spec_text(content, "userId"@)->Err_0)
        } else if spec_text(content, "location"@) is Err {
            Err(spec_text(content, "location"@)->Err_0)
        } else if spec_opt_text(content, "travelingToLocation"@) is Err {
            Err(spec_opt_text(content, "travelingToLocation"@)->Err_0)
        } else if spec_opt_text(content, "worldId"@) is Err {
            Err(spec_opt_text(content, "worldId"@)->Err_0)
        } else if spec_opt_flag(content, "canRequestInvite"@) is Err {
            Err(spec_opt_flag(content, "canRequestInvite"@)->Err_0)
        } else if spec_opt_record::<LimitedUserFriend>(content, "user"@) is Err {
            Err(spec_opt_record::<LimitedUserFriend>(content, "user"@)->Err_0)
        } else {
            Ok(
                FriendLocationContentView {
                    user_id: spec_text(content, "userId"@)->Ok_0,
                    location: spec_text(content, "location"@)->Ok_0,
                    traveling_to_location: spec_opt_text(content, "travelingToLocation"@)->Ok_0,
                    world_id: spec_opt_text(content, "worldId"@)->Ok_0,
                    can_request_invite: spec_opt_flag(content, "canRequestInvite"@)->Ok_0,
                    user: spec_opt_record::<LimitedUserFriend>(content, "user"@)->Ok_0,
                },
            )
        }
    }

    fn decode(content: &Json) -> (r: Result<Self, DecodeFault>) {
        if !is_object(content) {
            return Err(DecodeFault::NotAnObject);
        }
        let user_id = text(content, "userId")?;
        let location = text(content, "location")?;
        let traveling_to_location = opt_text(content, "travelingToLocation")?;
        let world_id = opt_text(content, "worldId")?;
        let can_request_invite = opt_flag(content, "canRequestInvite")?;
        let user = opt_record::<LimitedUserFriend>(content, "user")?;
        Ok(
            FriendLocationContent {
                user_id,
                location,
                traveling_to_location,
                world_id,
                can_request_invite,
                user,
            },
        )
    }
}

/// The authenticated user as the pipeline describes them.
#[derive(Debug, Clone)]
pub struct PipelineUserSummary {
    pub bio: String,
    pub current_avatar: Option<String>,
    pub current_avatar_asset_url: Option<String>,
    pub current_avatar_image_url: Option<String>,
    pub current_avatar_thumbnail_image_url: Option<String>,
    pub display_name: String,
    pub fallback_avatar: Option<String>,
    pub id: String,
    pub profile_pic_override: Option<String>,
    pub profile_pic_override_thumbnail_image_url: Option<String>,
    pub status: String,
    pub status_description: String,
    pub tags: Vec<String>,
    pub user_icon: Option<String>,
    pub username: String,
}

/// The mathematical value of a [`PipelineUserSummary`].
pub struct PipelineUserSummaryView {
    pub bio: Seq<char>,
    pub current_avatar: Option<Seq<char>>,
    pub current_avatar_asset_url: Option<Seq<char>>,
    pub current_avatar_image_url: Option<Seq<char>>,
    pub current_avatar_thumbnail_image_url: Option<Seq<char>>,
    pub display_name: Seq<char>,
    pub fallback_avatar: Option<Seq<char>>,
    pub id: Seq<char>,
    pub profile_pic_override: Option<Seq<char>>,
    pub profile_pic_override_thumbnail_image_url: Option<Seq<char>>,
    pub status: Seq<char>,
    pub status_description: Seq<char>,
    pub tags: Seq<Seq<char>>,
    pub user_icon: Option<Seq<char>>,
    pub username: Seq<char>,
}

impl View for PipelineUserSummary {
    type V = PipelineUserSummaryView;

    open spec fn view(&self) -> PipelineUserSummaryView {
        PipelineUserSummaryView {
            bio: self.bio@,
            current_avatar: view_opt(self.current_avatar),
            current_avatar_asset_url: view_opt(self.current_avatar_asset_url),
            current_avatar_image_url: view_opt(self.current_avatar_image_url),
            current_avatar_thumbnail_image_url: view_opt(self.current_avatar_thumbnail_image_url),
            display_name: self.display_name@,
            fallback_avatar: view_opt(self.fallback_avatar),
            id: self.id@,
            profile_pic_override: view_opt(self.profile_pic_override),
            profile_pic_override_thumbnail_image_url: view_opt(
                self.profile_pic_override_thumbnail_image_url,
            ),
            status: self.status@,
            status_description: self.status_description@,
            tags: view_seq(self.tags@),
            user_icon: view_opt(self.user_icon),
            username: self.username@,
        }
    }
}

impl Payload for PipelineUserSummary {
    open spec fn spec_decode(content: JsonValue) -> Decoded<PipelineUserSummaryView> {
        if !(content is Object) {
            Err(DecodeFaultView::NotAnObject)
        } else if spec_text_or_empty(content, "bio"@) is Err {
            Err(spec_text_or_empty(content, "bio"@)->Err_0)
        } else if spec_opt_text(content, "currentAvatar"@) is Err {
            Err(spec_opt_text(content, "currentAvatar"@)->Err_0)
        } else if spec_opt_text(content, "currentAvatarAssetUrl"@) is Err {
            Err(spec_opt_text(content, "currentAvatarAssetUrl"@)->Err_0)
        } else if spec_opt_text(content, "currentAvatarImageUrl"@) is Err {
            Err(spec_opt_text(content, "currentAvatarImageUrl"@)->Err_0)
        } else if spec_opt_text(content, "currentAvatarThumbnailImageUrl"@) is Err {
            Err(spec_opt_text(content, "currentAvatarThumbnailImageUrl"@)->Err_0)
        } else if spec_text(content, "displayName"@) is Err {
            Err(spec_text(content, "displayName"@)->Err_0)
        } else if spec_opt_text(content, "fallbackAvatar"@) is Err {
            Err(spec_opt_text(content, "fallbackAvatar"@)->Err_0)
        } else if spec_text(content, "id"@) is Err {
            Err(spec_text(content, "id"@)->Err_0)
        } else if spec_opt_text(content, "profilePicOverride"@) is Err {
            Err(spec_opt_text(content, "profilePicOverride"@)->Err_0)
        } else if spec_opt_text(content, "profilePicOverrideThumbnailImageUrl"@) is Err {
            Err(spec_opt_text(content, "profilePicOverrideThumbnailImageUrl"@)->Err_0)
        } else if spec_text_or_empty(content, "status"@) is Err {
            Err(spec_text_or_empty(content, "status"@)->Err_0)
        } else if spec_text_or_empty(content, "statusDescription"@) is Err {
            Err(spec_text_or_empty(content, "statusDescription"@)->Err_0)
        } else if spec_texts(content, "tags"@) is Err {
            Err(spec_texts(content, "tags"@)->Err_0)
        } else if spec_opt_text(content, "userIcon"@) is Err {
            Err(spec_opt_text(content, "userIcon"@)->Err_0)
        } else if spec_text(content, "username"@) is Err {
            Err(spec_text(content, "username"@)->Err_0)
        } else {
            Ok(
                PipelineUserSummaryView {
                    bio: spec_text_or_empty(content, "bio"@)->Ok_0,
                    current_avatar: spec_opt_text(content, "currentAvatar"@)->Ok_0,
                    current_avatar_asset_url: spec_opt_text(
                        content,
                        "currentAvatarAssetUrl"@,
                    )->Ok_0,
                    current_avatar_image_url: spec_opt_text(
                        content,
                        "currentAvatarImageUrl"@,
                    )->Ok_0,
                    current_avatar_thumbnail_image_url: spec_opt_text(
                        content,
                        "currentAvatarThumbnailImageUrl"@,
                    )->Ok_0,
                    display_name: spec_text(content, "displayName"@)->Ok_0,
                    fallback_avatar: spec_opt_text(content, "fallbackAvatar"@)->Ok_0,
                    id: spec_text(content, "id"@)->Ok_0,
                    profile_pic_override: spec_opt_text(content, "profilePicOverride"@)->Ok_0,
                    profile_pic_override_thumbnail_image_url: spec_opt_text(
                        content,
                        "profilePicOverrideThumbnailImageUrl"@,
                    )->Ok_0,
                    status: spec_text_or_empty(content, "status"@)->Ok_0,
                    status_description: spec_text_or_empty(content, "statusDescription"@)->Ok_0,
                    tags: spec_texts(content, "tags"@)->Ok_0,
                    user_icon: spec_opt_text(content, "userIcon"@)->Ok_0,
                    username: spec_text(content, "username"@)->Ok_0,
                },
            )
        }
    }

    fn decode(content: &Json) -> (r: Result<Self, DecodeFault>) {
        if !is_object(content) {
            return Err(DecodeFault::NotAnObject);
        }
        let bio = text_or_empty(content, "bio")?;
        let current_avatar = opt_text(content, "currentAvatar")?;
        let current_avatar_asset_url = opt_text(content, "currentAvatarAssetUrl")?;
        let current_avatar_image_url = opt_text(content, "currentAvatarImageUrl")?;
        let current_avatar_thumbnail_image_url = opt_text(
            content,
            "currentAvatarThumbnailImageUrl",
        )?;
        let display_name = text(content, "displayName")?;
        let fallback_avatar = opt_text(content, "fallbackAvatar")?;
        let id = text(content, "id")?;
        let profile_pic_override = opt_text(content, "profilePicOverride")?;
        let profile_pic_override_thumbnail_image_url = opt_text(
            content,
            "profilePicOverrideThumbnailImageUrl",
        )?;
        let status = text_or_empty(content, "status")?;
        let status_description = text_or_empty(content, "statusDescription")?;
        let tags = texts(content, "tags")?;
        let user_icon = opt_text(content, "userIcon")?;
        let username = text(content, "username")?;
        Ok(
            PipelineUserSummary {
                bio,
                current_avatar,
                current_avatar_asset_url,
                current_avatar_image_url,
                current_avatar_thumbnail_image_url,
                display_name,
                fallback_avatar,
                id,
                profile_pic_override,
                profile_pic_override_thumbnail_image_url,
                status,
                status_description,
                tags,
                user_icon,
                username,
            },
        )
    }
}

/// The authenticated user changed their record.
#[derive(Debug, Clone)]
pub struct UserUpdateContent {
    pub user_id: String,
    pub user: PipelineUserSummary,
}

/// The mathematical value of a [`UserUpdateContent`].
pub struct UserUpdateContentView {
    pub user_id: Seq<char>,
    pub user: PipelineUserSummaryView,
}

impl View for UserUpdateContent {
    type V = UserUpdateContentView;

    open spec fn view(&self) -> UserUpdateContentView {
        UserUpdateContentView {
            user_id: self.user_id@,
            user: self.user@,
        }
    }
}

impl Payload for UserUpdateContent {
    open spec fn spec_decode(content: JsonValue) -> Decoded<UserUpdateContentView> {
        if !(content is Object) {
            Err(DecodeFaultView::NotAnObject)
        } else if spec_text(content, "userId"@) is Err {
            Err(spec_text(content, "userId"@)->Err_0)
        } else if spec_record::<PipelineUserSummary>(content, "user"@) is Err {
            Err(spec_record::<PipelineUserSummary>(content, "user"@)->Err_0)
        } else {
            Ok(
                UserUpdateContentView {
                    user_id: spec_text(content, "userId"@)->Ok_0,
                    user: spec_record::<PipelineUserSummary>(content, "user"@)->Ok_0,
                },
            )
        }
    }

    fn decode(content: &Json) -> (r: Result<Self, DecodeFault>) {
        if !is_object(content) {
            return Err(DecodeFault::NotAnObject);
        }
        let user_id = text(content, "userId")?;
        let user = record::<PipelineUserSummary>(content, "user")?;
        Ok(UserUpdateContent { user_id, user })
    }
}

/// The authenticated user moved.
#[derive(Debug, Clone)]
pub struct UserLocationContent {
    pub user_id: String,
    pub user: Option<LimitedUserFriend>,
    pub location: String,
    pub instance: Option<String>,
    pub traveling_to_location: Option<String>,
}

/// The mathematical value of a [`UserLocationContent`].
pub struct UserLocationContentView {
    pub user_id: Seq<char>,
    pub user: Option<LimitedUserFriendView>,
    pub location: Seq<char>,
    pub instance: Option<Seq<char>>,
    pub traveling_to_location: Option<Seq<char>>,
}

impl View for UserLocationContent {
    type V = UserLocationContentView;

    open spec fn view(&self) -> UserLocationContentView {
        UserLocationContentView {
            user_id: self.user_id@,
            user: view_opt(self.user),
            location: self.location@,
            instance: view_opt(self.instance),
            traveling_to_location: view_opt(self.traveling_to_location),
        }
    }
}

impl Payload for UserLocationContent {
    open spec fn spec_decode(content: JsonValue) -> Decoded<UserLocationContentView> {
        if !(content is Object) {
            Err(DecodeFaultView::NotAnObject)
        } else if spec_text(content, "userId"@) is Err {
            Err(spec_text(content, "userId"@)->Err_0)
        } else if spec_opt_record::<LimitedUserFriend>(content, "user"@) is Err {
            Err(spec_opt_record::<LimitedUserFriend>(content, "user"@)->Err_0)
        } else if spec_text(content, "location"@) is Err {
            Err(spec_text(content, "location"@)->Err_0)
        } else if spec_opt_text(content, "instance"@) is Err {
            Err(spec_opt_text(content, "instance"@)->Err_0)
        } else if spec_opt_text(content, "travelingToLocation"@) is Err {
            Err(spec_opt_text(content, "travelingToLocation"@)->Err_0)
        } else {
            Ok(
                UserLocationContentView {
                    user_id: spec_text(content, "userId"@)->Ok_0,
                    user: spec_opt_record::<LimitedUserFriend>(content, "user"@)->Ok_0,
                    location: spec_text(content, "location"@)->Ok_0,
                    instance: spec_opt_text(content, "instance"@)->Ok_0,
                    traveling_to_location: spec_opt_text(content, "travelingToLocation"@)->Ok_0,
                },
            )
        }
    }

    fn decode(content: &Json) -> (r: Result<Self, DecodeFault>) {
        if !is_object(content) {
            return Err(DecodeFault::NotAnObject);
        }
        let user_id = text(content, "userId")?;
        let user = opt_record::<LimitedUserFriend>(content, "user")?;
        let location = text(content, "location")?;
        let instance = opt_text(content, "instance")?;
        let traveling_to_location = opt_text(content, "travelingToLocation")?;
        Ok(UserLocationContent { user_id, user, location, instance, traveling_to_location })
    }
}

/// A badge as the pipeline describes it. Members that the record does not name
/// are kept in `extra`.
#[derive(Debug, Clone)]
pub struct PipelineBadge {
    pub badge_id: String,
    pub badge_name: Option<String>,
    pub badge_description: Option<String>,
    pub badge_image_url: Option<String>,
    pub assigned_at: Option<String>,
    pub extra: Vec<(String, Json)>,
}

/// The mathematical value of a [`PipelineBadge`].
pub struct PipelineBadgeView {
    pub badge_id: Seq<char>,
    pub badge_name: Option<Seq<char>>,
    pub badge_description: Option<Seq<char>>,
    pub badge_image_url: Option<Seq<char>>,
    pub assigned_at: Option<Seq<char>>,
    pub extra: Seq<(Seq<char>, JsonValue)>,
}

impl View for PipelineBadge {
    type V = PipelineBadgeView;

    open spec fn view(&self) -> PipelineBadgeView {
        PipelineBadgeView {
            badge_id: self.badge_id@,
            badge_name: view_opt(self.badge_name),
            badge_description: view_opt(self.badge_description),
            badge_image_url: view_opt(self.badge_image_url),
            assigned_at: view_opt(self.assigned_at),
            extra: view_members(self.extra@),
        }
    }
}

/// The names of the members that a [`PipelineBadge`] takes for its own fields.
pub open spec fn pipeline_badge_keys() -> Seq<Seq<char>> {
    seq![
        "badgeId"@,
        "badgeName"@,
        "badgeDescription"@,
        "badgeImageUrl"@,
        "assignedAt"@,
    ]
}

/// The names of the members that a [`PipelineBadge`] takes for its own fields.
pub fn pipeline_badge_key_list() -> (r: Vec<&'static str>)
    ensures
        view_seq(r@) == pipeline_badge_keys(),
{
    let r = vec![
        "badgeId",
        "badgeName",
        "badgeDescription",
        "badgeImageUrl",
        "assignedAt",
    ];
    assert(view_seq(r@) =~= pipeline_badge_keys());
    r
}

impl Payload for PipelineBadge {
    open spec fn spec_decode(content: JsonValue) -> Decoded<PipelineBadgeView> {
        if !(content is Object) {
            Err(DecodeFaultView::NotAnObject)
        } else if spec_text(content, "badgeId"@) is Err {
            Err(spec_text(content, "badgeId"@)->Err_0)
        } else if spec_opt_text(content, "badgeName"@) is Err {
            Err(spec_opt_text(content, "badgeName"@)->Err_0)
        } else if spec_opt_text(content, "badgeDescription"@) is Err {
            Err(spec_opt_text(content, "badgeDescription"@)->Err_0)
        } else if spec_opt_text(content, "badgeImageUrl"@) is Err {
            Err(spec_opt_text(content, "badgeImageUrl"@)->Err_0)
        } else if spec_opt_text(content, "assignedAt"@) is Err {
            Err(spec_opt_text(content, "assignedAt"@)->Err_0)
        } else {
            Ok(
                PipelineBadgeView {
                    badge_id: spec_text(content, "badgeId"@)->Ok_0,
                    badge_name: spec_opt_text(content, "badgeName"@)->Ok_0,
                    badge_description: spec_opt_text(content, "badgeDescription"@)->Ok_0,
                    badge_image_url: spec_opt_text(content, "badgeImageUrl"@)->Ok_0,
                    assigned_at: spec_opt_text(content, "assignedAt"@)->Ok_0,
                    extra: spec_rest(content, pipeline_badge_keys()),
                },
            )
        }
    }

    fn decode(content: &Json) -> (r: Result<Self, DecodeFault>) {
        if !is_object(content) {
            return Err(DecodeFault::NotAnObject);
        }
        let badge_id = text(content, "badgeId")?;
        let badge_name = opt_text(content, "badgeName")?;
        let badge_description = opt_text(content, "badgeDescription")?;
        let badge_image_url = opt_text(content, "badgeImageUrl")?;
        let assigned_at = opt_text(content, "assignedAt")?;
        let extra = rest(content, &pipeline_badge_key_list());
        Ok(
            PipelineBadge {
                badge_id,
                badge_name,
                badge_description,
                badge_image_url,
                assigned_at,
                extra,
            },
        )
    }
}

/// The authenticated user got a badge.
#[derive(Debug, Clone)]
pub struct UserBadgeAssignedContent {
    pub badge: PipelineBadge,
}

/// The mathematical value of a [`UserBadgeAssignedContent`].
pub struct UserBadgeAssignedContentView {
    pub badge: PipelineBadgeView,
}

impl View for UserBadgeAssignedContent {
    type V = UserBadgeAssignedContentView;

    open spec fn view(&self) -> UserBadgeAssignedContentView {
        UserBadgeAssignedContentView {
            badge: self.badge@,
        }
    }
}

impl Payload for UserBadgeAssignedContent {
    open spec fn spec_decode(content: JsonValue) -> Decoded<UserBadgeAssignedContentView> {
        if !(content is Object) {
            Err(DecodeFaultView::NotAnObject)
        } else if spec_record::<PipelineBadge>(content, "badge"@) is Err {
            Err(spec_record::<PipelineBadge>(content, "badge"@)->Err_0)
        } else {
            Ok(
                UserBadgeAssignedContentView {
                    badge: spec_record::<PipelineBadge>(content, "badge"@)->Ok_0,
                },
            )
        }
    }

    fn decode(content: &Json) -> (r: Result<Self, DecodeFault>) {
        if !is_object(content) {
            return Err(DecodeFault::NotAnObject);
        }
        let badge = record::<PipelineBadge>(content, "badge")?;
        Ok(UserBadgeAssignedContent { badge })
    }
}

/// The authenticated user lost a badge.
#[derive(Debug, Clone)]
pub struct UserBadgeUnassignedContent {
    pub badge_id: String,
}

/// The mathematical value of a [`UserBadgeUnassignedContent`].
pub struct UserBadgeUnassignedContentView {
    pub badge_id: Seq<char>,
}

impl View for UserBadgeUnassignedContent {
    type V = UserBadgeUnassignedContentView;

    open spec fn view(&self) -> UserBadgeUnassignedContentView {
        UserBadgeUnassignedContentView {
            badge_id: self.badge_id@,
        }
    }
}

impl Payload for UserBadgeUnassignedContent {
    open spec fn spec_decode(content: JsonValue) -> Decoded<UserBadgeUnassignedContentView> {
        if !(content is Object) {
            Err(DecodeFaultView::NotAnObject)
        } else if spec_text(content, "badgeId"@) is Err {
            Err(spec_text(content, "badgeId"@)->Err_0)
        } else {
            Ok(
                UserBadgeUnassignedContentView {
                    badge_id: spec_text(content, "badgeId"@)->Ok_0,
                },
            )
        }
    }

    fn decode(content: &Json) -> (r: Result<Self, DecodeFault>) {
        if !is_object(content) {
            return Err(DecodeFault::NotAnObject);
        }
        let badge_id = text(content, "badgeId")?;
        Ok(UserBadgeUnassignedContent { badge_id })
    }
}

/// Content of the authenticated user changed on the service.
#[derive(Debug, Clone)]
pub struct ContentRefreshContent {
    pub content_type: String,
    pub file_id: Option<String>,
    pub item_id: Option<String>,
    pub item_type: Option<String>,
    pub action_type: Option<String>,
}

/// The mathematical value of a [`ContentRefreshContent`].
pub struct ContentRefreshContentView {
    pub content_type: Seq<char>,
    pub file_id: Option<Seq<char>>,
    pub item_id: Option<Seq<char>>,
    pub item_type: Option<Seq<char>>,
    pub action_type: Option<Seq<char>>,
}

impl View for ContentRefreshContent {
    type V = ContentRefreshContentView;

    open spec fn view(&self) -> ContentRefreshContentView {
        ContentRefreshContentView {
            content_type: self.content_type@,
            file_id: view_opt(self.file_id),
            item_id: view_opt(self.item_id),
            item_type: view_opt(self.item_type),
            action_type: view_opt(self.action_type),
        }
    }
}

impl Payload for ContentRefreshContent {
    open spec fn spec_decode(content: JsonValue) -> Decoded<ContentRefreshContentView> {
        if !(content is Object) {
            Err(DecodeFaultView::NotAnObject)
        } else if spec_text(content, "contentType"@) is Err {
            Err(spec_text(content, "contentType"@)->Err_0)
        } else if spec_opt_text(content, "fileId"@) is Err {
            Err(spec_opt_text(content, "fileId"@)->Err_0)
        } else if spec_opt_text(content, "itemId"@) is Err {
            Err(spec_opt_text(content, "itemId"@)->Err_0)
        } else if spec_opt_text(content, "itemType"@) is Err {
            Err(spec_opt_text(content, "itemType"@)->Err_0)
        } else if spec_opt_text(content, "actionType"@) is Err {
            Err(spec_opt_text(content, "actionType"@)->Err_0)
        } else {
            Ok(
                ContentRefreshContentView {
                    content_type: spec_text(content, "contentType"@)->Ok_0,
                    file_id: spec_opt_text(content, "fileId"@)->Ok_0,
                    item_id: spec_opt_text(content, "itemId"@)->Ok_0,
                    item_type: spec_opt_text(content, "itemType"@)->Ok_0,
                    action_type: spec_opt_text(content, "actionType"@)->Ok_0,
                },
            )
        }
    }

    fn decode(content: &Json) -> (r: Result<Self, DecodeFault>) {
        if !is_object(content) {
            return Err(DecodeFault::NotAnObject);
        }
        let content_type = text(content, "contentType")?;
        let file_id = opt_text(content, "fileId")?;
        let item_id = opt_text(content, "itemId")?;
        let item_type = opt_text(content, "itemType")?;
        let action_type = opt_text(content, "actionType")?;
        Ok(ContentRefreshContent { content_type, file_id, item_id, item_type, action_type })
    }
}

/// An image of the authenticated user was processed anew.
#[derive(Debug, Clone)]
pub struct ModifiedImageUpdateContent {
    pub file_id: String,
    pub pixel_size: i64,
    pub version_number: i64,
    pub needs_processing: bool,
}

/// The mathematical value of a [`ModifiedImageUpdateContent`].
pub struct ModifiedImageUpdateContentView {
    pub file_id: Seq<char>,
    pub pixel_size: i64,
    pub version_number: i64,
    pub needs_processing: bool,
}

impl View for ModifiedImageUpdateContent {
    type V = ModifiedImageUpdateContentView;

    open spec fn view(&self) -> ModifiedImageUpdateContentView {
        ModifiedImageUpdateContentView {
            file_id: self.file_id@,
            pixel_size: self.pixel_size,
            version_number: self.version_number,
            needs_processing: self.needs_processing,
        }
    }
}

impl Payload for ModifiedImageUpdateContent {
    open spec fn spec_decode(content: JsonValue) -> Decoded<ModifiedImageUpdateContentView> {
        if !(content is Object) {
            Err(DecodeFaultView::NotAnObject)
        } else if spec_text(content, "fileId"@) is Err {
            Err(spec_text(content, "fileId"@)->Err_0)
        } else if spec_integer(content, "pixelSize"@) is Err {
            Err(spec_integer(content, "pixelSize"@)->Err_0)
        } else if spec_integer(content, "versionNumber"@) is Err {
            Err(spec_integer(content, "versionNumber"@)->Err_0)
        } else if spec_flag(content, "needsProcessing"@) is Err {
            Err(spec_flag(content, "needsProcessing"@)->Err_0)
        } else {
            Ok(
                ModifiedImageUpdateContentView {
                    file_id: spec_text(content, "fileId"@)->Ok_0,
                    pixel_size: spec_integer(content, "pixelSize"@)->Ok_0,
                    version_number: spec_integer(content, "versionNumber"@)->Ok_0,
                    needs_processing: spec_flag(content, "needsProcessing"@)->Ok_0,
                },
            )
        }
    }

    fn decode(content: &Json) -> (r: Result<Self, DecodeFault>) {
        if !is_object(content) {
            return Err(DecodeFault::NotAnObject);
        }
        let file_id = text(content, "fileId")?;
        let pixel_size = integer(content, "pixelSize")?;
        let version_number = integer(content, "versionNumber")?;
        let needs_processing = flag(content, "needsProcessing")?;
        Ok(ModifiedImageUpdateContent { file_id, pixel_size, version_number, needs_processing })
    }
}

/// The authenticated user joined the queue of an instance.
#[derive(Debug, Clone)]
pub struct InstanceQueueJoinedContent {
    pub instance_location: String,
    pub position: i64,
}

/// The mathematical value of a [`InstanceQueueJoinedContent`].
pub struct InstanceQueueJoinedContentView {
    pub instance_location: Seq<char>,
    pub position: i64,
}

impl View for InstanceQueueJoinedContent {
    type V = InstanceQueueJoinedContentView;

    open spec fn view(&self) -> InstanceQueueJoinedContentView {
        InstanceQueueJoinedContentView {
            instance_location: self.instance_location@,
            position: self.position,
        }
    }
}

impl Payload for InstanceQueueJoinedContent {
    open spec fn spec_decode(content: JsonValue) -> Decoded<InstanceQueueJoinedContentView> {
        if !(content is Object) {
            Err(DecodeFaultView::NotAnObject)
        } else if spec_text(content, "instanceLocation"@) is Err {
            Err(spec_text(content, "instanceLocation"@)->Err_0)
        } else if spec_integer(content, "position"@) is Err {
            Err(spec_integer(content, "position"@)->Err_0)
        } else {
            Ok(
                InstanceQueueJoinedContentView {
                    instance_location: spec_text(content, "instanceLocation"@)->Ok_0,
                    position: spec_integer(content, "position"@)->Ok_0,
                },
            )
        }
    }

    fn decode(content: &Json) -> (r: Result<Self, DecodeFault>) {
        if !is_object(content) {
            return Err(DecodeFault::NotAnObject);
        }
        let instance_location = text(content, "instanceLocation")?;
        let position = integer(content, "position")?;
        Ok(InstanceQueueJoinedContent { instance_location, position })
    }
}

/// The authenticated user's turn in the queue of an instance came.
#[derive(Debug, Clone)]
pub struct InstanceQueueReadyContent {
    pub instance_location: String,
    pub expiry: String,
}

/// The mathematical value of a [`InstanceQueueReadyContent`].
pub struct InstanceQueueReadyContentView {
    pub instance_location: Seq<char>,
    pub expiry: Seq<char>,
}

impl View for InstanceQueueReadyContent {
    type V = InstanceQueueReadyContentView;

    open spec fn view(&self) -> InstanceQueueReadyContentView {
        InstanceQueueReadyContentView {
            instance_location: self.instance_location@,
            expiry: self.expiry@,
        }
    }
}

impl Payload for InstanceQueueReadyContent {
    open spec fn spec_decode(content: JsonValue) -> Decoded<InstanceQueueReadyContentView> {
        if !(content is Object) {
            Err(DecodeFaultView::NotAnObject)
        } else if spec_text(content, "instanceLocation"@) is Err {
            Err(spec_text(content, "instanceLocation"@)->Err_0)
        } else if spec_text(content, "expiry"@) is Err {
            Err(spec_text(content, "expiry"@)->Err_0)
        } else {
            Ok(
                InstanceQueueReadyContentView {
                    instance_location: spec_text(content, "instanceLocation"@)->Ok_0,
                    expiry: spec_text(content, "expiry"@)->Ok_0,
                },
            )
        }
    }

    fn decode(content: &Json) -> (r: Result<Self, DecodeFault>) {
        if !is_object(content) {
            return Err(DecodeFault::NotAnObject);
        }
        let instance_location = text(content, "instanceLocation")?;
        let expiry = text(content, "expiry")?;
        Ok(InstanceQueueReadyContent { instance_location, expiry })
    }
}

/// The authenticated user joined or left a group.
#[derive(Debug, Clone)]
pub struct GroupChangedContent {
    pub group_id: String,
}

/// The mathematical value of a [`GroupChangedContent`].
pub struct GroupChangedContentView {
    pub group_id: Seq<char>,
}

impl View for GroupChangedContent {
    type V = GroupChangedContentView;

    open spec fn view(&self) -> GroupChangedContentView {
        GroupChangedContentView {
            group_id: self.group_id@,
        }
    }
}

impl Payload for GroupChangedContent {
    open spec fn spec_decode(content: JsonValue) -> Decoded<GroupChangedContentView> {
        if !(content is Object) {
            Err(DecodeFaultView::NotAnObject)
        } else if spec_text(content, "groupId"@) is Err {
            Err(spec_text(content, "groupId"@)->Err_0)
        } else {
            Ok(
                GroupChangedContentView {
                    group_id: spec_text(content, "groupId"@)->Ok_0,
                },
            )
        }
    }

    fn decode(content: &Json) -> (r: Result<Self, DecodeFault>) {
        if !is_object(content) {
            return Err(DecodeFault::NotAnObject);
        }
        let group_id = text(content, "groupId")?;
        Ok(GroupChangedContent { group_id })
    }
}

/// The authenticated user's membership of a group changed; the member as the
/// service sent it.
#[derive(Debug, Clone)]
pub struct GroupMemberUpdatedContent {
    pub member: Json,
}

/// The mathematical value of a [`GroupMemberUpdatedContent`].
pub struct GroupMemberUpdatedContentView {
    pub member: JsonValue,
}

impl View for GroupMemberUpdatedContent {
    type V = GroupMemberUpdatedContentView;

    open spec fn view(&self) -> GroupMemberUpdatedContentView {
        GroupMemberUpdatedContentView {
            member: self.member@,
        }
    }
}

impl Payload for GroupMemberUpdatedContent {
    open spec fn spec_decode(content: JsonValue) -> Decoded<GroupMemberUpdatedContentView> {
        if !(content is Object) {
            Err(DecodeFaultView::NotAnObject)
        } else if spec_document(content, "member"@) is Err {
            Err(spec_document(content, "member"@)->Err_0)
        } else {
            Ok(
                GroupMemberUpdatedContentView {
                    member: spec_document(content, "member"@)->Ok_0,
                },
            )
        }
    }

    fn decode(content: &Json) -> (r: Result<Self, DecodeFault>) {
        if !is_object(content) {
            return Err(DecodeFault::NotAnObject);
        }
        let member = document(content, "member")?;
        Ok(GroupMemberUpdatedContent { member })
    }
}

/// A role of a group changed; the role as the service sent it.
#[derive(Debug, Clone)]
pub struct GroupRoleUpdatedContent {
    pub role: Json,
}

/// The mathematical value of a [`GroupRoleUpdatedContent`].
pub struct GroupRoleUpdatedContentView {
    pub role: JsonValue,
}

impl View for GroupRoleUpdatedContent {
    type V = GroupRoleUpdatedContentView;

    open spec fn view(&self) -> GroupRoleUpdatedContentView {
        GroupRoleUpdatedContentView {
            role: self.role@,
        }
    }
}

impl Payload for GroupRoleUpdatedContent {
    open spec fn spec_decode(content: JsonValue) -> Decoded<GroupRoleUpdatedContentView> {
        if !(content is Object) {
            Err(DecodeFaultView::NotAnObject)
        } else if spec_document(content, "role"@) is Err {
            Err(spec_document(content, "role"@)->Err_0)
        } else {
            Ok(
                GroupRoleUpdatedContentView {
                    role: spec_document(content, "role"@)->Ok_0,
                },
            )
        }
    }

    fn decode(content: &Json) -> (r: Result<Self, DecodeFault>) {
        if !is_object(content) {
            return Err(DecodeFault::NotAnObject);
        }
        let role = document(content, "role")?;
        Ok(GroupRoleUpdatedContent { role })
    }
}

/// What is told of a friend who came online.
#[derive(Debug, Clone)]
pub struct FriendOnlineEvent {
    pub user_id: String,
    pub user: LimitedUserFriend,
}

/// The mathematical value of a [`FriendOnlineEvent`].
pub struct FriendOnlineEventView {
    pub user_id: Seq<char>,
    pub user: LimitedUserFriendView,
}

impl View for FriendOnlineEvent {
    type V = FriendOnlineEventView;

    open spec fn view(&self) -> FriendOnlineEventView {
        FriendOnlineEventView {
            user_id: self.user_id@,
            user: self.user@,
        }
    }
}

/// What is told of a friend who went offline.
#[derive(Debug, Clone)]
pub struct FriendOfflineEvent {
    pub user_id: String,
}

/// The mathematical value of a [`FriendOfflineEvent`].
pub struct FriendOfflineEventView {
    pub user_id: Seq<char>,
}

impl View for FriendOfflineEvent {
    type V = FriendOfflineEventView;

    open spec fn view(&self) -> FriendOfflineEventView {
        FriendOfflineEventView {
            user_id: self.user_id@,
        }
    }
}

/// What is told of a friend who was added or changed.
#[derive(Debug, Clone)]
pub struct FriendUpdateEvent {
    pub user_id: String,
    pub user: LimitedUserFriend,
}

/// The mathematical value of a [`FriendUpdateEvent`].
pub struct FriendUpdateEventView {
    pub user_id: Seq<char>,
    pub user: LimitedUserFriendView,
}

impl View for FriendUpdateEvent {
    type V = FriendUpdateEventView;

    open spec fn view(&self) -> FriendUpdateEventView {
        FriendUpdateEventView {
            user_id: self.user_id@,
            user: self.user@,
        }
    }
}

/// What is told of a friend who was removed.
#[derive(Debug, Clone)]
pub struct FriendRemovedEvent {
    pub user_id: String,
}

/// The mathematical value of a [`FriendRemovedEvent`].
pub struct FriendRemovedEventView {
    pub user_id: Seq<char>,
}

impl View for FriendRemovedEvent {
    type V = FriendRemovedEventView;

    open spec fn view(&self) -> FriendRemovedEventView {
        FriendRemovedEventView {
            user_id: self.user_id@,
        }
    }
}

} // verus!
