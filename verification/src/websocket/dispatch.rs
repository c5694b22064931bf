//! What each event of the pipeline does: to the relationship cache, and in
//! what is told outward.
//!
//! The dispatcher performs no I/O. It changes the cache and hands back the
//! notifications to send, in their order; sending them is the caller's part.

use vstd::prelude::*;
use crate::store::user_store::{
    CurrentUserPipelineUpdate, CurrentUserPipelineUpdateView, UserStore, UserStoreView,
};
use crate::views::{clone_strings, view_opt, view_seq};
use crate::vrchat_api::types::user::{LimitedUserFriend, LimitedUserFriendView};
use super::message::{
    decode_message, spec_decode_message, DecodeError, DecodeErrorView, WebSocketMessage,
    WebSocketMessageView,
};
use super::types::{
    ContentRefreshContent, ContentRefreshContentView, FriendActiveContent, FriendAddContent,
    FriendDeleteContent, FriendLocationContent, FriendLocationContentView, FriendOfflineContent,
    FriendOfflineEvent, FriendOfflineEventView, FriendOnlineContent, FriendOnlineEvent,
    FriendOnlineEventView, FriendRemovedEvent, FriendRemovedEventView, FriendUpdateContent,
    FriendUpdateEvent, FriendUpdateEventView, GroupChangedContent, GroupChangedContentView,
    GroupMemberUpdatedContent, GroupMemberUpdatedContentView, GroupRoleUpdatedContent,
    GroupRoleUpdatedContentView, InstanceQueueJoinedContent, InstanceQueueJoinedContentView,
    InstanceQueueReadyContent, InstanceQueueReadyContentView, ModifiedImageUpdateContent,
    ModifiedImageUpdateContentView, NotificationPayload, NotificationPayloadView,
    NotificationV2DeletePayload, NotificationV2DeletePayloadView, NotificationV2Payload,
    NotificationV2PayloadView, NotificationV2UpdatePayload, NotificationV2UpdatePayloadView,
    PipelineUserSummary, PipelineUserSummaryView, ResponseNotificationContent,
    ResponseNotificationContentView, UserBadgeAssignedContent, UserBadgeAssignedContentView,
    UserBadgeUnassignedContent, UserBadgeUnassignedContentView, UserLocationContent,
    UserLocationContentView, UserUpdateContent, UserUpdateContentView,
};

verus! {

/// What is told outward of a change: one notification per change, each with
/// the name under which it is sent and the record it carries.
#[derive(Debug, Clone)]
pub enum Notification {
    /// The connection to the pipeline is open. Sent as `websocket-connected`.
    Connected,
    /// The connection to the pipeline has ended. Sent as `websocket-
    /// disconnected`.
    Disconnected,
    /// A notification came in. Sent as `vrchat-notification`.
    Notification(NotificationPayload),
    /// A notification was answered. Sent as `vrchat-notification-response`.
    NotificationResponse(ResponseNotificationContent),
    /// A notification was seen. Sent as `vrchat-notification-see`.
    NotificationSeen(String),
    /// A notification is to be hidden. Sent as `vrchat-notification-hide`.
    NotificationHidden(String),
    /// All notifications are to be cleared. Sent as `vrchat-notification-
    /// clear`.
    NotificationCleared,
    /// A notification of the second generation came in. Sent as `vrchat-
    /// notification-v2`.
    NotificationV2(NotificationV2Payload),
    /// A notification of the second generation changed. Sent as `vrchat-
    /// notification-v2-update`.
    NotificationV2Update(NotificationV2UpdatePayload),
    /// Notifications of the second generation are to be dropped. Sent as
    /// `vrchat-notification-v2-delete`.
    NotificationV2Delete(NotificationV2DeletePayload),
    /// A user became a friend. Sent as `friend-added`.
    FriendAdded(FriendUpdateEvent),
    /// A friend's record changed. Sent as `friend-update`.
    FriendUpdate(FriendUpdateEvent),
    /// A user is a friend no longer. Sent as `friend-removed`.
    FriendRemoved(FriendRemovedEvent),
    /// A friend came online. Sent as `friend-online`.
    FriendOnline(FriendOnlineEvent),
    /// A friend became active outside the game. Sent as `friend-active`.
    FriendActive(FriendOnlineEvent),
    /// A friend went offline. Sent as `friend-offline`.
    FriendOffline(FriendOfflineEvent),
    /// A friend moved. Sent as `friend-location`.
    FriendLocation(FriendLocationContent),
    /// The authenticated user's record changed. Sent as `user-update`.
    UserUpdate(UserUpdateContent),
    /// The authenticated user moved. Sent as `user-location`.
    UserLocation(UserLocationContent),
    /// The authenticated user got a badge. Sent as `user-badge-assigned`.
    UserBadgeAssigned(UserBadgeAssignedContent),
    /// The authenticated user lost a badge. Sent as `user-badge-unassigned`.
    UserBadgeUnassigned(UserBadgeUnassignedContent),
    /// Content of the authenticated user changed. Sent as `content-refresh`.
    ContentRefresh(ContentRefreshContent),
    /// An image was processed anew. Sent as `modified-image-update`.
    ModifiedImageUpdate(ModifiedImageUpdateContent),
    /// The authenticated user joined a queue. Sent as `instance-queue-joined`.
    InstanceQueueJoined(InstanceQueueJoinedContent),
    /// The authenticated user's turn in a queue came. Sent as `instance-queue-
    /// ready`.
    InstanceQueueReady(InstanceQueueReadyContent),
    /// The authenticated user joined a group. Sent as `group-joined`.
    GroupJoined(GroupChangedContent),
    /// The authenticated user left a group. Sent as `group-left`.
    GroupLeft(GroupChangedContent),
    /// A membership of a group changed. Sent as `group-member-updated`.
    GroupMemberUpdated(GroupMemberUpdatedContent),
    /// A role of a group changed. Sent as `group-role-updated`.
    GroupRoleUpdated(GroupRoleUpdatedContent),
}

/// The mathematical value of a [`Notification`].
pub enum NotificationView {
    Connected,
    Disconnected,
    Notification(NotificationPayloadView),
    NotificationResponse(ResponseNotificationContentView),
    NotificationSeen(Seq<char>),
    NotificationHidden(Seq<char>),
    NotificationCleared,
    NotificationV2(NotificationV2PayloadView),
    NotificationV2Update(NotificationV2UpdatePayloadView),
    NotificationV2Delete(NotificationV2DeletePayloadView),
    FriendAdded(FriendUpdateEventView),
    FriendUpdate(FriendUpdateEventView),
    FriendRemoved(FriendRemovedEventView),
    FriendOnline(FriendOnlineEventView),
    FriendActive(FriendOnlineEventView),
    FriendOffline(FriendOfflineEventView),
    FriendLocation(FriendLocationContentView),
    UserUpdate(UserUpdateContentView),
    UserLocation(UserLocationContentView),
    UserBadgeAssigned(UserBadgeAssignedContentView),
    UserBadgeUnassigned(UserBadgeUnassignedContentView),
    ContentRefresh(ContentRefreshContentView),
    ModifiedImageUpdate(ModifiedImageUpdateContentView),
    InstanceQueueJoined(InstanceQueueJoinedContentView),
    InstanceQueueReady(InstanceQueueReadyContentView),
    GroupJoined(GroupChangedContentView),
    GroupLeft(GroupChangedContentView),
    GroupMemberUpdated(GroupMemberUpdatedContentView),
    GroupRoleUpdated(GroupRoleUpdatedContentView),
}

impl View for Notification {
    type V = NotificationView;

    open spec fn view(&self) -> NotificationView {
        match self {
            Notification::Connected => NotificationView::Connected,
            Notification::Disconnected => NotificationView::Disconnected,
            Notification::Notification(p) => NotificationView::Notification(p@),
            Notification::NotificationResponse(p) => NotificationView::NotificationResponse(p@),
            Notification::NotificationSeen(p) => NotificationView::NotificationSeen(p@),
            Notification::NotificationHidden(p) => NotificationView::NotificationHidden(p@),
            Notification::NotificationCleared => NotificationView::NotificationCleared,
            Notification::NotificationV2(p) => NotificationView::NotificationV2(p@),
            Notification::NotificationV2Update(p) => NotificationView::NotificationV2Update(p@),
            Notification::NotificationV2Delete(p) => NotificationView::NotificationV2Delete(p@),
            Notification::FriendAdded(p) => NotificationView::FriendAdded(p@),
            Notification::FriendUpdate(p) => NotificationView::FriendUpdate(p@),
            Notification::FriendRemoved(p) => NotificationView::FriendRemoved(p@),
            Notification::FriendOnline(p) => NotificationView::FriendOnline(p@),
            Notification::FriendActive(p) => NotificationView::FriendActive(p@),
            Notification::FriendOffline(p) => NotificationView::FriendOffline(p@),
            Notification::FriendLocation(p) => NotificationView::FriendLocation(p@),
            Notification::UserUpdate(p) => NotificationView::UserUpdate(p@),
            Notification::UserLocation(p) => NotificationView::UserLocation(p@),
            Notification::UserBadgeAssigned(p) => NotificationView::UserBadgeAssigned(p@),
            Notification::UserBadgeUnassigned(p) => NotificationView::UserBadgeUnassigned(p@),
            Notification::ContentRefresh(p) => NotificationView::ContentRefresh(p@),
            Notification::ModifiedImageUpdate(p) => NotificationView::ModifiedImageUpdate(p@),
            Notification::InstanceQueueJoined(p) => NotificationView::InstanceQueueJoined(p@),
            Notification::InstanceQueueReady(p) => NotificationView::InstanceQueueReady(p@),
            Notification::GroupJoined(p) => NotificationView::GroupJoined(p@),
            Notification::GroupLeft(p) => NotificationView::GroupLeft(p@),
            Notification::GroupMemberUpdated(p) => NotificationView::GroupMemberUpdated(p@),
            Notification::GroupRoleUpdated(p) => NotificationView::GroupRoleUpdated(p@),
        }
    }
}

impl NotificationView {
    /// The name under which the notification is sent.
    pub open spec fn name(self) -> Seq<char> {
        match self {
            NotificationView::Connected => "websocket-connected"@,
            NotificationView::Disconnected => "websocket-disconnected"@,
            NotificationView::Notification(_) => "vrchat-notification"@,
            NotificationView::NotificationResponse(_) => "vrchat-notification-response"@,
            NotificationView::NotificationSeen(_) => "vrchat-notification-see"@,
            NotificationView::NotificationHidden(_) => "vrchat-notification-hide"@,
            NotificationView::NotificationCleared => "vrchat-notification-clear"@,
            NotificationView::NotificationV2(_) => "vrchat-notification-v2"@,
            NotificationView::NotificationV2Update(_) => "vrchat-notification-v2-update"@,
            NotificationView::NotificationV2Delete(_) => "vrchat-notification-v2-delete"@,
            NotificationView::FriendAdded(_) => "friend-added"@,
            NotificationView::FriendUpdate(_) => "friend-update"@,
            NotificationView::FriendRemoved(_) => "friend-removed"@,
            NotificationView::FriendOnline(_) => "friend-online"@,
            NotificationView::FriendActive(_) => "friend-active"@,
            NotificationView::FriendOffline(_) => "friend-offline"@,
            NotificationView::FriendLocation(_) => "friend-location"@,
            NotificationView::UserUpdate(_) => "user-update"@,
            NotificationView::UserLocation(_) => "user-location"@,
            NotificationView::UserBadgeAssigned(_) => "user-badge-assigned"@,
            NotificationView::UserBadgeUnassigned(_) => "user-badge-unassigned"@,
            NotificationView::ContentRefresh(_) => "content-refresh"@,
            NotificationView::ModifiedImageUpdate(_) => "modified-image-update"@,
            NotificationView::InstanceQueueJoined(_) => "instance-queue-joined"@,
            NotificationView::InstanceQueueReady(_) => "instance-queue-ready"@,
            NotificationView::GroupJoined(_) => "group-joined"@,
            NotificationView::GroupLeft(_) => "group-left"@,
            NotificationView::GroupMemberUpdated(_) => "group-member-updated"@,
            NotificationView::GroupRoleUpdated(_) => "group-role-updated"@,
        }
    }
}

impl Notification {
    /// The name under which the notification is sent.
    pub fn name(&self) -> (r: &'static str)
        ensures
            r@ == self@.name(),
    {
        match self {
            Notification::Connected => "websocket-connected",
            Notification::Disconnected => "websocket-disconnected",
            Notification::Notification(_) => "vrchat-notification",
            Notification::NotificationResponse(_) => "vrchat-notification-response",
            Notification::NotificationSeen(_) => "vrchat-notification-see",
            Notification::NotificationHidden(_) => "vrchat-notification-hide",
            Notification::NotificationCleared => "vrchat-notification-clear",
            Notification::NotificationV2(_) => "vrchat-notification-v2",
            Notification::NotificationV2Update(_) => "vrchat-notification-v2-update",
            Notification::NotificationV2Delete(_) => "vrchat-notification-v2-delete",
            Notification::FriendAdded(_) => "friend-added",
            Notification::FriendUpdate(_) => "friend-update",
            Notification::FriendRemoved(_) => "friend-removed",
            Notification::FriendOnline(_) => "friend-online",
            Notification::FriendActive(_) => "friend-active",
            Notification::FriendOffline(_) => "friend-offline",
            Notification::FriendLocation(_) => "friend-location",
            Notification::UserUpdate(_) => "user-update",
            Notification::UserLocation(_) => "user-location",
            Notification::UserBadgeAssigned(_) => "user-badge-assigned",
            Notification::UserBadgeUnassigned(_) => "user-badge-unassigned",
            Notification::ContentRefresh(_) => "content-refresh",
            Notification::ModifiedImageUpdate(_) => "modified-image-update",
            Notification::InstanceQueueJoined(_) => "instance-queue-joined",
            Notification::InstanceQueueReady(_) => "instance-queue-ready",
            Notification::GroupJoined(_) => "group-joined",
            Notification::GroupLeft(_) => "group-left",
            Notification::GroupMemberUpdated(_) => "group-member-updated",
            Notification::GroupRoleUpdated(_) => "group-role-updated",
        }
    }
}

impl PipelineUserSummaryView {
    /// The update of the authenticated user's record that the summary asks
    /// for.
    pub open spec fn patch(self) -> CurrentUserPipelineUpdateView {
        CurrentUserPipelineUpdateView {
            id: self.id,
            display_name: self.display_name,
            username: self.username,
            status: self.status,
            status_description: self.status_description,
            bio: self.bio,
            user_icon: self.user_icon,
            profile_pic_override: self.profile_pic_override,
            profile_pic_override_thumbnail: self.profile_pic_override_thumbnail_image_url,
            current_avatar: self.current_avatar,
            current_avatar_asset_url: self.current_avatar_asset_url,
            current_avatar_image_url: self.current_avatar_image_url,
            current_avatar_thumbnail_image_url: self.current_avatar_thumbnail_image_url,
            fallback_avatar: self.fallback_avatar,
            tags: self.tags,
        }
    }
}

impl PipelineUserSummary {
    /// The update of the authenticated user's record that the summary asks
    /// for.
    pub fn patch(&self) -> (r: CurrentUserPipelineUpdate)
        ensures
            r@ == self@.patch(),
    {
        CurrentUserPipelineUpdate {
            id: self.id.clone(),
            display_name: self.display_name.clone(),
            username: self.username.clone(),
            status: self.status.clone(),
            status_description: self.status_description.clone(),
            bio: self.bio.clone(),
            user_icon: self.user_icon.clone(),
            profile_pic_override: self.profile_pic_override.clone(),
            profile_pic_override_thumbnail: self.profile_pic_override_thumbnail_image_url.clone(),
            current_avatar: self.current_avatar.clone(),
            current_avatar_asset_url: self.current_avatar_asset_url.clone(),
            current_avatar_image_url: self.current_avatar_image_url.clone(),
            current_avatar_thumbnail_image_url: self.current_avatar_thumbnail_image_url.clone(),
            fallback_avatar: self.fallback_avatar.clone(),
            tags: clone_strings(&self.tags),
        }
    }
}

/// The platform that a friend record names.
pub open spec fn platform_of(user: Option<LimitedUserFriendView>) -> Option<Seq<char>> {
    match user {
        Some(u) => Some(u.platform),
        None => None,
    }
}

impl UserStoreView {
    /// The cache after a user moved: the friend record that came with the
    /// move is merged first, where one came; then the user is at `location`,
    /// on the platform of that record.
    pub open spec fn relocate(
        self,
        user_id: Seq<char>,
        location: Seq<char>,
        user: Option<LimitedUserFriendView>,
        now: u64,
    ) -> UserStoreView {
        let merged = match user {
            Some(u) => self.upsert_friend(u, now),
            None => self,
        };
        merged.update_user_location(user_id, location, platform_of(user), now)
    }

    /// The cache after an event of the pipeline.
    pub open spec fn after(self, message: WebSocketMessageView, now: u64) -> UserStoreView {
        match message {
            WebSocketMessageView::FriendAdd(c) => self.upsert_friend(c.user, now),
            WebSocketMessageView::FriendDelete(c) => self.remove_friend(c.user_id, now),
            WebSocketMessageView::FriendUpdate(c) => self.upsert_friend(c.user, now),
            WebSocketMessageView::FriendOnline(c) => match c.location {
                Some(location) => self.upsert_friend(c.user, now).update_user_location(
                    c.user_id,
                    location,
                    c.platform,
                    now,
                ),
                None => self.upsert_friend(c.user, now),
            },
            WebSocketMessageView::FriendActive(c) => self.upsert_friend(c.user, now),
            WebSocketMessageView::FriendOffline(c) => self.set_friend_offline(c.user_id, now),
            WebSocketMessageView::FriendLocation(c) => self.relocate(
                c.user_id,
                c.location,
                c.user,
                now,
            ),
            WebSocketMessageView::UserUpdate(c) => self.apply_current_user_update(
                c.user.patch(),
                now,
            ),
            WebSocketMessageView::UserLocation(c) => self.relocate(
                c.user_id,
                c.location,
                c.user,
                now,
            ),
            _ => self,
        }
    }
}

/// What is told outward of an event of the pipeline, in the order of sending.
///
/// A new friend is told as added and as updated, a friend who became active
/// as active and as online; an event of a kind that is not known is told of
/// in no way.
pub open spec fn spec_notifications(message: WebSocketMessageView) -> Seq<NotificationView> {
    match message {
        WebSocketMessageView::Notification(p) => seq![NotificationView::Notification(p)],
        WebSocketMessageView::ResponseNotification(p) => seq![
            NotificationView::NotificationResponse(p),
        ],
        WebSocketMessageView::SeeNotification(p) => seq![NotificationView::NotificationSeen(p)],
        WebSocketMessageView::HideNotification(p) => seq![NotificationView::NotificationHidden(p)],
        WebSocketMessageView::NotificationV2(p) => seq![NotificationView::NotificationV2(p)],
        WebSocketMessageView::NotificationV2Update(p) => seq![
            NotificationView::NotificationV2Update(p),
        ],
        WebSocketMessageView::NotificationV2Delete(p) => seq![
            NotificationView::NotificationV2Delete(p),
        ],
        WebSocketMessageView::UserBadgeAssigned(p) => seq![NotificationView::UserBadgeAssigned(p)],
        WebSocketMessageView::UserBadgeUnassigned(p) => seq![
            NotificationView::UserBadgeUnassigned(p),
        ],
        WebSocketMessageView::ContentRefresh(p) => seq![NotificationView::ContentRefresh(p)],
        WebSocketMessageView::ModifiedImageUpdate(p) => seq![
            NotificationView::ModifiedImageUpdate(p),
        ],
        WebSocketMessageView::InstanceQueueJoined(p) => seq![
            NotificationView::InstanceQueueJoined(p),
        ],
        WebSocketMessageView::InstanceQueueReady(p) => seq![
            NotificationView::InstanceQueueReady(p),
        ],
        WebSocketMessageView::GroupJoined(p) => seq![NotificationView::GroupJoined(p)],
        WebSocketMessageView::GroupLeft(p) => seq![NotificationView::GroupLeft(p)],
        WebSocketMessageView::GroupMemberUpdated(p) => seq![
            NotificationView::GroupMemberUpdated(p),
        ],
        WebSocketMessageView::GroupRoleUpdated(p) => seq![NotificationView::GroupRoleUpdated(p)],
        WebSocketMessageView::ClearNotification => seq![NotificationView::NotificationCleared],
        WebSocketMessageView::FriendAdd(c) => seq![
            NotificationView::FriendAdded(
                FriendUpdateEventView { user_id: c.user_id, user: c.user },
            ),
            NotificationView::FriendUpdate(
                FriendUpdateEventView { user_id: c.user_id, user: c.user },
            ),
        ],
        WebSocketMessageView::FriendDelete(c) => seq![
            NotificationView::FriendRemoved(FriendRemovedEventView { user_id: c.user_id }),
        ],
        WebSocketMessageView::FriendUpdate(c) => seq![
            NotificationView::FriendUpdate(
                FriendUpdateEventView { user_id: c.user_id, user: c.user },
            ),
        ],
        WebSocketMessageView::FriendOnline(c) => seq![
            NotificationView::FriendOnline(
                FriendOnlineEventView { user_id: c.user_id, user: c.user },
            ),
        ],
        WebSocketMessageView::FriendActive(c) => seq![
            NotificationView::FriendActive(
                FriendOnlineEventView { user_id: c.user_id, user: c.user },
            ),
            NotificationView::FriendOnline(
                FriendOnlineEventView { user_id: c.user_id, user: c.user },
            ),
        ],
        WebSocketMessageView::FriendOffline(c) => seq![
            NotificationView::FriendOffline(FriendOfflineEventView { user_id: c.user_id }),
        ],
        WebSocketMessageView::FriendLocation(c) => seq![NotificationView::FriendLocation(c)],
        WebSocketMessageView::UserUpdate(c) => seq![NotificationView::UserUpdate(c)],
        WebSocketMessageView::UserLocation(c) => seq![NotificationView::UserLocation(c)],
        WebSocketMessageView::Unknown => Seq::empty(),
    }
}

/// A copy of an optional friend record.
fn clone_friend(user: &Option<LimitedUserFriend>) -> (r: Option<LimitedUserFriend>)
    ensures
        view_opt(r) == view_opt(*user),
{
    match user {
        Some(u) => Some(u.clone()),
        None => None,
    }
}

/// The platform that a friend record names.
fn platform_name_of(user: &Option<LimitedUserFriend>) -> (r: Option<String>)
    ensures
        view_opt(r) == platform_of(view_opt(*user)),
{
    match user {
        Some(u) => Some(u.platform.clone()),
        None => None,
    }
}

/// Moves a user in the cache, after merging the friend record that came with
/// the move.
fn relocate(
    store: &mut UserStore,
    user_id: &String,
    location: &String,
    user: &Option<LimitedUserFriend>,
    now: u64,
)
    requires
        old(store).wf(),
    ensures
        final(store).wf(),
        final(store)@ == old(store)@.relocate(user_id@, location@, view_opt(*user), now),
{
    match clone_friend(user) {
        Some(u) => {
            store.upsert_friend(u, now);
        },
        None => {},
    }
    store.update_user_location(user_id.as_str(), location.clone(), platform_name_of(user), now);
}

/// A list of one notification.
fn one(note: Notification) -> (r: Vec<Notification>)
    ensures
        view_seq(r@) == seq![note@],
{
    let mut out: Vec<Notification> = Vec::new();
    out.push(note);
    assert(view_seq(out@) =~= seq![note@]);
    out
}

/// A list of two notifications.
fn two(first: Notification, second: Notification) -> (r: Vec<Notification>)
    ensures
        view_seq(r@) == seq![first@, second@],
{
    let mut out: Vec<Notification> = Vec::new();
    out.push(first);
    out.push(second);
    assert(view_seq(out@) =~= seq![first@, second@]);
    out
}

/// A user became a friend: merged into the cache, and told as added and as
/// updated.
fn on_friend_add(
    content: FriendAddContent,
    store: &mut UserStore,
    now: u64,
) -> (r: Vec<Notification>)
    requires
        old(store).wf(),
    ensures
        final(store).wf(),
        final(store)@ == old(store)@.after(WebSocketMessageView::FriendAdd(content@), now),
        view_seq(r@) == spec_notifications(WebSocketMessageView::FriendAdd(content@)),
{
    store.upsert_friend(content.user.clone(), now);
    let added = FriendUpdateEvent {
        user_id: content.user_id.clone(),
        user: content.user.clone(),
    };
    let updated = FriendUpdateEvent { user_id: content.user_id, user: content.user };
    two(Notification::FriendAdded(added), Notification::FriendUpdate(updated))
}

/// A user is a friend no longer: demoted in the cache, and told as removed.
fn on_friend_delete(
    content: FriendDeleteContent,
    store: &mut UserStore,
    now: u64,
) -> (r: Vec<Notification>)
    requires
        old(store).wf(),
    ensures
        final(store).wf(),
        final(store)@ == old(store)@.after(WebSocketMessageView::FriendDelete(content@), now),
        view_seq(r@) == spec_notifications(WebSocketMessageView::FriendDelete(content@)),
{
    store.remove_friend(content.user_id.as_str(), now);
    one(Notification::FriendRemoved(FriendRemovedEvent { user_id: content.user_id }))
}

/// A friend changed their record: merged into the cache, and told as updated.
fn on_friend_update(
    content: FriendUpdateContent,
    store: &mut UserStore,
    now: u64,
) -> (r: Vec<Notification>)
    requires
        old(store).wf(),
    ensures
        final(store).wf(),
        final(store)@ == old(store)@.after(WebSocketMessageView::FriendUpdate(content@), now),
        view_seq(r@) == spec_notifications(WebSocketMessageView::FriendUpdate(content@)),
{
    store.upsert_friend(content.user.clone(), now);
    let updated = FriendUpdateEvent { user_id: content.user_id, user: content.user };
    one(Notification::FriendUpdate(updated))
}

/// A friend came online: merged into the cache, moved to the location that came
/// with the event, and told as online.
fn on_friend_online(
    content: FriendOnlineContent,
    store: &mut UserStore,
    now: u64,
) -> (r: Vec<Notification>)
    requires
        old(store).wf(),
    ensures
        final(store).wf(),
        final(store)@ == old(store)@.after(WebSocketMessageView::FriendOnline(content@), now),
        view_seq(r@) == spec_notifications(WebSocketMessageView::FriendOnline(content@)),
{
    store.upsert_friend(content.user.clone(), now);
    match &content.location {
        Some(location) => {
            store.update_user_location(
                content.user_id.as_str(),
                location.clone(),
                content.platform.clone(),
                now,
            );
        },
        None => {},
    }
    let online = FriendOnlineEvent { user_id: content.user_id, user: content.user };
    one(Notification::FriendOnline(online))
}

/// A friend became active: merged into the cache, and told as active and as
/// online.
fn on_friend_active(
    content: FriendActiveContent,
    store: &mut UserStore,
    now: u64,
) -> (r: Vec<Notification>)
    requires
        old(store).wf(),
    ensures
        final(store).wf(),
        final(store)@ == old(store)@.after(WebSocketMessageView::FriendActive(content@), now),
        view_seq(r@) == spec_notifications(WebSocketMessageView::FriendActive(content@)),
{
    store.upsert_friend(content.user.clone(), now);
    let active = FriendOnlineEvent {
        user_id: content.user_id.clone(),
        user: content.user.clone(),
    };
    let online = FriendOnlineEvent { user_id: content.user_id, user: content.user };
    two(Notification::FriendActive(active), Notification::FriendOnline(online))
}

/// A friend went offline: marked in the cache, and told as offline.
fn on_friend_offline(
    content: FriendOfflineContent,
    store: &mut UserStore,
    now: u64,
) -> (r: Vec<Notification>)
    requires
        old(store).wf(),
    ensures
        final(store).wf(),
        final(store)@ == old(store)@.after(WebSocketMessageView::FriendOffline(content@), now),
        view_seq(r@) == spec_notifications(WebSocketMessageView::FriendOffline(content@)),
{
    store.set_friend_offline(content.user_id.as_str(), now);
    one(Notification::FriendOffline(FriendOfflineEvent { user_id: content.user_id }))
}

/// A friend moved: moved in the cache, and told with the event as it came.
fn on_friend_location(
    content: FriendLocationContent,
    store: &mut UserStore,
    now: u64,
) -> (r: Vec<Notification>)
    requires
        old(store).wf(),
    ensures
        final(store).wf(),
        final(store)@ == old(store)@.after(WebSocketMessageView::FriendLocation(content@), now),
        view_seq(r@) == spec_notifications(WebSocketMessageView::FriendLocation(content@)),
{
    relocate(store, &content.user_id, &content.location, &content.user, now);
    one(Notification::FriendLocation(content))
}

/// The authenticated user changed their record: patched in the cache, and told
/// with the event as it came.
fn on_user_update(
    content: UserUpdateContent,
    store: &mut UserStore,
    now: u64,
) -> (r: Vec<Notification>)
    requires
        old(store).wf(),
    ensures
        final(store).wf(),
        final(store)@ == old(store)@.after(WebSocketMessageView::UserUpdate(content@), now),
        view_seq(r@) == spec_notifications(WebSocketMessageView::UserUpdate(content@)),
{
    store.apply_current_user_update(content.user.patch(), now);
    one(Notification::UserUpdate(content))
}

/// The authenticated user moved: moved in the cache, and told with the event as
/// it came.
fn on_user_location(
    content: UserLocationContent,
    store: &mut UserStore,
    now: u64,
) -> (r: Vec<Notification>)
    requires
        old(store).wf(),
    ensures
        final(store).wf(),
        final(store)@ == old(store)@.after(WebSocketMessageView::UserLocation(content@), now),
        view_seq(r@) == spec_notifications(WebSocketMessageView::UserLocation(content@)),
{
    relocate(store, &content.user_id, &content.location, &content.user, now);
    one(Notification::UserLocation(content))
}

/// Applies an event of the pipeline to the cache and says what to tell
/// outward of it.
///
/// `now` is the reading of the clock that the touched entries are stamped
/// with.
pub fn dispatch(message: WebSocketMessage, store: &mut UserStore, now: u64) -> (r: Vec<
    Notification,
>)
    requires
        old(store).wf(),
    ensures
        final(store).wf(),
        final(store)@ == old(store)@.after(message@, now),
        view_seq(r@) == spec_notifications(message@),
{
    match message {
        WebSocketMessage::Notification(p) => one(Notification::Notification(p.into_inner())),
        WebSocketMessage::ResponseNotification(p) => one(
            Notification::NotificationResponse(p.into_inner()),
        ),
        WebSocketMessage::SeeNotification(p) => one(Notification::NotificationSeen(p.into_inner())),
        WebSocketMessage::HideNotification(p) => one(
            Notification::NotificationHidden(p.into_inner()),
        ),
        WebSocketMessage::NotificationV2(p) => one(Notification::NotificationV2(p.into_inner())),
        WebSocketMessage::NotificationV2Update(p) => one(
            Notification::NotificationV2Update(p.into_inner()),
        ),
        WebSocketMessage::NotificationV2Delete(p) => one(
            Notification::NotificationV2Delete(p.into_inner()),
        ),
        WebSocketMessage::UserBadgeAssigned(p) => one(
            Notification::UserBadgeAssigned(p.into_inner()),
        ),
        WebSocketMessage::UserBadgeUnassigned(p) => one(
            Notification::UserBadgeUnassigned(p.into_inner()),
        ),
        WebSocketMessage::ContentRefresh(p) => one(Notification::ContentRefresh(p.into_inner())),
        WebSocketMessage::ModifiedImageUpdate(p) => one(
            Notification::ModifiedImageUpdate(p.into_inner()),
        ),
        WebSocketMessage::InstanceQueueJoined(p) => one(
            Notification::InstanceQueueJoined(p.into_inner()),
        ),
        WebSocketMessage::InstanceQueueReady(p) => one(
            Notification::InstanceQueueReady(p.into_inner()),
        ),
        WebSocketMessage::GroupJoined(p) => one(Notification::GroupJoined(p.into_inner())),
        WebSocketMessage::GroupLeft(p) => one(Notification::GroupLeft(p.into_inner())),
        WebSocketMessage::GroupMemberUpdated(p) => one(
            Notification::GroupMemberUpdated(p.into_inner()),
        ),
        WebSocketMessage::GroupRoleUpdated(p) => one(
            Notification::GroupRoleUpdated(p.into_inner()),
        ),
        WebSocketMessage::ClearNotification => one(Notification::NotificationCleared),
        WebSocketMessage::FriendAdd(p) => on_friend_add(p.into_inner(), store, now),
        WebSocketMessage::FriendDelete(p) => on_friend_delete(p.into_inner(), store, now),
        WebSocketMessage::FriendUpdate(p) => on_friend_update(p.into_inner(), store, now),
        WebSocketMessage::FriendOnline(p) => on_friend_online(p.into_inner(), store, now),
        WebSocketMessage::FriendActive(p) => on_friend_active(p.into_inner(), store, now),
        WebSocketMessage::FriendOffline(p) => on_friend_offline(p.into_inner(), store, now),
        WebSocketMessage::FriendLocation(p) => on_friend_location(p.into_inner(), store, now),
        WebSocketMessage::UserUpdate(p) => on_user_update(p.into_inner(), store, now),
        WebSocketMessage::UserLocation(p) => on_user_location(p.into_inner(), store, now),
        WebSocketMessage::Unknown => {
            let out: Vec<Notification> = Vec::new();
            assert(view_seq(out@) =~= Seq::<NotificationView>::empty());
            out
        },
    }
}

/// What a frame does: the cache after it and what is told outward of it, or
/// why the frame does not decode. A frame that does not decode leaves the
/// cache as it is.
pub open spec fn spec_handle_message(text: Seq<char>, store: UserStoreView, now: u64) -> Result<
    (UserStoreView, Seq<NotificationView>),
    DecodeErrorView,
> {
    match spec_decode_message(text) {
        Ok(message) => Ok((store.after(message, now), spec_notifications(message))),
        Err(e) => Err(e),
    }
}

/// Decodes a frame of the pipeline and dispatches its event.
///
/// A frame that does not decode changes nothing: the error says why, and the
/// connection can go on with the next frame.
pub fn handle_message(text: &str, store: &mut UserStore, now: u64) -> (r: Result<
    Vec<Notification>,
    DecodeError,
>)
    requires
        old(store).wf(),
    ensures
        final(store).wf(),
        match r {
            Ok(notes) => spec_handle_message(text@, old(store)@, now) == Ok::<
                (UserStoreView, Seq<NotificationView>),
                DecodeErrorView,
            >((final(store)@, view_seq(notes@))),
            Err(e) => spec_handle_message(text@, old(store)@, now) == Err::<
                (UserStoreView, Seq<NotificationView>),
                DecodeErrorView,
            >(e@) && final(store)@ == old(store)@,
        },
{
    match decode_message(text) {
        Ok(message) => Ok(dispatch(message, store, now)),
        Err(e) => Err(e),
    }
}

} // verus!
