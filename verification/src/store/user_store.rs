//! The relationship cache: what is known of each user, keyed by user id, and
//! which of them is the authenticated user.
//!
//! Time enters as a number of seconds on a clock that never runs backwards;
//! the caller reads the clock and hands the reading in.

use vstd::prelude::*;
use crate::text::{
    chars_contain, lowercase, occurs_in, str_chars, str_eq, str_to_lowercase,
};
use crate::views::{clone_strings, view_opt, view_seq};
use crate::vrchat_api::types::enums::UserStatus;
use crate::vrchat_api::types::user::{LimitedUserFriend, LimitedUserFriendView, User, UserView};

verus! {

/// How a cached user stands to the authenticated user.
#[derive(Debug, Clone, Copy, PartialEq, Eq, Structural)]
pub enum UserRelationship {
    CurrentUser,
    Friend,
    Known,
    Unknown,
}

/// The platform a user is on.
#[derive(Debug, Clone, PartialEq, Eq)]
pub enum Platform {
    StandaloneWindows,
    Android,
    Web,
    Other(String),
}

/// The mathematical value of a [`Platform`].
pub enum PlatformView {
    StandaloneWindows,
    Android,
    Web,
    Other(Seq<char>),
}

impl View for Platform {
    type V = PlatformView;

    open spec fn view(&self) -> PlatformView {
        match self {
            Platform::StandaloneWindows => PlatformView::StandaloneWindows,
            Platform::Android => PlatformView::Android,
            Platform::Web => PlatformView::Web,
            Platform::Other(name) => PlatformView::Other(name@),
        }
    }
}

impl PlatformView {
    /// The platform that a name on the wire stands for.
    pub open spec fn parse(name: Seq<char>) -> PlatformView {
        if name == "standalonewindows"@ {
            PlatformView::StandaloneWindows
        } else if name == "android"@ {
            PlatformView::Android
        } else if name == "web"@ {
            PlatformView::Web
        } else {
            PlatformView::Other(name)
        }
    }

    /// The name of the platform on the wire; a platform without a name of its
    /// own keeps the text it was read from.
    pub open spec fn name(self) -> Seq<char> {
        match self {
            PlatformView::StandaloneWindows => "standalonewindows"@,
            PlatformView::Android => "android"@,
            PlatformView::Web => "web"@,
            PlatformView::Other(name) => name,
        }
    }
}

/// The status that a status name of the pipeline stands for: an unknown name
/// counts as offline.
pub open spec fn spec_parse_user_status(status: Seq<char>) -> UserStatus {
    match UserStatus::named(status) {
        Some(s) => s,
        None => UserStatus::Offline,
    }
}

/// Reads a status name of the pipeline; an unknown name counts as offline.
pub fn parse_user_status(status: &str) -> (r: UserStatus)
    ensures
        r == spec_parse_user_status(status@),
{
    match UserStatus::from_name(status) {
        Some(s) => s,
        None => UserStatus::Offline,
    }
}

/// Reads a platform name.
pub fn parse_platform(platform: &str) -> (r: Platform)
    ensures
        r@ == PlatformView::parse(platform@),
{
    if str_eq(platform, "standalonewindows") {
        Platform::StandaloneWindows
    } else if str_eq(platform, "android") {
        Platform::Android
    } else if str_eq(platform, "web") {
        Platform::Web
    } else {
        Platform::Other(platform.to_string())
    }
}

/// The name of a platform on the wire.
pub fn platform_name(platform: &Platform) -> (r: String)
    ensures
        r@ == platform@.name(),
{
    match platform {
        Platform::StandaloneWindows => "standalonewindows".to_string(),
        Platform::Android => "android".to_string(),
        Platform::Web => "web".to_string(),
        Platform::Other(name) => name.clone(),
    }
}

/// What the cache holds of one user.
///
/// `location` is `"offline"`, `"private"`, empty or absent exactly when the
/// user does not count as online.
#[derive(Debug, Clone)]
pub struct CachedUser {
    pub id: String,
    pub display_name: String,
    /// Known for the authenticated user and from a profile that carried one.
    pub username: Option<String>,
    pub user_icon: Option<String>,
    pub profile_pic_override: Option<String>,
    pub profile_pic_override_thumbnail: Option<String>,
    pub current_avatar_image_url: Option<String>,
    pub current_avatar_thumbnail_image_url: Option<String>,
    pub bio: Option<String>,
    pub status: Option<UserStatus>,
    pub status_description: Option<String>,
    pub location: Option<String>,
    pub platform: Option<Platform>,
    pub relationship: UserRelationship,
    /// The full profile, where one was fetched.
    pub full_user: Option<User>,
    /// The friend record, where the user came in as a friend.
    pub friend_data: Option<LimitedUserFriend>,
    /// The clock's reading when the entry was last written.
    pub last_updated: u64,
}

/// The mathematical value of a [`CachedUser`].
pub struct CachedUserView {
    pub id: Seq<char>,
    pub display_name: Seq<char>,
    pub username: Option<Seq<char>>,
    pub user_icon: Option<Seq<char>>,
    pub profile_pic_override: Option<Seq<char>>,
    pub profile_pic_override_thumbnail: Option<Seq<char>>,
    pub current_avatar_image_url: Option<Seq<char>>,
    pub current_avatar_thumbnail_image_url: Option<Seq<char>>,
    pub bio: Option<Seq<char>>,
    pub status: Option<UserStatus>,
    pub status_description: Option<Seq<char>>,
    pub location: Option<Seq<char>>,
    pub platform: Option<PlatformView>,
    pub relationship: UserRelationship,
    pub full_user: Option<UserView>,
    pub friend_data: Option<LimitedUserFriendView>,
    pub last_updated: u64,
}

impl View for CachedUser {
    type V = CachedUserView;

    open spec fn view(&self) -> CachedUserView {
        CachedUserView {
            id: self.id@,
            display_name: self.display_name@,
            username: view_opt(self.username),
            user_icon: view_opt(self.user_icon),
            profile_pic_override: view_opt(self.profile_pic_override),
            profile_pic_override_thumbnail: view_opt(self.profile_pic_override_thumbnail),
            current_avatar_image_url: view_opt(self.current_avatar_image_url),
            current_avatar_thumbnail_image_url: view_opt(self.current_avatar_thumbnail_image_url),
            bio: view_opt(self.bio),
            status: self.status,
            status_description: view_opt(self.status_description),
            location: view_opt(self.location),
            platform: view_opt(self.platform),
            relationship: self.relationship,
            full_user: view_opt(self.full_user),
            friend_data: view_opt(self.friend_data),
            last_updated: self.last_updated,
        }
    }
}

/// Whether a location puts a user online: any text but `"offline"`,
/// `"private"` and the empty one.
pub open spec fn location_is_online(location: Option<Seq<char>>) -> bool {
    match location {
        Some(l) => l != "offline"@ && l != "private"@ && l.len() != 0,
        None => false,
    }
}

impl CachedUserView {
    /// The entry made for a friend seen for the first time.
    pub open spec fn from_friend(friend: LimitedUserFriendView, now: u64) -> CachedUserView {
        CachedUserView {
            id: friend.id,
            display_name: friend.display_name,
            username: None,
            user_icon: friend.user_icon,
            profile_pic_override: friend.profile_pic_override,
            profile_pic_override_thumbnail: friend.profile_pic_override_thumbnail,
            current_avatar_image_url: friend.current_avatar_image_url,
            current_avatar_thumbnail_image_url: friend.current_avatar_thumbnail_image_url,
            bio: Some(friend.bio),
            status: Some(friend.status),
            status_description: Some(friend.status_description),
            location: friend.location,
            platform: Some(PlatformView::parse(friend.platform)),
            relationship: UserRelationship::Friend,
            full_user: None,
            friend_data: Some(friend),
            last_updated: now,
        }
    }

    /// The entry made for a full profile seen for the first time. An empty
    /// username counts as none.
    pub open spec fn from_user(
        user: UserView,
        relationship: UserRelationship,
        now: u64,
    ) -> CachedUserView {
        CachedUserView {
            id: user.id,
            display_name: user.display_name,
            username: if user.username.len() == 0 {
                None
            } else {
                Some(user.username)
            },
            user_icon: user.user_icon,
            profile_pic_override: user.profile_pic_override,
            profile_pic_override_thumbnail: user.profile_pic_override_thumbnail,
            current_avatar_image_url: user.current_avatar_image_url,
            current_avatar_thumbnail_image_url: user.current_avatar_thumbnail_image_url,
            bio: Some(user.bio),
            status: Some(user.status),
            status_description: Some(user.status_description),
            location: user.location,
            platform: Some(PlatformView::parse(user.platform)),
            relationship,
            full_user: Some(user),
            friend_data: None,
            last_updated: now,
        }
    }

    /// The entry after a friend record was merged into it: what the record
    /// carries is overwritten, the id, the username, the relationship and the
    /// full profile stay.
    pub open spec fn update_from_friend(
        self,
        friend: LimitedUserFriendView,
        now: u64,
    ) -> CachedUserView {
        CachedUserView {
            display_name: friend.display_name,
            user_icon: friend.user_icon,
            profile_pic_override: friend.profile_pic_override,
            profile_pic_override_thumbnail: friend.profile_pic_override_thumbnail,
            current_avatar_image_url: friend.current_avatar_image_url,
            current_avatar_thumbnail_image_url: friend.current_avatar_thumbnail_image_url,
            bio: Some(friend.bio),
            status: Some(friend.status),
            status_description: Some(friend.status_description),
            location: friend.location,
            platform: Some(PlatformView::parse(friend.platform)),
            friend_data: Some(friend),
            last_updated: now,
            ..self
        }
    }

    /// Whether the user counts as online.
    pub open spec fn is_online(self) -> bool {
        location_is_online(self.location)
    }

    /// The seconds since the entry was last written, on a clock that reads
    /// `now`; zero where the clock reads less than it did then.
    pub open spec fn age_seconds(self, now: u64) -> u64 {
        if now >= self.last_updated {
            (now - self.last_updated) as u64
        } else {
            0
        }
    }
}

impl CachedUser {
    /// Makes the entry for a friend seen for the first time.
    pub fn from_friend(friend: LimitedUserFriend, now: u64) -> (r: Self)
        ensures
            r@ == CachedUserView::from_friend(friend@, now),
    {
        CachedUser {
            id: friend.id.clone(),
            display_name: friend.display_name.clone(),
            username: None,
            user_icon: friend.user_icon.clone(),
            profile_pic_override: friend.profile_pic_override.clone(),
            profile_pic_override_thumbnail: friend.profile_pic_override_thumbnail.clone(),
            current_avatar_image_url: friend.current_avatar_image_url.clone(),
            current_avatar_thumbnail_image_url: friend.current_avatar_thumbnail_image_url.clone(),
            bio: Some(friend.bio.clone()),
            status: Some(friend.status),
            status_description: Some(friend.status_description.clone()),
            location: friend.location.clone(),
            platform: Some(parse_platform(friend.platform.as_str())),
            relationship: UserRelationship::Friend,
            full_user: None,
            friend_data: Some(friend),
            last_updated: now,
        }
    }

    /// Makes the entry for a full profile seen for the first time.
    pub fn from_user(user: User, relationship: UserRelationship, now: u64) -> (r: Self)
        ensures
            r@ == CachedUserView::from_user(user@, relationship, now),
    {
        CachedUser {
            id: user.id.clone(),
            display_name: user.display_name.clone(),
            username: if user.username.as_str().is_empty() {
                None
            } else {
                Some(user.username.clone())
            },
            user_icon: user.user_icon.clone(),
            profile_pic_override: user.profile_pic_override.clone(),
            profile_pic_override_thumbnail: user.profile_pic_override_thumbnail.clone(),
            current_avatar_image_url: user.current_avatar_image_url.clone(),
            current_avatar_thumbnail_image_url: user.current_avatar_thumbnail_image_url.clone(),
            bio: Some(user.bio.clone()),
            status: Some(user.status),
            status_description: Some(user.status_description.clone()),
            location: user.location.clone(),
            platform: Some(parse_platform(user.platform.as_str())),
            relationship,
            full_user: Some(user),
            friend_data: None,
            last_updated: now,
        }
    }

    /// Merges a friend record into the entry.
    pub fn update_from_friend(&mut self, friend: LimitedUserFriend, now: u64)
        ensures
            final(self)@ == old(self)@.update_from_friend(friend@, now),
    {
        self.display_name = friend.display_name.clone();
        self.user_icon = friend.user_icon.clone();
        self.profile_pic_override = friend.profile_pic_override.clone();
        self.profile_pic_override_thumbnail = friend.profile_pic_override_thumbnail.clone();
        self.current_avatar_image_url = friend.current_avatar_image_url.clone();
        self.current_avatar_thumbnail_image_url = friend.current_avatar_thumbnail_image_url.clone();
        self.bio = Some(friend.bio.clone());
        self.status = Some(friend.status);
        self.status_description = Some(friend.status_description.clone());
        self.location = friend.location.clone();
        self.platform = Some(parse_platform(friend.platform.as_str()));
        self.friend_data = Some(friend);
        self.last_updated = now;
    }

    /// Whether the user counts as online.
    pub fn is_online(&self) -> (r: bool)
        ensures
            r == self@.is_online(),
    {
        match &self.location {
            Some(loc) => !str_eq(loc.as_str(), "offline") && !str_eq(loc.as_str(), "private")
                && !loc.as_str().is_empty(),
            None => false,
        }
    }

    /// The friend record of the entry, where it has one.
    pub fn as_friend(&self) -> (r: Option<&LimitedUserFriend>)
        ensures
            match r {
                Some(f) => self.friend_data == Some(*f),
                None => self.friend_data is None,
            },
    {
        self.friend_data.as_ref()
    }

    /// The seconds since the entry was last written, on a clock that reads
    /// `now`.
    pub fn age_seconds(&self, now: u64) -> (r: u64)
        ensures
            r == self@.age_seconds(now),
    {
        if now >= self.last_updated {
            now - self.last_updated
        } else {
            0
        }
    }
}

/// A partial update of the authenticated user's record, as the pipeline
/// streams it.
#[derive(Debug, Clone)]
pub struct CurrentUserPipelineUpdate {
    pub id: String,
    pub display_name: String,
    pub username: String,
    pub status: String,
    pub status_description: String,
    pub bio: String,
    pub user_icon: Option<String>,
    pub profile_pic_override: Option<String>,
    pub profile_pic_override_thumbnail: Option<String>,
    pub current_avatar: Option<String>,
    pub current_avatar_asset_url: Option<String>,
    pub current_avatar_image_url: Option<String>,
    pub current_avatar_thumbnail_image_url: Option<String>,
    pub fallback_avatar: Option<String>,
    pub tags: Vec<String>,
}

/// The mathematical value of a [`CurrentUserPipelineUpdate`].
pub struct CurrentUserPipelineUpdateView {
    pub id: Seq<char>,
    pub display_name: Seq<char>,
    pub username: Seq<char>,
    pub status: Seq<char>,
    pub status_description: Seq<char>,
    pub bio: Seq<char>,
    pub user_icon: Option<Seq<char>>,
    pub profile_pic_override: Option<Seq<char>>,
    pub profile_pic_override_thumbnail: Option<Seq<char>>,
    pub current_avatar: Option<Seq<char>>,
    pub current_avatar_asset_url: Option<Seq<char>>,
    pub current_avatar_image_url: Option<Seq<char>>,
    pub current_avatar_thumbnail_image_url: Option<Seq<char>>,
    pub fallback_avatar: Option<Seq<char>>,
    pub tags: Seq<Seq<char>>,
}

impl View for CurrentUserPipelineUpdate {
    type V = CurrentUserPipelineUpdateView;

    open spec fn view(&self) -> CurrentUserPipelineUpdateView {
        CurrentUserPipelineUpdateView {
            id: self.id@,
            display_name: self.display_name@,
            username: self.username@,
            status: self.status@,
            status_description: self.status_description@,
            bio: self.bio@,
            user_icon: view_opt(self.user_icon),
            profile_pic_override: view_opt(self.profile_pic_override),
            profile_pic_override_thumbnail: view_opt(self.profile_pic_override_thumbnail),
            current_avatar: view_opt(self.current_avatar),
            current_avatar_asset_url: view_opt(self.current_avatar_asset_url),
            current_avatar_image_url: view_opt(self.current_avatar_image_url),
            current_avatar_thumbnail_image_url: view_opt(self.current_avatar_thumbnail_image_url),
            fallback_avatar: view_opt(self.fallback_avatar),
            tags: view_seq(self.tags@),
        }
    }
}

impl UserView {
    /// The profile after the authenticated user's own friend record was merged
    /// into it: status always, location, platform and status description
    /// where the record carries one.
    pub open spec fn merge_self(self, friend: LimitedUserFriendView) -> UserView {
        UserView {
            location: if friend.location is Some {
                friend.location
            } else {
                self.location
            },
            platform: if friend.platform.len() != 0 {
                friend.platform
            } else {
                self.platform
            },
            status: friend.status,
            status_description: if friend.status_description.len() != 0 {
                friend.status_description
            } else {
                self.status_description
            },
            ..self
        }
    }

    /// The profile after a streamed update of the authenticated user was
    /// applied to it.
    pub open spec fn patched(self, patch: CurrentUserPipelineUpdateView) -> UserView {
        UserView {
            display_name: patch.display_name,
            username: patch.username,
            status: spec_parse_user_status(patch.status),
            status_description: patch.status_description,
            bio: patch.bio,
            user_icon: patch.user_icon,
            profile_pic_override: patch.profile_pic_override,
            profile_pic_override_thumbnail: patch.profile_pic_override_thumbnail,
            current_avatar: patch.current_avatar,
            current_avatar_image_url: patch.current_avatar_image_url,
            current_avatar_thumbnail_image_url: patch.current_avatar_thumbnail_image_url,
            fallback_avatar: patch.fallback_avatar,
            tags: patch.tags,
            ..self
        }
    }
}

impl LimitedUserFriendView {
    /// The friend record of a user who went offline.
    pub open spec fn gone_offline(self) -> LimitedUserFriendView {
        LimitedUserFriendView { location: Some("offline"@), platform: Seq::empty(), ..self }
    }

    /// The friend record of a user who is now at `location`, on `platform`
    /// where one is known.
    pub open spec fn moved(
        self,
        location: Seq<char>,
        platform: Option<PlatformView>,
    ) -> LimitedUserFriendView {
        LimitedUserFriendView {
            location: Some(location),
            platform: match platform {
                Some(p) => p.name(),
                None => self.platform,
            },
            ..self
        }
    }
}

impl CachedUserView {
    /// The authenticated user's entry after their own friend record was
    /// merged into it. The record is leaner than the profile, so only what it
    /// can know better is taken: status always, location, platform and status
    /// description where it carries one. Username, bio and relationship stay.
    pub open spec fn merge_self(self, friend: LimitedUserFriendView, now: u64) -> CachedUserView {
        CachedUserView {
            location: if friend.location is Some {
                friend.location
            } else {
                self.location
            },
            platform: if friend.platform.len() != 0 {
                Some(PlatformView::parse(friend.platform))
            } else {
                self.platform
            },
            status: Some(friend.status),
            status_description: if friend.status_description.len() != 0 {
                Some(friend.status_description)
            } else {
                self.status_description
            },
            full_user: match self.full_user {
                Some(u) => Some(u.merge_self(friend)),
                None => None,
            },
            friend_data: Some(friend),
            last_updated: now,
            ..self
        }
    }

    /// The entry promoted to a friend after a friend record was merged into
    /// it.
    pub open spec fn befriended(self, friend: LimitedUserFriendView, now: u64) -> CachedUserView {
        CachedUserView {
            relationship: UserRelationship::Friend,
            ..self.update_from_friend(friend, now)
        }
    }

    /// The entry with a friend demoted to a known user; any other entry as it
    /// is.
    pub open spec fn demoted(self) -> CachedUserView {
        if self.relationship == UserRelationship::Friend {
            CachedUserView { relationship: UserRelationship::Known, ..self }
        } else {
            self
        }
    }

    /// The entry of a user who went offline.
    pub open spec fn gone_offline(self, now: u64) -> CachedUserView {
        CachedUserView {
            location: Some("offline"@),
            friend_data: match self.friend_data {
                Some(f) => Some(f.gone_offline()),
                None => None,
            },
            last_updated: now,
            ..self
        }
    }

    /// The platform of the entry after a location update that may name one.
    pub open spec fn platform_after(self, platform: Option<Seq<char>>) -> Option<PlatformView> {
        match platform {
            Some(p) => Some(PlatformView::parse(p)),
            None => self.platform,
        }
    }

    /// The entry of a user who is now at `location`.
    pub open spec fn moved(
        self,
        location: Seq<char>,
        platform: Option<Seq<char>>,
        now: u64,
    ) -> CachedUserView {
        CachedUserView {
            location: Some(location),
            platform: self.platform_after(platform),
            friend_data: match self.friend_data {
                Some(f) => Some(f.moved(location, self.platform_after(platform))),
                None => None,
            },
            last_updated: now,
            ..self
        }
    }

    /// The entry of a user who is a friend no longer: kept, as a known user
    /// without friend record, location or platform.
    pub open spec fn unfriended(self, now: u64) -> CachedUserView {
        CachedUserView {
            relationship: UserRelationship::Known,
            friend_data: None,
            location: None,
            platform: None,
            last_updated: now,
            ..self
        }
    }

    /// The entry made for a streamed update of an authenticated user the
    /// cache has not seen yet.
    pub open spec fn from_patch(patch: CurrentUserPipelineUpdateView, now: u64) -> CachedUserView {
        CachedUserView {
            id: patch.id,
            display_name: patch.display_name,
            username: Some(patch.username),
            user_icon: patch.user_icon,
            profile_pic_override: patch.profile_pic_override,
            profile_pic_override_thumbnail: patch.profile_pic_override_thumbnail,
            current_avatar_image_url: patch.current_avatar_image_url,
            current_avatar_thumbnail_image_url: patch.current_avatar_thumbnail_image_url,
            bio: Some(patch.bio),
            status: Some(spec_parse_user_status(patch.status)),
            status_description: Some(patch.status_description),
            location: None,
            platform: None,
            relationship: UserRelationship::CurrentUser,
            full_user: None,
            friend_data: None,
            last_updated: now,
        }
    }

    /// The entry after a streamed update of the authenticated user was
    /// applied to it: the entry becomes the authenticated user's, and a full
    /// profile it holds is updated field by field.
    pub open spec fn patched(
        self,
        patch: CurrentUserPipelineUpdateView,
        now: u64,
    ) -> CachedUserView {
        CachedUserView {
            display_name: patch.display_name,
            username: Some(patch.username),
            user_icon: patch.user_icon,
            profile_pic_override: patch.profile_pic_override,
            profile_pic_override_thumbnail: patch.profile_pic_override_thumbnail,
            current_avatar_image_url: patch.current_avatar_image_url,
            current_avatar_thumbnail_image_url: patch.current_avatar_thumbnail_image_url,
            bio: Some(patch.bio),
            status: Some(spec_parse_user_status(patch.status)),
            status_description: Some(patch.status_description),
            relationship: UserRelationship::CurrentUser,
            full_user: match self.full_user {
                Some(u) => Some(u.patched(patch)),
                None => None,
            },
            last_updated: now,
            ..self
        }
    }

    /// The entry after a fetched full profile was merged into it: the
    /// relationship and the friend record stay, and so does the username
    /// where the profile carries none.
    pub open spec fn with_profile(self, user: UserView, now: u64) -> CachedUserView {
        CachedUserView {
            display_name: user.display_name,
            username: if user.username.len() != 0 {
                Some(user.username)
            } else {
                self.username
            },
            user_icon: user.user_icon,
            profile_pic_override: user.profile_pic_override,
            profile_pic_override_thumbnail: user.profile_pic_override_thumbnail,
            current_avatar_image_url: user.current_avatar_image_url,
            current_avatar_thumbnail_image_url: user.current_avatar_thumbnail_image_url,
            bio: Some(user.bio),
            status: Some(user.status),
            status_description: Some(user.status_description),
            location: user.location,
            platform: Some(PlatformView::parse(user.platform)),
            full_user: Some(user),
            last_updated: now,
            ..self
        }
    }
}

/// Which entries a clearing of the cache keeps.
#[derive(Debug, Clone, Copy, PartialEq, Eq, Structural)]
pub enum Retention {
    /// The entry of the authenticated user.
    CurrentUserOnly,
    /// The entries of the authenticated user and of friends, and those
    /// written less than `max_age_seconds` before `now`.
    Fresh { max_age_seconds: u64, now: u64 },
}

/// Counts over the cache.
#[derive(Debug, Clone, Copy, PartialEq, Eq, Structural)]
pub struct UserStoreStats {
    pub total_cached: usize,
    pub friends: usize,
    pub online_friends: usize,
    pub has_current_user: bool,
}

/// The relationship cache.
///
/// Entries stand in the order in which their users were first seen, one entry
/// per user id.
pub struct UserStore {
    users: Vec<CachedUser>,
    current_user_id: Option<String>,
}

/// The mathematical value of a [`UserStore`]: the entries in the order of
/// first sighting, and the id of the authenticated user.
pub struct UserStoreView {
    pub entries: Seq<CachedUserView>,
    pub current_user_id: Option<Seq<char>>,
}

impl View for UserStore {
    type V = UserStoreView;

    closed spec fn view(&self) -> UserStoreView {
        UserStoreView {
            entries: view_seq(self.users@),
            current_user_id: view_opt(self.current_user_id),
        }
    }
}

/// The friend record of an entry that is a friend's.
pub open spec fn friend_record(e: CachedUserView) -> Option<LimitedUserFriendView> {
    if e.relationship == UserRelationship::Friend {
        e.friend_data
    } else {
        None
    }
}

/// The friend record of an entry that is the entry of a friend who is online.
pub open spec fn online_friend_record(e: CachedUserView) -> Option<LimitedUserFriendView> {
    if e.relationship == UserRelationship::Friend && e.is_online() {
        e.friend_data
    } else {
        None
    }
}

impl UserStoreView {
    /// No user id has two entries.
    pub open spec fn wf(self) -> bool {
        forall|i: int, j: int|
            0 <= i < j < self.entries.len() ==> self.entries[i].id != self.entries[j].id
    }

    /// Whether position `i` holds the entry of user `id`.
    pub open spec fn holds(self, i: int, id: Seq<char>) -> bool {
        0 <= i < self.entries.len() && self.entries[i].id == id
    }

    /// The position of the entry of user `id`.
    pub open spec fn position(self, id: Seq<char>) -> Option<int> {
        if exists|i: int| self.holds(i, id) {
            Some(choose|i: int| self.holds(i, id))
        } else {
            None
        }
    }

    /// The entry of user `id`.
    pub open spec fn get(self, id: Seq<char>) -> Option<CachedUserView> {
        match self.position(id) {
            Some(i) => Some(self.entries[i]),
            None => None,
        }
    }

    /// The cache with `entry` in the place of the entry of the same user, or
    /// at the end where the user had none.
    pub open spec fn put(self, entry: CachedUserView) -> UserStoreView {
        match self.position(entry.id) {
            Some(i) => UserStoreView { entries: self.entries.update(i, entry), ..self },
            None => UserStoreView { entries: self.entries.push(entry), ..self },
        }
    }

    /// The empty cache.
    pub open spec fn empty() -> UserStoreView {
        UserStoreView { entries: Seq::empty(), current_user_id: None }
    }

    /// The cache after `user` was made the authenticated user: their entry is
    /// made anew from the profile.
    pub open spec fn set_current_user(self, user: UserView, now: u64) -> UserStoreView {
        UserStoreView {
            current_user_id: Some(user.id),
            ..self.put(CachedUserView::from_user(user, UserRelationship::CurrentUser, now))
        }
    }

    /// The full profile of the authenticated user.
    pub open spec fn current_user(self) -> Option<UserView> {
        match self.current_user_id {
            Some(id) => self.full_user(id),
            None => None,
        }
    }

    /// The full profile of user `id`.
    pub open spec fn full_user(self, id: Seq<char>) -> Option<UserView> {
        match self.get(id) {
            Some(e) => e.full_user,
            None => None,
        }
    }

    /// The friend record of user `id`.
    pub open spec fn friend_data(self, id: Seq<char>) -> Option<LimitedUserFriendView> {
        match self.get(id) {
            Some(e) => e.friend_data,
            None => None,
        }
    }

    /// Whether user `id` is cached as a friend.
    pub open spec fn is_friend(self, id: Seq<char>) -> bool {
        match self.get(id) {
            Some(e) => e.relationship == UserRelationship::Friend,
            None => false,
        }
    }

    /// Whether user `id` counts as online.
    pub open spec fn is_user_online(self, id: Seq<char>) -> bool {
        match self.get(id) {
            Some(e) => e.is_online(),
            None => false,
        }
    }

    /// The cache after one friend record was merged in. The authenticated
    /// user's own record updates their entry where they have one, and adds
    /// none; any other record updates the entry of its user and makes it a
    /// friend's, or adds one.
    pub open spec fn upsert_friend(self, friend: LimitedUserFriendView, now: u64) -> UserStoreView {
        if self.current_user_id == Some(friend.id) {
            match self.get(friend.id) {
                Some(e) => self.put(e.merge_self(friend, now)),
                None => self,
            }
        } else {
            match self.get(friend.id) {
                Some(e) => self.put(e.befriended(friend, now)),
                None => self.put(CachedUserView::from_friend(friend, now)),
            }
        }
    }

    /// The cache with every friend demoted to a known user.
    pub open spec fn demote_friends(self) -> UserStoreView {
        UserStoreView {
            entries: Seq::new(self.entries.len(), |i: int| self.entries[i].demoted()),
            ..self
        }
    }

    /// The cache after the friend records were merged in, one after the
    /// other.
    pub open spec fn absorb(self, friends: Seq<LimitedUserFriendView>, now: u64) -> UserStoreView
        decreases friends.len(),
    {
        if friends.len() == 0 {
            self
        } else {
            self.absorb(friends.drop_last(), now).upsert_friend(friends.last(), now)
        }
    }

    /// The cache after the friend list was loaded: who was a friend and is
    /// not on the list is a known user now, and who is on it is merged in.
    pub open spec fn set_friends(
        self,
        friends: Seq<LimitedUserFriendView>,
        now: u64,
    ) -> UserStoreView {
        self.demote_friends().absorb(friends, now)
    }

    /// The cache with the entry of user `id` replaced by what `change` makes
    /// of it; the cache as it is where the user has no entry.
    pub open spec fn change(
        self,
        id: Seq<char>,
        change: spec_fn(CachedUserView) -> CachedUserView,
    ) -> UserStoreView {
        match self.position(id) {
            Some(i) => UserStoreView {
                entries: self.entries.update(i, change(self.entries[i])),
                ..self
            },
            None => self,
        }
    }

    /// The cache after user `id` went offline.
    pub open spec fn set_friend_offline(self, id: Seq<char>, now: u64) -> UserStoreView {
        self.change(id, |e: CachedUserView| e.gone_offline(now))
    }

    /// The cache after user `id` moved to `location`.
    pub open spec fn update_user_location(
        self,
        id: Seq<char>,
        location: Seq<char>,
        platform: Option<Seq<char>>,
        now: u64,
    ) -> UserStoreView {
        self.change(id, |e: CachedUserView| e.moved(location, platform, now))
    }

    /// The cache after user `id` stopped being a friend.
    pub open spec fn remove_friend(self, id: Seq<char>, now: u64) -> UserStoreView {
        self.change(id, |e: CachedUserView| e.unfriended(now))
    }

    /// The cache after a streamed update of the authenticated user: their
    /// entry is patched, or made where there was none, and they are the
    /// authenticated user from now on.
    pub open spec fn apply_current_user_update(
        self,
        patch: CurrentUserPipelineUpdateView,
        now: u64,
    ) -> UserStoreView {
        UserStoreView {
            current_user_id: Some(patch.id),
            ..match self.get(patch.id) {
                Some(e) => self.put(e.patched(patch, now)),
                None => self.put(CachedUserView::from_patch(patch, now)),
            }
        }
    }

    /// The cache after a fetched full profile was merged in: into the entry
    /// of its user, or as a new entry of a known user.
    pub open spec fn cache_full_user(self, user: UserView, now: u64) -> UserStoreView {
        match self.get(user.id) {
            Some(e) => self.put(e.with_profile(user, now)),
            None => self.put(CachedUserView::from_user(user, UserRelationship::Known, now)),
        }
    }

    /// The friend records of all friends, in the order of the entries.
    pub open spec fn all_friends(self) -> Seq<LimitedUserFriendView> {
        self.entries.filter_map(|e: CachedUserView| friend_record(e))
    }

    /// The friend records of the friends who are online, in the order of the
    /// entries.
    pub open spec fn online_friends(self) -> Seq<LimitedUserFriendView> {
        self.entries.filter_map(|e: CachedUserView| online_friend_record(e))
    }

    /// The number of entries that are a friend's.
    pub open spec fn friend_count(self) -> nat {
        self.entries.filter(|e: CachedUserView| e.relationship == UserRelationship::Friend).len()
    }

    /// The number of entries that are the entry of a friend who is online.
    pub open spec fn online_friend_count(self) -> nat {
        self.entries.filter(
            |e: CachedUserView| e.relationship == UserRelationship::Friend && e.is_online(),
        ).len()
    }

    /// The entries whose display name holds `query`, both in lower case.
    pub open spec fn search_users(self, query: Seq<char>) -> Seq<CachedUserView> {
        self.entries.filter(
            |e: CachedUserView| occurs_in(lowercase(query), lowercase(e.display_name)),
        )
    }

    /// Whether an entry outlives the eviction of what is `max_age_seconds`
    /// old or older: the authenticated user's and a friend's always do.
    pub open spec fn is_fresh(self, e: CachedUserView, max_age_seconds: u64, now: u64) -> bool {
        self.current_user_id == Some(e.id) || e.relationship == UserRelationship::Friend
            || e.age_seconds(now) < max_age_seconds
    }

    /// Whether an entry stays under a rule of retention.
    pub open spec fn keeps(self, e: CachedUserView, rule: Retention) -> bool {
        match rule {
            Retention::CurrentUserOnly => self.current_user_id == Some(e.id),
            Retention::Fresh { max_age_seconds, now } => self.is_fresh(e, max_age_seconds, now),
        }
    }

    /// The cache with the entries that stay under a rule of retention, in
    /// their order.
    pub open spec fn retain(self, rule: Retention) -> UserStoreView {
        UserStoreView {
            entries: self.entries.filter(|e: CachedUserView| self.keeps(e, rule)),
            ..self
        }
    }

    /// The cache without any entry but the authenticated user's.
    pub open spec fn clear_cache(self) -> UserStoreView {
        self.retain(Retention::CurrentUserOnly)
    }

    /// The cache without its stale entries: those last written
    /// `max_age_seconds` ago or earlier that are neither the authenticated
    /// user's nor a friend's.
    pub open spec fn remove_stale(self, max_age_seconds: u64, now: u64) -> UserStoreView {
        self.retain(Retention::Fresh { max_age_seconds, now })
    }

    /// The counts over the cache.
    pub open spec fn stats(self) -> UserStoreStats {
        UserStoreStats {
            total_cached: self.entries.len() as usize,
            friends: self.friend_count() as usize,
            online_friends: self.online_friend_count() as usize,
            has_current_user: self.current_user_id is Some,
        }
    }
}

impl UserStoreView {
    /// In a well-formed cache the entry of a user stands where any entry with
    /// that id stands.
    pub proof fn lemma_position(self, i: int, id: Seq<char>)
        requires
            self.wf(),
            self.holds(i, id),
        ensures
            self.position(id) == Some(i),
            self.get(id) == Some(self.entries[i]),
    {
        let j = choose|j: int| self.holds(j, id);
        assert(self.holds(j, id));
        if i < j {
            assert(self.entries[i].id != self.entries[j].id);
        }
        if j < i {
            assert(self.entries[j].id != self.entries[i].id);
        }
    }

    /// Two caches whose entries have the same ids, place by place, hold the
    /// entry of a user at the same place.
    pub proof fn lemma_same_places(self, other: UserStoreView, id: Seq<char>)
        requires
            self.wf(),
            other.entries.len() == self.entries.len(),
            forall|k: int|
                0 <= k < self.entries.len() ==> other.entries[k].id == self.entries[k].id,
        ensures
            other.wf(),
            other.position(id) == self.position(id),
    {
        if exists|k: int| self.holds(k, id) {
            let k = choose|k: int| self.holds(k, id);
            assert(self.holds(k, id));
            self.lemma_position(k, id);
            assert(other.holds(k, id));
            other.lemma_position(k, id);
        } else {
            if exists|k: int| other.holds(k, id) {
                let k = choose|k: int| other.holds(k, id);
                assert(other.holds(k, id));
                assert(self.holds(k, id));
            }
        }
    }

    /// Putting an entry keeps the cache well-formed, makes the entry the one
    /// of its user, and leaves every other user's entry as it was.
    pub proof fn lemma_put(self, entry: CachedUserView)
        requires
            self.wf(),
        ensures
            self.put(entry).wf(),
            self.put(entry).get(entry.id) == Some(entry),
            forall|id: Seq<char>| id != entry.id ==> self.put(entry).get(id) == self.get(id),
    {
        let after = self.put(entry);
        match self.position(entry.id) {
            Some(i) => {
                assert(self.holds(i, entry.id));
                assert(after.holds(i, entry.id));
                assert forall|id: Seq<char>| id != entry.id implies after.get(id) == self.get(
                    id,
                ) by {
                    self.lemma_same_places(after, id);
                }
                self.lemma_same_places(after, entry.id);
                after.lemma_position(i, entry.id);
            },
            None => {
                let n = self.entries.len() as int;
                assert forall|i: int, j: int|
                    0 <= i < j < after.entries.len() implies after.entries[i].id
                    != after.entries[j].id by {
                    if j == n {
                        assert(!self.holds(i, entry.id));
                    }
                }
                assert(after.holds(n, entry.id));
                after.lemma_position(n, entry.id);
                assert forall|id: Seq<char>| id != entry.id implies after.get(id) == self.get(
                    id,
                ) by {
                    if exists|k: int| self.holds(k, id) {
                        let k = choose|k: int| self.holds(k, id);
                        assert(self.holds(k, id));
                        self.lemma_position(k, id);
                        assert(after.holds(k, id));
                        after.lemma_position(k, id);
                    } else {
                        if exists|k: int| after.holds(k, id) {
                            let k = choose|k: int| after.holds(k, id);
                            assert(after.holds(k, id));
                            assert(self.holds(k, id));
                        }
                    }
                }
            },
        }
    }

    /// Changing the entry of a user into one of the same user keeps the cache
    /// well-formed, and leaves every other user's entry as it was.
    pub proof fn lemma_change(
        self,
        id: Seq<char>,
        change: spec_fn(CachedUserView) -> CachedUserView,
    )
        requires
            self.wf(),
            forall|e: CachedUserView| (#[trigger] change(e)).id == e.id,
        ensures
            self.change(id, change).wf(),
            self.change(id, change).get(id) == match self.get(id) {
                Some(e) => Some(change(e)),
                None => None,
            },
            forall|other: Seq<char>|
                other != id ==> self.change(id, change).get(other) == self.get(other),
    {
        match self.position(id) {
            Some(i) => {
                assert(self.holds(i, id));
                let entry = change(self.entries[i]);
                assert(self.put(entry) == self.change(id, change));
                self.lemma_put(entry);
            },
            None => {},
        }
    }

    /// Demoting the friends keeps the cache well-formed and every entry in
    /// its place.
    pub proof fn lemma_demote_friends(self)
        requires
            self.wf(),
        ensures
            self.demote_friends().wf(),
            forall|id: Seq<char>|
                self.demote_friends().get(id) == match self.get(id) {
                    Some(e) => Some(e.demoted()),
                    None => None,
                },
    {
        let after = self.demote_friends();
        assert forall|id: Seq<char>|
            after.get(id) == match self.get(id) {
                Some(e) => Some(e.demoted()),
                None => None,
            } by {
            self.lemma_same_places(after, id);
        }
        self.lemma_same_places(after, Seq::empty());
    }

    /// Merging a friend record keeps the cache well-formed.
    pub proof fn lemma_upsert_friend_wf(self, friend: LimitedUserFriendView, now: u64)
        requires
            self.wf(),
        ensures
            self.upsert_friend(friend, now).wf(),
    {
        match self.get(friend.id) {
            Some(e) => {
                self.lemma_put(e.merge_self(friend, now));
                self.lemma_put(e.befriended(friend, now));
            },
            None => {
                self.lemma_put(CachedUserView::from_friend(friend, now));
            },
        }
    }

    /// Merging friend records one after the other keeps the cache
    /// well-formed.
    pub proof fn lemma_absorb_wf(self, friends: Seq<LimitedUserFriendView>, now: u64)
        requires
            self.wf(),
        ensures
            self.absorb(friends, now).wf(),
        decreases friends.len(),
    {
        if friends.len() > 0 {
            self.lemma_absorb_wf(friends.drop_last(), now);
            self.absorb(friends.drop_last(), now).lemma_upsert_friend_wf(friends.last(), now);
        }
    }
}

/// The entries that pass a filter are entries of the sequence, in their order:
/// where no two entries of the sequence share an id, none of the result do.
pub proof fn lemma_filter_unique(
    entries: Seq<CachedUserView>,
    keep: spec_fn(CachedUserView) -> bool,
)
    requires
        forall|i: int, j: int| 0 <= i < j < entries.len() ==> entries[i].id != entries[j].id,
    ensures
        forall|i: int, j: int|
            0 <= i < j < entries.filter(keep).len() ==> entries.filter(keep)[i].id
                != entries.filter(keep)[j].id,
        forall|i: int|
            0 <= i < entries.filter(keep).len() ==> exists|k: int|
                0 <= k < entries.len() && entries[k] == #[trigger] entries.filter(keep)[i],
    decreases entries.len(),
{
    reveal(Seq::filter);
    if entries.len() > 0 {
        let front = entries.drop_last();
        lemma_filter_unique(front, keep);
        let kept = front.filter(keep);
        let all = entries.filter(keep);
        assert forall|i: int| 0 <= i < all.len() implies exists|k: int|
            0 <= k < entries.len() && entries[k] == #[trigger] all[i] by {
            if i < kept.len() {
                let k = choose|k: int| 0 <= k < front.len() && front[k] == kept[i];
                assert(entries[k] == all[i]);
            } else {
                assert(entries[entries.len() - 1] == all[i]);
            }
        }
        assert forall|i: int, j: int| 0 <= i < j < all.len() implies all[i].id != all[j].id by {
            if j == kept.len() {
                let k = choose|k: int| 0 <= k < front.len() && front[k] == kept[i];
                assert(entries[k].id != entries[entries.len() - 1].id);
            }
        }
    }
}

impl UserStoreView {
    /// Retaining entries keeps the cache well-formed.
    pub proof fn lemma_retain_wf(self, rule: Retention)
        requires
            self.wf(),
        ensures
            self.retain(rule).wf(),
    {
        lemma_filter_unique(self.entries, |e: CachedUserView| self.keeps(e, rule));
    }
}

impl UserStore {
    /// Whether the cache holds one entry per user id.
    pub open spec fn wf(&self) -> bool {
        self@.wf()
    }

    /// An empty cache.
    pub fn new() -> (r: Self)
        ensures
            r.wf(),
            r@ == UserStoreView::empty(),
    {
        let r = UserStore { users: Vec::new(), current_user_id: None };
        assert(r@.entries =~= Seq::empty());
        r
    }

    /// The position of the entry of user `id`.
    fn find(&self, id: &str) -> (r: Option<usize>)
        requires
            self.wf(),
        ensures
            match r {
                Some(i) => i < self.users@.len() && self@.position(id@) == Some(i as int)
                    && self.users@[i as int].id@ == id@,
                None => self@.position(id@) is None,
            },
    {
        let mut i: usize = 0;
        while i < self.users.len()
            invariant
                self.wf(),
                i <= self.users@.len(),
                forall|k: int| 0 <= k < i ==> !self@.holds(k, id@),
            decreases self.users@.len() - i,
        {
            if str_eq(self.users[i].id.as_str(), id) {
                proof {
                    assert(self@.holds(i as int, id@));
                    self@.lemma_position(i as int, id@);
                }
                return Some(i);
            }
            i += 1;
        }
        None
    }

    /// Puts an entry in the place of the entry of the same user, or at the end.
    fn put(&mut self, entry: CachedUser)
        requires
            old(self).wf(),
        ensures
            final(self).wf(),
            final(self)@ == old(self)@.put(entry@),
    {
        proof {
            self@.lemma_put(entry@);
        }
        match self.find(entry.id.as_str()) {
            Some(i) => {
                self.users.set(i, entry);
                assert(self@.entries =~= old(self)@.put(entry@).entries);
            },
            None => {
                self.users.push(entry);
                assert(self@.entries =~= old(self)@.put(entry@).entries);
            },
        }
    }

    /// Makes `user` the authenticated user. Their entry is made anew from the
    /// profile; the entry of whoever was the authenticated user before stays.
    pub fn set_current_user(&mut self, user: User, now: u64)
        requires
            old(self).wf(),
        ensures
            final(self).wf(),
            final(self)@ == old(self)@.set_current_user(user@, now),
    {
        let user_id = user.id.clone();
        let entry = CachedUser::from_user(user, UserRelationship::CurrentUser, now);
        self.put(entry);
        self.current_user_id = Some(user_id);
    }

    /// The full profile of the authenticated user; `None` where no user is
    /// authenticated or the cache holds no profile of them.
    pub fn get_current_user(&self) -> (r: Option<&User>)
        requires
            self.wf(),
        ensures
            view_opt(r) == self@.current_user(),
    {
        match &self.current_user_id {
            Some(id) => self.get_full_user(id.as_str()),
            None => None,
        }
    }

    /// The id of the authenticated user.
    pub fn get_current_user_id(&self) -> (r: Option<&String>)
        ensures
            view_opt(r) == self@.current_user_id,
    {
        self.current_user_id.as_ref()
    }

    /// Forgets who the authenticated user is; their entry stays.
    pub fn clear_current_user(&mut self)
        ensures
            final(self)@ == (UserStoreView { current_user_id: None, ..old(self)@ }),
            old(self).wf() ==> final(self).wf(),
    {
        self.current_user_id = None;
    }

    /// The entry of user `id`.
    pub fn get_cached_user(&self, id: &str) -> (r: Option<&CachedUser>)
        requires
            self.wf(),
        ensures
            view_opt(r) == self@.get(id@),
    {
        match self.find(id) {
            Some(i) => Some(&self.users[i]),
            None => None,
        }
    }

    /// The friend record of user `id`.
    pub fn get_user(&self, id: &str) -> (r: Option<&LimitedUserFriend>)
        requires
            self.wf(),
        ensures
            view_opt(r) == self@.friend_data(id@),
    {
        match self.find(id) {
            Some(i) => self.users[i].friend_data.as_ref(),
            None => None,
        }
    }

    /// The full profile of user `id`.
    pub fn get_full_user(&self, id: &str) -> (r: Option<&User>)
        requires
            self.wf(),
        ensures
            view_opt(r) == self@.full_user(id@),
    {
        match self.find(id) {
            Some(i) => self.users[i].full_user.as_ref(),
            None => None,
        }
    }

    /// Whether user `id` is cached as a friend.
    pub fn is_friend(&self, id: &str) -> (r: bool)
        requires
            self.wf(),
        ensures
            r == self@.is_friend(id@),
    {
        match self.find(id) {
            Some(i) => self.users[i].relationship == UserRelationship::Friend,
            None => false,
        }
    }

    /// Whether user `id` counts as online: they have an entry, and its
    /// location is a text other than `"offline"`, `"private"` and the empty
    /// one.
    pub fn is_user_online(&self, id: &str) -> (r: bool)
        requires
            self.wf(),
        ensures
            r == self@.is_user_online(id@),
    {
        match self.find(id) {
            Some(i) => self.users[i].is_online(),
            None => false,
        }
    }

    /// Merges one friend record.
    ///
    /// A record of the authenticated user themselves neither adds an entry
    /// nor changes their relationship, username or bio: it updates status,
    /// and location, platform and status description where it carries one,
    /// in the entry and in the full profile the entry holds. Any other record
    /// is merged into the entry of its user, who becomes a friend, or makes a
    /// new entry.
    pub fn upsert_friend(&mut self, friend: LimitedUserFriend, now: u64)
        requires
            old(self).wf(),
        ensures
            final(self).wf(),
            final(self)@ == old(self)@.upsert_friend(friend@, now),
    {
        let is_self = match &self.current_user_id {
            Some(current) => str_eq(current.as_str(), friend.id.as_str()),
            None => false,
        };
        let found = self.find(friend.id.as_str());
        proof {
            self@.lemma_upsert_friend_wf(friend@, now);
        }
        match found {
            Some(i) => {
                if is_self {
                    match &friend.location {
                        Some(location) => {
                            self.users[i].location = Some(location.clone());
                            match &mut self.users[i].full_user {
                                Some(full_user) => {
                                    full_user.location = Some(location.clone());
                                },
                                None => {},
                            }
                        },
                        None => {},
                    }
                    if !friend.platform.as_str().is_empty() {
                        self.users[i].platform = Some(parse_platform(friend.platform.as_str()));
                        match &mut self.users[i].full_user {
                            Some(full_user) => {
                                full_user.platform = friend.platform.clone();
                            },
                            None => {},
                        }
                    }
                    self.users[i].status = Some(friend.status);
                    match &mut self.users[i].full_user {
                        Some(full_user) => {
                            full_user.status = friend.status;
                        },
                        None => {},
                    }
                    if !friend.status_description.as_str().is_empty() {
                        self.users[i].status_description = Some(friend.status_description.clone());
                        match &mut self.users[i].full_user {
                            Some(full_user) => {
                                full_user.status_description = friend.status_description.clone();
                            },
                            None => {},
                        }
                    }
                    self.users[i].friend_data = Some(friend);
                    self.users[i].last_updated = now;
                    assert(self.users@[i as int]@ == old(self).users@[i as int]@.merge_self(
                        friend@,
                        now,
                    ));
                } else {
                    self.users[i].update_from_friend(friend, now);
                    self.users[i].relationship = UserRelationship::Friend;
                }
                assert(self@.entries =~= old(self)@.upsert_friend(friend@, now).entries);
            },
            None => {
                if !is_self {
                    self.put(CachedUser::from_friend(friend, now));
                }
            },
        }
    }

    /// Loads the friend list.
    ///
    /// Every entry that was a friend's becomes a known user's; then each
    /// record of the list is merged as [`UserStore::upsert_friend`] merges
    /// it. So who left the list stays cached as a known user, and a record of
    /// the authenticated user leaves their relationship alone.
    pub fn set_friends(&mut self, friends: Vec<LimitedUserFriend>, now: u64)
        requires
            old(self).wf(),
        ensures
            final(self).wf(),
            final(self)@ == old(self)@.set_friends(view_seq(friends@), now),
    {
        let mut i: usize = 0;
        while i < self.users.len()
            invariant
                i <= self.users@.len(),
                self.users@.len() == old(self).users@.len(),
                self.current_user_id == old(self).current_user_id,
                forall|k: int| 0 <= k < i ==> self.users@[k]@ == old(self).users@[k]@.demoted(),
                forall|k: int| i <= k < self.users@.len() ==> self.users@[k] == old(self).users@[k],
            decreases self.users@.len() - i,
        {
            if self.users[i].relationship == UserRelationship::Friend {
                self.users[i].relationship = UserRelationship::Known;
            }
            i += 1;
        }
        let ghost demoted = old(self)@.demote_friends();
        let ghost records = view_seq(friends@);
        proof {
            assert(self@.entries =~= demoted.entries);
            old(self)@.lemma_demote_friends();
            assert(records.take(0) =~= Seq::empty());
        }
        let mut j: usize = 0;
        while j < friends.len()
            invariant
                j <= friends@.len(),
                records == view_seq(friends@),
                self.wf(),
                self@ == demoted.absorb(records.take(j as int), now),
            decreases friends@.len() - j,
        {
            proof {
                assert(records.take(j + 1).drop_last() =~= records.take(j as int));
                assert(records.take(j + 1).last() == friends@[j as int]@);
            }
            self.upsert_friend(friends[j].clone(), now);
            j += 1;
        }
        proof {
            assert(records.take(friends@.len() as int) =~= records);
        }
    }

    /// Marks user `id` as offline: the location becomes `"offline"`, in the
    /// entry and in its friend record, whose platform is emptied. Nothing
    /// happens where the user has no entry.
    pub fn set_friend_offline(&mut self, id: &str, now: u64)
        requires
            old(self).wf(),
        ensures
            final(self).wf(),
            final(self)@ == old(self)@.set_friend_offline(id@, now),
    {
        proof {
            self@.lemma_change(id@, |e: CachedUserView| e.gone_offline(now));
        }
        match self.find(id) {
            Some(i) => {
                self.users[i].location = Some("offline".to_string());
                self.users[i].last_updated = now;
                match &mut self.users[i].friend_data {
                    Some(friend_data) => {
                        friend_data.location = Some("offline".to_string());
                        friend_data.platform = String::new();
                    },
                    None => {},
                }
                assert(self.users@[i as int]@ == old(self).users@[i as int]@.gone_offline(now));
                assert(self@.entries =~= old(self)@.set_friend_offline(id@, now).entries);
            },
            None => {},
        }
    }

    /// Moves user `id` to `location`, on `platform` where one is given: in
    /// the entry and in its friend record, which gets the name of the entry's
    /// platform. Nothing happens where the user has no entry.
    pub fn update_user_location(
        &mut self,
        id: &str,
        location: String,
        platform: Option<String>,
        now: u64,
    )
        requires
            old(self).wf(),
        ensures
            final(self).wf(),
            final(self)@ == old(self)@.update_user_location(
                id@,
                location@,
                view_opt(platform),
                now,
            ),
    {
        proof {
            self@.lemma_change(
                id@,
                |e: CachedUserView| e.moved(location@, view_opt(platform), now),
            );
        }
        match self.find(id) {
            Some(i) => {
                self.users[i].location = Some(location.clone());
                match &platform {
                    Some(name) => {
                        self.users[i].platform = Some(parse_platform(name.as_str()));
                    },
                    None => {},
                }
                self.users[i].last_updated = now;
                let mirrored = match &self.users[i].platform {
                    Some(p) => Some(platform_name(p)),
                    None => None,
                };
                match &mut self.users[i].friend_data {
                    Some(friend_data) => {
                        friend_data.location = Some(location);
                        match mirrored {
                            Some(name) => {
                                friend_data.platform = name;
                            },
                            None => {},
                        }
                    },
                    None => {},
                }
                assert(self.users@[i as int]@ == old(self).users@[i as int]@.moved(
                    location@,
                    view_opt(platform),
                    now,
                ));
                assert(self@.entries =~= old(self)@.update_user_location(
                    id@,
                    location@,
                    view_opt(platform),
                    now,
                ).entries);
            },
            None => {},
        }
    }

    /// Ends the friendship with user `id`: the entry stays, as a known
    /// user's, without friend record, location or platform. Nothing happens
    /// where the user has no entry.
    pub fn remove_friend(&mut self, id: &str, now: u64)
        requires
            old(self).wf(),
        ensures
            final(self).wf(),
            final(self)@ == old(self)@.remove_friend(id@, now),
    {
        proof {
            self@.lemma_change(id@, |e: CachedUserView| e.unfriended(now));
        }
        match self.find(id) {
            Some(i) => {
                self.users[i].relationship = UserRelationship::Known;
                self.users[i].friend_data = None;
                self.users[i].location = None;
                self.users[i].platform = None;
                self.users[i].last_updated = now;
                assert(self.users@[i as int]@ == old(self).users@[i as int]@.unfriended(now));
                assert(self@.entries =~= old(self)@.remove_friend(id@, now).entries);
            },
            None => {},
        }
    }

    /// Applies a streamed update of the authenticated user.
    ///
    /// The entry of the update's user is patched, in its own fields and field
    /// by field in the full profile it holds, or made where there was none;
    /// it becomes the authenticated user's, and the update's user is the
    /// authenticated user from now on.
    pub fn apply_current_user_update(&mut self, patch: CurrentUserPipelineUpdate, now: u64)
        requires
            old(self).wf(),
        ensures
            final(self).wf(),
            final(self)@ == old(self)@.apply_current_user_update(patch@, now),
    {
        let status = parse_user_status(patch.status.as_str());
        let found = self.find(patch.id.as_str());
        proof {
            match self@.get(patch@.id) {
                Some(e) => {
                    self@.lemma_put(e.patched(patch@, now));
                },
                None => {
                    self@.lemma_put(CachedUserView::from_patch(patch@, now));
                },
            }
        }
        match found {
            Some(i) => {
                self.users[i].display_name = patch.display_name.clone();
                self.users[i].username = Some(patch.username.clone());
                self.users[i].user_icon = patch.user_icon.clone();
                self.users[i].profile_pic_override = patch.profile_pic_override.clone();
                self.users[i].profile_pic_override_thumbnail =
                    patch.profile_pic_override_thumbnail.clone();
                self.users[i].current_avatar_image_url = patch.current_avatar_image_url.clone();
                self.users[i].current_avatar_thumbnail_image_url =
                    patch.current_avatar_thumbnail_image_url.clone();
                self.users[i].bio = Some(patch.bio.clone());
                self.users[i].status = Some(status);
                self.users[i].status_description = Some(patch.status_description.clone());
                self.users[i].relationship = UserRelationship::CurrentUser;
                self.users[i].last_updated = now;
                match &mut self.users[i].full_user {
                    Some(full_user) => {
                        full_user.display_name = patch.display_name.clone();
                        full_user.username = patch.username.clone();
                        full_user.status = status;
                        full_user.status_description = patch.status_description.clone();
                        full_user.bio = patch.bio.clone();
                        full_user.user_icon = patch.user_icon.clone();
                        full_user.profile_pic_override = patch.profile_pic_override.clone();
                        full_user.profile_pic_override_thumbnail =
                            patch.profile_pic_override_thumbnail.clone();
                        full_user.current_avatar = patch.current_avatar.clone();
                        full_user.current_avatar_image_url = patch.current_avatar_image_url.clone();
                        full_user.current_avatar_thumbnail_image_url =
                            patch.current_avatar_thumbnail_image_url.clone();
                        full_user.fallback_avatar = patch.fallback_avatar.clone();
                        full_user.tags = clone_strings(&patch.tags);
                    },
                    None => {},
                }
                assert(self.users@[i as int]@ == old(self).users@[i as int]@.patched(patch@, now));
                assert(self@.entries =~= old(self)@.apply_current_user_update(
                    patch@,
                    now,
                ).entries);
            },
            None => {
                self.put(
                    CachedUser {
                        id: patch.id.clone(),
                        display_name: patch.display_name.clone(),
                        username: Some(patch.username.clone()),
                        user_icon: patch.user_icon.clone(),
                        profile_pic_override: patch.profile_pic_override.clone(),
                        profile_pic_override_thumbnail:
                            patch.profile_pic_override_thumbnail.clone(),
                        current_avatar_image_url: patch.current_avatar_image_url.clone(),
                        current_avatar_thumbnail_image_url:
                            patch.current_avatar_thumbnail_image_url.clone(),
                        bio: Some(patch.bio.clone()),
                        status: Some(status),
                        status_description: Some(patch.status_description.clone()),
                        location: None,
                        platform: None,
                        relationship: UserRelationship::CurrentUser,
                        full_user: None,
                        friend_data: None,
                        last_updated: now,
                    },
                );
            },
        }
        self.current_user_id = Some(patch.id);
    }

    /// Merges a fetched full profile.
    ///
    /// Into the entry of its user, whose relationship and friend record
    /// stay; an empty username in the profile leaves the entry's username as
    /// it is. Where the user has no entry, one is made for a known user.
    pub fn cache_full_user(&mut self, user: User, now: u64)
        requires
            old(self).wf(),
        ensures
            final(self).wf(),
            final(self)@ == old(self)@.cache_full_user(user@, now),
    {
        let found = self.find(user.id.as_str());
        proof {
            match self@.get(user@.id) {
                Some(e) => {
                    self@.lemma_put(e.with_profile(user@, now));
                },
                None => {
                    self@.lemma_put(
                        CachedUserView::from_user(user@, UserRelationship::Known, now),
                    );
                },
            }
        }
        match found {
            Some(i) => {
                self.users[i].display_name = user.display_name.clone();
                if !user.username.as_str().is_empty() {
                    self.users[i].username = Some(user.username.clone());
                }
                self.users[i].user_icon = user.user_icon.clone();
                self.users[i].profile_pic_override = user.profile_pic_override.clone();
                self.users[i].profile_pic_override_thumbnail =
                    user.profile_pic_override_thumbnail.clone();
                self.users[i].current_avatar_image_url = user.current_avatar_image_url.clone();
                self.users[i].current_avatar_thumbnail_image_url =
                    user.current_avatar_thumbnail_image_url.clone();
                self.users[i].bio = Some(user.bio.clone());
                self.users[i].status = Some(user.status);
                self.users[i].status_description = Some(user.status_description.clone());
                self.users[i].location = user.location.clone();
                self.users[i].platform = Some(parse_platform(user.platform.as_str()));
                self.users[i].full_user = Some(user);
                self.users[i].last_updated = now;
                assert(self.users@[i as int]@ == old(self).users@[i as int]@.with_profile(
                    user@,
                    now,
                ));
                assert(self@.entries =~= old(self)@.cache_full_user(user@, now).entries);
            },
            None => {
                self.put(CachedUser::from_user(user, UserRelationship::Known, now));
            },
        }
    }

    /// The friend records of all friends, online or not, in the order in
    /// which their users were first seen.
    pub fn get_all_friends(&self) -> (r: Vec<LimitedUserFriend>)
        ensures
            view_seq(r@) == self@.all_friends(),
    {
        let mut out: Vec<LimitedUserFriend> = Vec::new();
        let ghost entries = self@.entries;
        let ghost pick = |e: CachedUserView| friend_record(e);
        let mut i: usize = 0;
        proof {
            assert(entries.take(0) =~= Seq::empty());
            assert(view_seq(out@) =~= entries.take(0).filter_map(pick));
        }
        while i < self.users.len()
            invariant
                i <= self.users@.len(),
                entries == self@.entries,
                entries.len() == self.users@.len(),
                pick == |e: CachedUserView| friend_record(e),
                view_seq(out@) == entries.take(i as int).filter_map(pick),
            decreases self.users@.len() - i,
        {
            proof {
                assert(entries.take(i + 1).drop_last() =~= entries.take(i as int));
                assert(entries.take(i + 1).last() == self.users@[i as int]@);
            }
            if self.users[i].relationship == UserRelationship::Friend {
                match &self.users[i].friend_data {
                    Some(friend) => {
                        let ghost before = out@;
                        out.push(friend.clone());
                        proof {
                            assert(view_seq(out@) =~= view_seq(before) + seq![friend@]);
                        }
                    },
                    None => {},
                }
            }
            i += 1;
        }
        proof {
            assert(entries.take(self.users@.len() as int) =~= entries);
        }
        out
    }

    /// The friend records of the friends who are online, in the order in
    /// which their users were first seen.
    pub fn get_online_friends(&self) -> (r: Vec<LimitedUserFriend>)
        ensures
            view_seq(r@) == self@.online_friends(),
    {
        let mut out: Vec<LimitedUserFriend> = Vec::new();
        let ghost entries = self@.entries;
        let ghost pick = |e: CachedUserView| online_friend_record(e);
        let mut i: usize = 0;
        proof {
            assert(entries.take(0) =~= Seq::empty());
            assert(view_seq(out@) =~= entries.take(0).filter_map(pick));
        }
        while i < self.users.len()
            invariant
                i <= self.users@.len(),
                entries == self@.entries,
                entries.len() == self.users@.len(),
                pick == |e: CachedUserView| online_friend_record(e),
                view_seq(out@) == entries.take(i as int).filter_map(pick),
            decreases self.users@.len() - i,
        {
            proof {
                assert(entries.take(i + 1).drop_last() =~= entries.take(i as int));
                assert(entries.take(i + 1).last() == self.users@[i as int]@);
            }
            if self.users[i].relationship == UserRelationship::Friend && self.users[i].is_online() {
                match &self.users[i].friend_data {
                    Some(friend) => {
                        let ghost before = out@;
                        out.push(friend.clone());
                        proof {
                            assert(view_seq(out@) =~= view_seq(before) + seq![friend@]);
                        }
                    },
                    None => {},
                }
            }
            i += 1;
        }
        proof {
            assert(entries.take(self.users@.len() as int) =~= entries);
        }
        out
    }

    /// The number of friends who are online.
    pub fn get_online_friend_count(&self) -> (r: usize)
        ensures
            r == self@.online_friend_count(),
    {
        let ghost entries = self@.entries;
        let ghost pick = |e: CachedUserView|
            e.relationship == UserRelationship::Friend && e.is_online();
        let mut count: usize = 0;
        let mut i: usize = 0;
        proof {
            reveal(Seq::filter);
            assert(entries.take(0) =~= Seq::empty());
        }
        while i < self.users.len()
            invariant
                i <= self.users@.len(),
                entries == self@.entries,
                entries.len() == self.users@.len(),
                pick == |e: CachedUserView|
                    e.relationship == UserRelationship::Friend && e.is_online(),
                count == entries.take(i as int).filter(pick).len(),
                count <= i,
            decreases self.users@.len() - i,
        {
            proof {
                reveal(Seq::filter);
                assert(entries.take(i + 1).drop_last() =~= entries.take(i as int));
                assert(entries.take(i + 1).last() == self.users@[i as int]@);
            }
            if self.users[i].relationship == UserRelationship::Friend && self.users[i].is_online() {
                count += 1;
            }
            i += 1;
        }
        proof {
            assert(entries.take(self.users@.len() as int) =~= entries);
        }
        count
    }

    /// The number of friends.
    fn friend_count(&self) -> (r: usize)
        ensures
            r == self@.friend_count(),
    {
        let ghost entries = self@.entries;
        let ghost pick = |e: CachedUserView| e.relationship == UserRelationship::Friend;
        let mut count: usize = 0;
        let mut i: usize = 0;
        proof {
            reveal(Seq::filter);
            assert(entries.take(0) =~= Seq::empty());
        }
        while i < self.users.len()
            invariant
                i <= self.users@.len(),
                entries == self@.entries,
                entries.len() == self.users@.len(),
                pick == |e: CachedUserView| e.relationship == UserRelationship::Friend,
                count == entries.take(i as int).filter(pick).len(),
                count <= i,
            decreases self.users@.len() - i,
        {
            proof {
                reveal(Seq::filter);
                assert(entries.take(i + 1).drop_last() =~= entries.take(i as int));
                assert(entries.take(i + 1).last() == self.users@[i as int]@);
            }
            if self.users[i].relationship == UserRelationship::Friend {
                count += 1;
            }
            i += 1;
        }
        proof {
            assert(entries.take(self.users@.len() as int) =~= entries);
        }
        count
    }

    /// The entries whose display name holds `query`, without regard to case,
    /// in the order in which their users were first seen.
    pub fn search_users(&self, query: &str) -> (r: Vec<&CachedUser>)
        ensures
            view_seq(r@) == self@.search_users(query@),
    {
        let query_lower = str_chars(str_to_lowercase(query).as_str());
        let mut out: Vec<&CachedUser> = Vec::new();
        let ghost entries = self@.entries;
        let ghost pick = |e: CachedUserView|
            occurs_in(lowercase(query@), lowercase(e.display_name));
        let mut i: usize = 0;
        proof {
            reveal(Seq::filter);
            assert(entries.take(0) =~= Seq::empty());
            assert(view_seq(out@) =~= entries.take(0).filter(pick));
        }
        while i < self.users.len()
            invariant
                i <= self.users@.len(),
                entries == self@.entries,
                entries.len() == self.users@.len(),
                query_lower@ == lowercase(query@),
                pick == |e: CachedUserView|
                    occurs_in(lowercase(query@), lowercase(e.display_name)),
                view_seq(out@) == entries.take(i as int).filter(pick),
            decreases self.users@.len() - i,
        {
            proof {
                reveal(Seq::filter);
                assert(entries.take(i + 1).drop_last() =~= entries.take(i as int));
                assert(entries.take(i + 1).last() == self.users@[i as int]@);
            }
            let name_lower = str_chars(
                str_to_lowercase(self.users[i].display_name.as_str()).as_str(),
            );
            if chars_contain(&name_lower, &query_lower) {
                let ghost before = out@;
                out.push(&self.users[i]);
                proof {
                    assert(view_seq(out@) =~= view_seq(before).push(self.users@[i as int]@));
                }
            }
            i += 1;
        }
        proof {
            assert(entries.take(self.users@.len() as int) =~= entries);
        }
        out
    }

    /// Whether an entry stays under a rule of retention.
    fn keeps(&self, i: usize, rule: Retention) -> (r: bool)
        requires
            i < self.users@.len(),
        ensures
            r == self@.keeps(self.users@[i as int]@, rule),
    {
        let is_current = match &self.current_user_id {
            Some(current) => str_eq(current.as_str(), self.users[i].id.as_str()),
            None => false,
        };
        match rule {
            Retention::CurrentUserOnly => is_current,
            Retention::Fresh { max_age_seconds, now } => is_current
                || self.users[i].relationship == UserRelationship::Friend
                || self.users[i].age_seconds(now) < max_age_seconds,
        }
    }

    /// Drops the entries that do not stay under a rule of retention.
    fn retain(&mut self, rule: Retention)
        requires
            old(self).wf(),
        ensures
            final(self).wf(),
            final(self)@ == old(self)@.retain(rule),
    {
        let ghost start = self@;
        let ghost pick = |e: CachedUserView| start.keeps(e, rule);
        let ghost mut done: int = 0;
        let mut i: usize = 0;
        proof {
            reveal(Seq::filter);
            assert(start.entries.take(0) =~= Seq::empty());
            assert(start.entries.skip(0) =~= start.entries);
            assert(self@.entries =~= start.entries.take(0).filter(pick) + start.entries.skip(0));
        }
        while i < self.users.len()
            invariant
                start == old(self)@,
                pick == |e: CachedUserView| start.keeps(e, rule),
                self.current_user_id == old(self).current_user_id,
                0 <= done <= start.entries.len(),
                i == start.entries.take(done).filter(pick).len(),
                self.users@.len() - i == start.entries.len() - done,
                self@.entries == start.entries.take(done).filter(pick) + start.entries.skip(done),
            decreases self.users@.len() - i,
        {
            proof {
                reveal(Seq::filter);
                assert(start.entries.take(done + 1).drop_last() =~= start.entries.take(done));
                assert(start.entries.take(done + 1).last() == start.entries[done]);
                assert(self@.entries[i as int] == start.entries.skip(done)[0]);
            }
            if self.keeps(i, rule) {
                proof {
                    assert(self@.entries =~= start.entries.take(done + 1).filter(pick)
                        + start.entries.skip(done + 1));
                    done = done + 1;
                }
                i += 1;
            } else {
                let ghost before = self.users@;
                self.users.remove(i);
                proof {
                    assert(view_seq(self.users@) =~= view_seq(before).remove(i as int));
                    assert(self@.entries =~= start.entries.take(done + 1).filter(pick)
                        + start.entries.skip(done + 1));
                    done = done + 1;
                }
            }
        }
        proof {
            assert(start.entries.take(done) =~= start.entries);
            assert(self@.entries =~= start.entries.filter(pick));
            start.lemma_retain_wf(rule);
        }
    }

    /// Drops every entry but the authenticated user's; where no user is
    /// authenticated, every entry.
    pub fn clear_cache(&mut self)
        requires
            old(self).wf(),
        ensures
            final(self).wf(),
            final(self)@ == old(self)@.clear_cache(),
    {
        self.retain(Retention::CurrentUserOnly);
    }

    /// Drops every entry and forgets the authenticated user.
    pub fn clear_all(&mut self)
        ensures
            final(self).wf(),
            final(self)@ == UserStoreView::empty(),
    {
        self.users.clear();
        self.current_user_id = None;
        assert(self@.entries =~= Seq::empty());
    }

    /// Drops the stale entries: those last written `max_age_seconds` before
    /// `now` or earlier, but for the authenticated user's and for friends'.
    pub fn remove_stale(&mut self, max_age_seconds: u64, now: u64)
        requires
            old(self).wf(),
        ensures
            final(self).wf(),
            final(self)@ == old(self)@.remove_stale(max_age_seconds, now),
    {
        self.retain(Retention::Fresh { max_age_seconds, now });
    }

    /// The counts over the cache: entries, friends, friends online, and
    /// whether a user is authenticated.
    pub fn get_stats(&self) -> (r: UserStoreStats)
        ensures
            r == self@.stats(),
    {
        UserStoreStats {
            total_cached: self.users.len(),
            friends: self.friend_count(),
            online_friends: self.get_online_friend_count(),
            has_current_user: self.current_user_id.is_some(),
        }
    }
}

impl Default for UserStore {
    fn default() -> (r: Self)
        ensures
            r.wf(),
            r@ == UserStoreView::empty(),
    {
        UserStore::new()
    }
}

} // verus!
