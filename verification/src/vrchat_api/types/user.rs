//! Users as the service describes them: the full profile and the leaner
//! friend record.

use vstd::prelude::*;
use crate::views::{clone_strings, view_opt, view_opt_seq, view_seq};
use super::enums::{AgeVerificationStatus, DeveloperType, FriendRequestStatus, UserStatus};

verus! {

/// The full profile of a user, as the profile request returns it.
///
/// The service sends `username` for the authenticated user only; for everyone
/// else it is empty.
#[derive(Debug, Clone)]
pub struct User {
    pub id: String,
    pub username: String,
    pub display_name: String,
    pub accepted_privacy_version: Option<i32>,
    pub accepted_tos_version: Option<i32>,
    pub account_deletion_date: Option<String>,
    pub state: String,
    pub status: UserStatus,
    pub status_description: String,
    pub status_first_time: Option<bool>,
    pub status_history: Vec<String>,
    pub bio: String,
    pub bio_links: Vec<String>,
    pub age_verification_status: AgeVerificationStatus,
    pub age_verified: Option<bool>,
    pub is_adult: Option<bool>,
    pub date_joined: Option<String>,
    pub last_login: Option<String>,
    pub last_activity: Option<String>,
    pub last_platform: Option<String>,
    pub last_mobile: Option<String>,
    pub platform: String,
    pub platform_history: Vec<String>,
    pub location: Option<String>,
    pub traveling_to_world: Option<String>,
    pub traveling_to_location: Option<String>,
    pub traveling_to_instance: Option<String>,
    pub home_location: Option<String>,
    pub instance_id: Option<String>,
    pub world_id: Option<String>,
    pub allow_avatar_copying: Option<bool>,
    pub two_factor_auth_enabled: Option<bool>,
    pub two_factor_auth_enabled_date: Option<String>,
    pub current_avatar: Option<String>,
    pub fallback_avatar: Option<String>,
    pub current_avatar_tags: Vec<String>,
    pub profile_pic_override: Option<String>,
    pub profile_pic_override_thumbnail: Option<String>,
    pub user_icon: Option<String>,
    pub current_avatar_image_url: Option<String>,
    pub current_avatar_thumbnail_image_url: Option<String>,
    pub banner_id: Option<String>,
    pub banner_url: Option<String>,
    pub pronouns: Option<String>,
    pub languages: Option<Vec<String>>,
    pub pronouns_history: Vec<String>,
    pub friends: Vec<String>,
    pub friend_group_names: Vec<String>,
    pub friend_key: Option<String>,
    pub friend_request_status: FriendRequestStatus,
    pub past_display_names: Option<Vec<PastDisplayName>>,
    pub badges: Option<Vec<Badge>>,
    pub tags: Vec<String>,
    pub is_friend: Option<bool>,
    pub note: Option<String>,
    pub developer_type: DeveloperType,
    pub is_booping_enabled: Option<bool>,
    pub receive_mobile_invitations: Option<bool>,
    pub hide_content_filter_settings: Option<bool>,
    pub has_birthday: Option<bool>,
    pub has_email: Option<bool>,
    pub has_pending_email: Option<bool>,
    pub has_logged_in_from_client: Option<bool>,
    pub unsubscribe: Option<bool>,
    pub updated_at: Option<String>,
    pub email_verified: Option<bool>,
    pub obfuscated_email: Option<String>,
    pub user_language: Option<String>,
    pub user_language_code: Option<String>,
    pub discord_id: Option<String>,
    pub discord_details: Option<DiscordDetails>,
    pub google_id: Option<String>,
    pub google_details: Option<GoogleDetails>,
    pub steam_id: Option<String>,
    pub steam_details: Option<SteamDetails>,
    pub oculus_id: Option<String>,
    pub pico_id: Option<String>,
    pub vive_id: Option<String>,
}

/// The mathematical value of a [`User`].
pub struct UserView {
    pub id: Seq<char>,
    pub username: Seq<char>,
    pub display_name: Seq<char>,
    pub accepted_privacy_version: Option<i32>,
    pub accepted_tos_version: Option<i32>,
    pub account_deletion_date: Option<Seq<char>>,
    pub state: Seq<char>,
    pub status: UserStatus,
    pub status_description: Seq<char>,
    pub status_first_time: Option<bool>,
    pub status_history: Seq<Seq<char>>,
    pub bio: Seq<char>,
    pub bio_links: Seq<Seq<char>>,
    pub age_verification_status: AgeVerificationStatus,
    pub age_verified: Option<bool>,
    pub is_adult: Option<bool>,
    pub date_joined: Option<Seq<char>>,
    pub last_login: Option<Seq<char>>,
    pub last_activity: Option<Seq<char>>,
    pub last_platform: Option<Seq<char>>,
    pub last_mobile: Option<Seq<char>>,
    pub platform: Seq<char>,
    pub platform_history: Seq<Seq<char>>,
    pub location: Option<Seq<char>>,
    pub traveling_to_world: Option<Seq<char>>,
    pub traveling_to_location: Option<Seq<char>>,
    pub traveling_to_instance: Option<Seq<char>>,
    pub home_location: Option<Seq<char>>,
    pub instance_id: Option<Seq<char>>,
    pub world_id: Option<Seq<char>>,
    pub allow_avatar_copying: Option<bool>,
    pub two_factor_auth_enabled: Option<bool>,
    pub two_factor_auth_enabled_date: Option<Seq<char>>,
    pub current_avatar: Option<Seq<char>>,
    pub fallback_avatar: Option<Seq<char>>,
    pub current_avatar_tags: Seq<Seq<char>>,
    pub profile_pic_override: Option<Seq<char>>,
    pub profile_pic_override_thumbnail: Option<Seq<char>>,
    pub user_icon: Option<Seq<char>>,
    pub current_avatar_image_url: Option<Seq<char>>,
    pub current_avatar_thumbnail_image_url: Option<Seq<char>>,
    pub banner_id: Option<Seq<char>>,
    pub banner_url: Option<Seq<char>>,
    pub pronouns: Option<Seq<char>>,
    pub languages: Option<Seq<Seq<char>>>,
    pub pronouns_history: Seq<Seq<char>>,
    pub friends: Seq<Seq<char>>,
    pub friend_group_names: Seq<Seq<char>>,
    pub friend_key: Option<Seq<char>>,
    pub friend_request_status: FriendRequestStatus,
    pub past_display_names: Option<Seq<PastDisplayNameView>>,
    pub badges: Option<Seq<BadgeView>>,
    pub tags: Seq<Seq<char>>,
    pub is_friend: Option<bool>,
    pub note: Option<Seq<char>>,
    pub developer_type: DeveloperType,
    pub is_booping_enabled: Option<bool>,
    pub receive_mobile_invitations: Option<bool>,
    pub hide_content_filter_settings: Option<bool>,
    pub has_birthday: Option<bool>,
    pub has_email: Option<bool>,
    pub has_pending_email: Option<bool>,
    pub has_logged_in_from_client: Option<bool>,
    pub unsubscribe: Option<bool>,
    pub updated_at: Option<Seq<char>>,
    pub email_verified: Option<bool>,
    pub obfuscated_email: Option<Seq<char>>,
    pub user_language: Option<Seq<char>>,
    pub user_language_code: Option<Seq<char>>,
    pub discord_id: Option<Seq<char>>,
    pub discord_details: Option<DiscordDetailsView>,
    pub google_id: Option<Seq<char>>,
    pub google_details: Option<GoogleDetailsView>,
    pub steam_id: Option<Seq<char>>,
    pub steam_details: Option<SteamDetailsView>,
    pub oculus_id: Option<Seq<char>>,
    pub pico_id: Option<Seq<char>>,
    pub vive_id: Option<Seq<char>>,
}

impl View for User {
    type V = UserView;

    open spec fn view(&self) -> UserView {
        UserView {
            id: self.id@,
            username: self.username@,
            display_name: self.display_name@,
            accepted_privacy_version: self.accepted_privacy_version,
            accepted_tos_version: self.accepted_tos_version,
            account_deletion_date: view_opt(self.account_deletion_date),
            state: self.state@,
            status: self.status,
            status_description: self.status_description@,
            status_first_time: self.status_first_time,
            status_history: view_seq(self.status_history@),
            bio: self.bio@,
            bio_links: view_seq(self.bio_links@),
            age_verification_status: self.age_verification_status,
            age_verified: self.age_verified,
            is_adult: self.is_adult,
            date_joined: view_opt(self.date_joined),
            last_login: view_opt(self.last_login),
            last_activity: view_opt(self.last_activity),
            last_platform: view_opt(self.last_platform),
            last_mobile: view_opt(self.last_mobile),
            platform: self.platform@,
            platform_history: view_seq(self.platform_history@),
            location: view_opt(self.location),
            traveling_to_world: view_opt(self.traveling_to_world),
            traveling_to_location: view_opt(self.traveling_to_location),
            traveling_to_instance: view_opt(self.traveling_to_instance),
            home_location: view_opt(self.home_location),
            instance_id: view_opt(self.instance_id),
            world_id: view_opt(self.world_id),
            allow_avatar_copying: self.allow_avatar_copying,
            two_factor_auth_enabled: self.two_factor_auth_enabled,
            two_factor_auth_enabled_date: view_opt(self.two_factor_auth_enabled_date),
            current_avatar: view_opt(self.current_avatar),
            fallback_avatar: view_opt(self.fallback_avatar),
            current_avatar_tags: view_seq(self.current_avatar_tags@),
            profile_pic_override: view_opt(self.profile_pic_override),
            profile_pic_override_thumbnail: view_opt(self.profile_pic_override_thumbnail),
            user_icon: view_opt(self.user_icon),
            current_avatar_image_url: view_opt(self.current_avatar_image_url),
            current_avatar_thumbnail_image_url: view_opt(self.current_avatar_thumbnail_image_url),
            banner_id: view_opt(self.banner_id),
            banner_url: view_opt(self.banner_url),
            pronouns: view_opt(self.pronouns),
            languages: view_opt_seq(self.languages),
            pronouns_history: view_seq(self.pronouns_history@),
            friends: view_seq(self.friends@),
            friend_group_names: view_seq(self.friend_group_names@),
            friend_key: view_opt(self.friend_key),
            friend_request_status: self.friend_request_status,
            past_display_names: view_opt_seq(self.past_display_names),
            badges: view_opt_seq(self.badges),
            tags: view_seq(self.tags@),
            is_friend: self.is_friend,
            note: view_opt(self.note),
            developer_type: self.developer_type,
            is_booping_enabled: self.is_booping_enabled,
            receive_mobile_invitations: self.receive_mobile_invitations,
            hide_content_filter_settings: self.hide_content_filter_settings,
            has_birthday: self.has_birthday,
            has_email: self.has_email,
            has_pending_email: self.has_pending_email,
            has_logged_in_from_client: self.has_logged_in_from_client,
            unsubscribe: self.unsubscribe,
            updated_at: view_opt(self.updated_at),
            email_verified: self.email_verified,
            obfuscated_email: view_opt(self.obfuscated_email),
            user_language: view_opt(self.user_language),
            user_language_code: view_opt(self.user_language_code),
            discord_id: view_opt(self.discord_id),
            discord_details: view_opt(self.discord_details),
            google_id: view_opt(self.google_id),
            google_details: view_opt(self.google_details),
            steam_id: view_opt(self.steam_id),
            steam_details: view_opt(self.steam_details),
            oculus_id: view_opt(self.oculus_id),
            pico_id: view_opt(self.pico_id),
            vive_id: view_opt(self.vive_id),
        }
    }
}

/// The Discord account linked to a user.
#[derive(Debug, Clone)]
pub struct DiscordDetails {
    pub global_name: Option<String>,
    pub id: Option<String>,
}

/// The mathematical value of a [`DiscordDetails`].
pub struct DiscordDetailsView {
    pub global_name: Option<Seq<char>>,
    pub id: Option<Seq<char>>,
}

impl View for DiscordDetails {
    type V = DiscordDetailsView;

    open spec fn view(&self) -> DiscordDetailsView {
        DiscordDetailsView {
            global_name: view_opt(self.global_name),
            id: view_opt(self.id),
        }
    }
}

/// The Google account linked to a user.
#[derive(Debug, Clone)]
pub struct GoogleDetails {
    pub email_matches: Option<bool>,
}

/// The mathematical value of a [`GoogleDetails`].
pub struct GoogleDetailsView {
    pub email_matches: Option<bool>,
}

impl View for GoogleDetails {
    type V = GoogleDetailsView;

    open spec fn view(&self) -> GoogleDetailsView {
        GoogleDetailsView {
            email_matches: self.email_matches,
        }
    }
}

/// The Steam account linked to a user.
#[derive(Debug, Clone)]
pub struct SteamDetails {
    pub avatar: Option<String>,
    pub avatarfull: Option<String>,
    pub avatarhash: Option<String>,
    pub avatarmedium: Option<String>,
    pub communityvisibilitystate: Option<i32>,
    pub gameextrainfo: Option<String>,
    pub gameid: Option<String>,
    pub loccountrycode: Option<String>,
    pub locstatecode: Option<String>,
    pub personaname: Option<String>,
    pub personastate: Option<i32>,
    pub personastateflags: Option<i32>,
    pub primaryclanid: Option<String>,
    pub profilestate: Option<i32>,
    pub profileurl: Option<String>,
    pub steamid: Option<String>,
    pub timecreated: Option<i32>,
}

/// The mathematical value of a [`SteamDetails`].
pub struct SteamDetailsView {
    pub avatar: Option<Seq<char>>,
    pub avatarfull: Option<Seq<char>>,
    pub avatarhash: Option<Seq<char>>,
    pub avatarmedium: Option<Seq<char>>,
    pub communityvisibilitystate: Option<i32>,
    pub gameextrainfo: Option<Seq<char>>,
    pub gameid: Option<Seq<char>>,
    pub loccountrycode: Option<Seq<char>>,
    pub locstatecode: Option<Seq<char>>,
    pub personaname: Option<Seq<char>>,
    pub personastate: Option<i32>,
    pub personastateflags: Option<i32>,
    pub primaryclanid: Option<Seq<char>>,
    pub profilestate: Option<i32>,
    pub profileurl: Option<Seq<char>>,
    pub steamid: Option<Seq<char>>,
    pub timecreated: Option<i32>,
}

impl View for SteamDetails {
    type V = SteamDetailsView;

    open spec fn view(&self) -> SteamDetailsView {
        SteamDetailsView {
            avatar: view_opt(self.avatar),
            avatarfull: view_opt(self.avatarfull),
            avatarhash: view_opt(self.avatarhash),
            avatarmedium: view_opt(self.avatarmedium),
            communityvisibilitystate: self.communityvisibilitystate,
            gameextrainfo: view_opt(self.gameextrainfo),
            gameid: view_opt(self.gameid),
            loccountrycode: view_opt(self.loccountrycode),
            locstatecode: view_opt(self.locstatecode),
            personaname: view_opt(self.personaname),
            personastate: self.personastate,
            personastateflags: self.personastateflags,
            primaryclanid: view_opt(self.primaryclanid),
            profilestate: self.profilestate,
            profileurl: view_opt(self.profileurl),
            steamid: view_opt(self.steamid),
            timecreated: self.timecreated,
        }
    }
}

/// A display name that a user had before.
#[derive(Debug, Clone)]
pub struct PastDisplayName {
    pub display_name: String,
    pub updated_at: Option<String>,
    pub reverted: Option<bool>,
}

/// The mathematical value of a [`PastDisplayName`].
pub struct PastDisplayNameView {
    pub display_name: Seq<char>,
    pub updated_at: Option<Seq<char>>,
    pub reverted: Option<bool>,
}

impl View for PastDisplayName {
    type V = PastDisplayNameView;

    open spec fn view(&self) -> PastDisplayNameView {
        PastDisplayNameView {
            display_name: self.display_name@,
            updated_at: view_opt(self.updated_at),
            reverted: self.reverted,
        }
    }
}

/// A badge on a user's profile.
#[derive(Debug, Clone)]
pub struct Badge {
    pub badge_id: String,
    pub badge_name: String,
    pub badge_description: String,
    pub assigned_at: Option<String>,
    pub showcased: bool,
    pub badge_image_url: Option<String>,
    pub updated_at: Option<String>,
    pub hidden: bool,
}

/// The mathematical value of a [`Badge`].
pub struct BadgeView {
    pub badge_id: Seq<char>,
    pub badge_name: Seq<char>,
    pub badge_description: Seq<char>,
    pub assigned_at: Option<Seq<char>>,
    pub showcased: bool,
    pub badge_image_url: Option<Seq<char>>,
    pub updated_at: Option<Seq<char>>,
    pub hidden: bool,
}

impl View for Badge {
    type V = BadgeView;

    open spec fn view(&self) -> BadgeView {
        BadgeView {
            badge_id: self.badge_id@,
            badge_name: self.badge_name@,
            badge_description: self.badge_description@,
            assigned_at: view_opt(self.assigned_at),
            showcased: self.showcased,
            badge_image_url: view_opt(self.badge_image_url),
            updated_at: view_opt(self.updated_at),
            hidden: self.hidden,
        }
    }
}

/// A friend as the friend list and the friend events describe one: leaner than
/// the full profile.
#[derive(Debug)]
pub struct LimitedUserFriend {
    pub id: String,
    pub display_name: String,
    pub bio: String,
    pub bio_links: Vec<String>,
    pub current_avatar_image_url: Option<String>,
    pub current_avatar_thumbnail_image_url: Option<String>,
    pub current_avatar_tags: Vec<String>,
    pub developer_type: DeveloperType,
    pub friend_key: Option<String>,
    pub is_friend: bool,
    pub image_url: Option<String>,
    pub last_platform: Option<String>,
    pub location: Option<String>,
    pub last_login: Option<String>,
    pub last_activity: Option<String>,
    pub last_mobile: Option<String>,
    pub platform: String,
    pub profile_pic_override: Option<String>,
    pub profile_pic_override_thumbnail: Option<String>,
    pub status: UserStatus,
    pub status_description: String,
    pub tags: Vec<String>,
    pub user_icon: Option<String>,
}

/// The mathematical value of a [`LimitedUserFriend`].
pub struct LimitedUserFriendView {
    pub id: Seq<char>,
    pub display_name: Seq<char>,
    pub bio: Seq<char>,
    pub bio_links: Seq<Seq<char>>,
    pub current_avatar_image_url: Option<Seq<char>>,
    pub current_avatar_thumbnail_image_url: Option<Seq<char>>,
    pub current_avatar_tags: Seq<Seq<char>>,
    pub developer_type: DeveloperType,
    pub friend_key: Option<Seq<char>>,
    pub is_friend: bool,
    pub image_url: Option<Seq<char>>,
    pub last_platform: Option<Seq<char>>,
    pub location: Option<Seq<char>>,
    pub last_login: Option<Seq<char>>,
    pub last_activity: Option<Seq<char>>,
    pub last_mobile: Option<Seq<char>>,
    pub platform: Seq<char>,
    pub profile_pic_override: Option<Seq<char>>,
    pub profile_pic_override_thumbnail: Option<Seq<char>>,
    pub status: UserStatus,
    pub status_description: Seq<char>,
    pub tags: Seq<Seq<char>>,
    pub user_icon: Option<Seq<char>>,
}

impl View for LimitedUserFriend {
    type V = LimitedUserFriendView;

    open spec fn view(&self) -> LimitedUserFriendView {
        LimitedUserFriendView {
            id: self.id@,
            display_name: self.display_name@,
            bio: self.bio@,
            bio_links: view_seq(self.bio_links@),
            current_avatar_image_url: view_opt(self.current_avatar_image_url),
            current_avatar_thumbnail_image_url: view_opt(self.current_avatar_thumbnail_image_url),
            current_avatar_tags: view_seq(self.current_avatar_tags@),
            developer_type: self.developer_type,
            friend_key: view_opt(self.friend_key),
            is_friend: self.is_friend,
            image_url: view_opt(self.image_url),
            last_platform: view_opt(self.last_platform),
            location: view_opt(self.location),
            last_login: view_opt(self.last_login),
            last_activity: view_opt(self.last_activity),
            last_mobile: view_opt(self.last_mobile),
            platform: self.platform@,
            profile_pic_override: view_opt(self.profile_pic_override),
            profile_pic_override_thumbnail: view_opt(self.profile_pic_override_thumbnail),
            status: self.status,
            status_description: self.status_description@,
            tags: view_seq(self.tags@),
            user_icon: view_opt(self.user_icon),
        }
    }
}

impl Clone for LimitedUserFriend {
    fn clone(&self) -> (r: Self)
        ensures
            r@ == self@,
    {
        LimitedUserFriend {
            id: self.id.clone(),
            display_name: self.display_name.clone(),
            bio: self.bio.clone(),
            bio_links: clone_strings(&self.bio_links),
            current_avatar_image_url: self.current_avatar_image_url.clone(),
            current_avatar_thumbnail_image_url: self.current_avatar_thumbnail_image_url.clone(),
            current_avatar_tags: clone_strings(&self.current_avatar_tags),
            developer_type: self.developer_type,
            friend_key: self.friend_key.clone(),
            is_friend: self.is_friend,
            image_url: self.image_url.clone(),
            last_platform: self.last_platform.clone(),
            location: self.location.clone(),
            last_login: self.last_login.clone(),
            last_activity: self.last_activity.clone(),
            last_mobile: self.last_mobile.clone(),
            platform: self.platform.clone(),
            profile_pic_override: self.profile_pic_override.clone(),
            profile_pic_override_thumbnail: self.profile_pic_override_thumbnail.clone(),
            status: self.status,
            status_description: self.status_description.clone(),
            tags: clone_strings(&self.tags),
            user_icon: self.user_icon.clone(),
        }
    }
}

} // verus!
