//! Records and enumerations of the service.

pub mod auth;
pub mod avatar;
pub mod enums;
pub mod two_factor;
pub mod user;

pub use auth::{
    LoginCredentials, LoginResult, TwoFactorAuthResponse, TwoFactorCode, TwoFactorVerifyResponse,
    UpdateStatusRequest,
};
pub use avatar::{AvatarPerformance, AvatarStyles};
pub use enums::{
    AgeVerificationStatus, DeveloperType, FriendRequestStatus, OrderOption, PerformanceRatings,
    ReleaseStatus, UserState, UserStatus,
};
pub use two_factor::TwoFactorMethod;
pub use user::{
    Badge, DiscordDetails, GoogleDetails, LimitedUserFriend, PastDisplayName, SteamDetails, User,
};
