//! The closed vocabularies of the service: each value with the name it has on
//! the wire.

use vstd::prelude::*;
use crate::text::str_eq;

verus! {

/// User's current status
#[derive(Debug, Clone, Copy, PartialEq, Eq, Structural)]
pub enum UserStatus {
    /// User is online and active
    Active,
    /// User is online and auto accepting invitations to join
    JoinMe,
    /// User is online but is hiding their location and requires invitation to join
    AskMe,
    /// User is busy
    Busy,
    /// User is offline
    Offline,
}

impl Default for UserStatus {
    fn default() -> (r: Self)
        ensures
            r == UserStatus::Offline,
    {
        UserStatus::Offline
    }
}

impl UserStatus {
    /// The name of the value on the wire.
    pub open spec fn name(self) -> Seq<char> {
        match self {
            UserStatus::Active => "active"@,
            UserStatus::JoinMe => "join me"@,
            UserStatus::AskMe => "ask me"@,
            UserStatus::Busy => "busy"@,
            UserStatus::Offline => "offline"@,
        }
    }

    /// The value that `name` names, if any.
    pub open spec fn named(name: Seq<char>) -> Option<UserStatus> {
        if name == "active"@ {
            Some(UserStatus::Active)
        } else if name == "join me"@ {
            Some(UserStatus::JoinMe)
        } else if name == "ask me"@ {
            Some(UserStatus::AskMe)
        } else if name == "busy"@ {
            Some(UserStatus::Busy)
        } else if name == "offline"@ {
            Some(UserStatus::Offline)
        } else {
            None
        }
    }

    /// The name of the value on the wire, as an owned string.
    pub fn to_string(&self) -> (r: String)
        ensures
            r@ == self.name(),
    {
        match self {
            UserStatus::Active => "active".to_string(),
            UserStatus::JoinMe => "join me".to_string(),
            UserStatus::AskMe => "ask me".to_string(),
            UserStatus::Busy => "busy".to_string(),
            UserStatus::Offline => "offline".to_string(),
        }
    }

    /// Reads a value from its name on the wire; `None` for any other text.
    pub fn from_name(name: &str) -> (r: Option<UserStatus>)
        ensures
            r == UserStatus::named(name@),
    {
        if str_eq(name, "active") {
            Some(UserStatus::Active)
        } else if str_eq(name, "join me") {
            Some(UserStatus::JoinMe)
        } else if str_eq(name, "ask me") {
            Some(UserStatus::AskMe)
        } else if str_eq(name, "busy") {
            Some(UserStatus::Busy)
        } else if str_eq(name, "offline") {
            Some(UserStatus::Offline)
        } else {
            None
        }
    }
}

/// Release status of avatars and worlds
#[derive(Debug, Clone, Copy, PartialEq, Eq, Structural)]
pub enum ReleaseStatus {
    /// Publicly released
    Public,
    /// Private/restricted access
    Private,
    /// Hidden from listings
    Hidden,
    /// Filter for all statuses
    All,
}

impl Default for ReleaseStatus {
    fn default() -> (r: Self)
        ensures
            r == ReleaseStatus::Public,
    {
        ReleaseStatus::Public
    }
}

impl ReleaseStatus {
    /// The name of the value on the wire.
    pub open spec fn name(self) -> Seq<char> {
        match self {
            ReleaseStatus::Public => "public"@,
            ReleaseStatus::Private => "private"@,
            ReleaseStatus::Hidden => "hidden"@,
            ReleaseStatus::All => "all"@,
        }
    }

    /// The value that `name` names, if any.
    pub open spec fn named(name: Seq<char>) -> Option<ReleaseStatus> {
        if name == "public"@ {
            Some(ReleaseStatus::Public)
        } else if name == "private"@ {
            Some(ReleaseStatus::Private)
        } else if name == "hidden"@ {
            Some(ReleaseStatus::Hidden)
        } else if name == "all"@ {
            Some(ReleaseStatus::All)
        } else {
            None
        }
    }

    /// The name of the value on the wire, as an owned string.
    pub fn to_string(&self) -> (r: String)
        ensures
            r@ == self.name(),
    {
        match self {
            ReleaseStatus::Public => "public".to_string(),
            ReleaseStatus::Private => "private".to_string(),
            ReleaseStatus::Hidden => "hidden".to_string(),
            ReleaseStatus::All => "all".to_string(),
        }
    }

    /// Reads a value from its name on the wire; `None` for any other text.
    pub fn from_name(name: &str) -> (r: Option<ReleaseStatus>)
        ensures
            r == ReleaseStatus::named(name@),
    {
        if str_eq(name, "public") {
            Some(ReleaseStatus::Public)
        } else if str_eq(name, "private") {
            Some(ReleaseStatus::Private)
        } else if str_eq(name, "hidden") {
            Some(ReleaseStatus::Hidden)
        } else if str_eq(name, "all") {
            Some(ReleaseStatus::All)
        } else {
            None
        }
    }
}

/// User's developer type/staff level
#[derive(Debug, Clone, Copy, PartialEq, Eq, Structural)]
pub enum DeveloperType {
    /// Normal user
    Normal,
    /// Trusted user
    Trusted,
    /// VRChat Developer/Staff
    Internal,
    /// VRChat Moderator
    Moderator,
}

impl Default for DeveloperType {
    fn default() -> (r: Self)
        ensures
            r == DeveloperType::Normal,
    {
        DeveloperType::Normal
    }
}

impl DeveloperType {
    /// The name of the value on the wire.
    pub open spec fn name(self) -> Seq<char> {
        match self {
            DeveloperType::Normal => "none"@,
            DeveloperType::Trusted => "trusted"@,
            DeveloperType::Internal => "internal"@,
            DeveloperType::Moderator => "moderator"@,
        }
    }

    /// The value that `name` names, if any.
    pub open spec fn named(name: Seq<char>) -> Option<DeveloperType> {
        if name == "none"@ {
            Some(DeveloperType::Normal)
        } else if name == "trusted"@ {
            Some(DeveloperType::Trusted)
        } else if name == "internal"@ {
            Some(DeveloperType::Internal)
        } else if name == "moderator"@ {
            Some(DeveloperType::Moderator)
        } else {
            None
        }
    }

    /// The name of the value on the wire, as an owned string.
    pub fn to_string(&self) -> (r: String)
        ensures
            r@ == self.name(),
    {
        match self {
            DeveloperType::Normal => "none".to_string(),
            DeveloperType::Trusted => "trusted".to_string(),
            DeveloperType::Internal => "internal".to_string(),
            DeveloperType::Moderator => "moderator".to_string(),
        }
    }

    /// Reads a value from its name on the wire; `None` for any other text.
    pub fn from_name(name: &str) -> (r: Option<DeveloperType>)
        ensures
            r == DeveloperType::named(name@),
    {
        if str_eq(name, "none") {
            Some(DeveloperType::Normal)
        } else if str_eq(name, "trusted") {
            Some(DeveloperType::Trusted)
        } else if str_eq(name, "internal") {
            Some(DeveloperType::Internal)
        } else if str_eq(name, "moderator") {
            Some(DeveloperType::Moderator)
        } else {
            None
        }
    }
}

/// Age verification status
#[derive(Debug, Clone, Copy, PartialEq, Eq, Structural)]
pub enum AgeVerificationStatus {
    /// Age verification status is hidden
    Hidden,
    /// Legacy verified status (obsolete)
    Verified,
    /// User is verified to be 18+
    Plus18,
}

impl Default for AgeVerificationStatus {
    fn default() -> (r: Self)
        ensures
            r == AgeVerificationStatus::Hidden,
    {
        AgeVerificationStatus::Hidden
    }
}

impl AgeVerificationStatus {
    /// The name of the value on the wire.
    pub open spec fn name(self) -> Seq<char> {
        match self {
            AgeVerificationStatus::Hidden => "hidden"@,
            AgeVerificationStatus::Verified => "verified"@,
            AgeVerificationStatus::Plus18 => "18+"@,
        }
    }

    /// The value that `name` names, if any.
    pub open spec fn named(name: Seq<char>) -> Option<AgeVerificationStatus> {
        if name == "hidden"@ {
            Some(AgeVerificationStatus::Hidden)
        } else if name == "verified"@ {
            Some(AgeVerificationStatus::Verified)
        } else if name == "18+"@ {
            Some(AgeVerificationStatus::Plus18)
        } else {
            None
        }
    }

    /// The name of the value on the wire, as an owned string.
    pub fn to_string(&self) -> (r: String)
        ensures
            r@ == self.name(),
    {
        match self {
            AgeVerificationStatus::Hidden => "hidden".to_string(),
            AgeVerificationStatus::Verified => "verified".to_string(),
            AgeVerificationStatus::Plus18 => "18+".to_string(),
        }
    }

    /// Reads a value from its name on the wire; `None` for any other text.
    pub fn from_name(name: &str) -> (r: Option<AgeVerificationStatus>)
        ensures
            r == AgeVerificationStatus::named(name@),
    {
        if str_eq(name, "hidden") {
            Some(AgeVerificationStatus::Hidden)
        } else if str_eq(name, "verified") {
            Some(AgeVerificationStatus::Verified)
        } else if str_eq(name, "18+") {
            Some(AgeVerificationStatus::Plus18)
        } else {
            None
        }
    }
}

/// Friend request status
#[derive(Debug, Clone, Copy, PartialEq, Eq, Structural)]
pub enum FriendRequestStatus {
    /// No friend request
    NoRequest,
    /// Outgoing friend request pending
    Outgoing,
    /// Incoming friend request pending
    Incoming,
    /// Completed friend request
    Completed,
}

impl Default for FriendRequestStatus {
    fn default() -> (r: Self)
        ensures
            r == FriendRequestStatus::NoRequest,
    {
        FriendRequestStatus::NoRequest
    }
}

impl FriendRequestStatus {
    /// The name of the value on the wire.
    pub open spec fn name(self) -> Seq<char> {
        match self {
            FriendRequestStatus::NoRequest => ""@,
            FriendRequestStatus::Outgoing => "outgoing"@,
            FriendRequestStatus::Incoming => "incoming"@,
            FriendRequestStatus::Completed => "completed"@,
        }
    }

    /// The value that `name` names, if any.
    pub open spec fn named(name: Seq<char>) -> Option<FriendRequestStatus> {
        if name == ""@ {
            Some(FriendRequestStatus::NoRequest)
        } else if name == "outgoing"@ {
            Some(FriendRequestStatus::Outgoing)
        } else if name == "incoming"@ {
            Some(FriendRequestStatus::Incoming)
        } else if name == "completed"@ {
            Some(FriendRequestStatus::Completed)
        } else {
            None
        }
    }

    /// The name of the value on the wire, as an owned string.
    pub fn to_string(&self) -> (r: String)
        ensures
            r@ == self.name(),
    {
        match self {
            FriendRequestStatus::NoRequest => "".to_string(),
            FriendRequestStatus::Outgoing => "outgoing".to_string(),
            FriendRequestStatus::Incoming => "incoming".to_string(),
            FriendRequestStatus::Completed => "completed".to_string(),
        }
    }

    /// Reads a value from its name on the wire; `None` for any other text.
    pub fn from_name(name: &str) -> (r: Option<FriendRequestStatus>)
        ensures
            r == FriendRequestStatus::named(name@),
    {
        if str_eq(name, "") {
            Some(FriendRequestStatus::NoRequest)
        } else if str_eq(name, "outgoing") {
            Some(FriendRequestStatus::Outgoing)
        } else if str_eq(name, "incoming") {
            Some(FriendRequestStatus::Incoming)
        } else if str_eq(name, "completed") {
            Some(FriendRequestStatus::Completed)
        } else {
            None
        }
    }
}

/// State of the user
#[derive(Debug, Clone, Copy, PartialEq, Eq, Structural)]
pub enum UserState {
    /// User is offline
    Offline,
    /// User is active
    Active,
    /// User is online
    Online,
}

impl Default for UserState {
    fn default() -> (r: Self)
        ensures
            r == UserState::Offline,
    {
        UserState::Offline
    }
}

impl UserState {
    /// The name of the value on the wire.
    pub open spec fn name(self) -> Seq<char> {
        match self {
            UserState::Offline => "offline"@,
            UserState::Active => "active"@,
            UserState::Online => "online"@,
        }
    }

    /// The value that `name` names, if any.
    pub open spec fn named(name: Seq<char>) -> Option<UserState> {
        if name == "offline"@ {
            Some(UserState::Offline)
        } else if name == "active"@ {
            Some(UserState::Active)
        } else if name == "online"@ {
            Some(UserState::Online)
        } else {
            None
        }
    }

    /// The name of the value on the wire, as an owned string.
    pub fn to_string(&self) -> (r: String)
        ensures
            r@ == self.name(),
    {
        match self {
            UserState::Offline => "offline".to_string(),
            UserState::Active => "active".to_string(),
            UserState::Online => "online".to_string(),
        }
    }

    /// Reads a value from its name on the wire; `None` for any other text.
    pub fn from_name(name: &str) -> (r: Option<UserState>)
        ensures
            r == UserState::named(name@),
    {
        if str_eq(name, "offline") {
            Some(UserState::Offline)
        } else if str_eq(name, "active") {
            Some(UserState::Active)
        } else if str_eq(name, "online") {
            Some(UserState::Online)
        } else {
            None
        }
    }
}

/// Avatar performance ratings
#[derive(Debug, Clone, Copy, PartialEq, Eq, Structural)]
pub enum PerformanceRatings {
    /// No rating
    Unrated,
    /// Excellent performance
    Excellent,
    /// Good performance
    Good,
    /// Medium performance
    Medium,
    /// Poor performance
    Poor,
    /// Very poor performance
    VeryPoor,
}

impl Default for PerformanceRatings {
    fn default() -> (r: Self)
        ensures
            r == PerformanceRatings::Unrated,
    {
        PerformanceRatings::Unrated
    }
}

impl PerformanceRatings {
    /// The name of the value on the wire.
    pub open spec fn name(self) -> Seq<char> {
        match self {
            PerformanceRatings::Unrated => "None"@,
            PerformanceRatings::Excellent => "Excellent"@,
            PerformanceRatings::Good => "Good"@,
            PerformanceRatings::Medium => "Medium"@,
            PerformanceRatings::Poor => "Poor"@,
            PerformanceRatings::VeryPoor => "VeryPoor"@,
        }
    }

    /// The value that `name` names, if any.
    pub open spec fn named(name: Seq<char>) -> Option<PerformanceRatings> {
        if name == "None"@ {
            Some(PerformanceRatings::Unrated)
        } else if name == "Excellent"@ {
            Some(PerformanceRatings::Excellent)
        } else if name == "Good"@ {
            Some(PerformanceRatings::Good)
        } else if name == "Medium"@ {
            Some(PerformanceRatings::Medium)
        } else if name == "Poor"@ {
            Some(PerformanceRatings::Poor)
        } else if name == "VeryPoor"@ {
            Some(PerformanceRatings::VeryPoor)
        } else {
            None
        }
    }

    /// The name of the value on the wire, as an owned string.
    pub fn to_string(&self) -> (r: String)
        ensures
            r@ == self.name(),
    {
        match self {
            PerformanceRatings::Unrated => "None".to_string(),
            PerformanceRatings::Excellent => "Excellent".to_string(),
            PerformanceRatings::Good => "Good".to_string(),
            PerformanceRatings::Medium => "Medium".to_string(),
            PerformanceRatings::Poor => "Poor".to_string(),
            PerformanceRatings::VeryPoor => "VeryPoor".to_string(),
        }
    }

    /// Reads a value from its name on the wire; `None` for any other text.
    pub fn from_name(name: &str) -> (r: Option<PerformanceRatings>)
        ensures
            r == PerformanceRatings::named(name@),
    {
        if str_eq(name, "None") {
            Some(PerformanceRatings::Unrated)
        } else if str_eq(name, "Excellent") {
            Some(PerformanceRatings::Excellent)
        } else if str_eq(name, "Good") {
            Some(PerformanceRatings::Good)
        } else if str_eq(name, "Medium") {
            Some(PerformanceRatings::Medium)
        } else if str_eq(name, "Poor") {
            Some(PerformanceRatings::Poor)
        } else if str_eq(name, "VeryPoor") {
            Some(PerformanceRatings::VeryPoor)
        } else {
            None
        }
    }
}

/// Sort order for API queries
#[derive(Debug, Clone, Copy, PartialEq, Eq, Structural)]
pub enum OrderOption {
    /// Ascending order
    Ascending,
    /// Descending order
    Descending,
}

impl Default for OrderOption {
    fn default() -> (r: Self)
        ensures
            r == OrderOption::Descending,
    {
        OrderOption::Descending
    }
}

impl OrderOption {
    /// The name of the value on the wire.
    pub open spec fn name(self) -> Seq<char> {
        match self {
            OrderOption::Ascending => "ascending"@,
            OrderOption::Descending => "descending"@,
        }
    }

    /// The value that `name` names, if any.
    pub open spec fn named(name: Seq<char>) -> Option<OrderOption> {
        if name == "ascending"@ {
            Some(OrderOption::Ascending)
        } else if name == "descending"@ {
            Some(OrderOption::Descending)
        } else {
            None
        }
    }

    /// The name of the value on the wire, as an owned string.
    pub fn to_string(&self) -> (r: String)
        ensures
            r@ == self.name(),
    {
        match self {
            OrderOption::Ascending => "ascending".to_string(),
            OrderOption::Descending => "descending".to_string(),
        }
    }

    /// Reads a value from its name on the wire; `None` for any other text.
    pub fn from_name(name: &str) -> (r: Option<OrderOption>)
        ensures
            r == OrderOption::named(name@),
    {
        if str_eq(name, "ascending") {
            Some(OrderOption::Ascending)
        } else if str_eq(name, "descending") {
            Some(OrderOption::Descending)
        } else {
            None
        }
    }
}

} // verus!
