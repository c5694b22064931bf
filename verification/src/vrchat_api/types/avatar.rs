//! Parts of the description of an avatar.

use vstd::prelude::*;

verus! {

/// The performance rating of an avatar, by platform.
#[derive(Debug, Clone, Default)]
pub struct AvatarPerformance {
    pub android: Option<String>,
    pub ios: Option<String>,
    pub standalonewindows: Option<String>,
}

/// The styles of an avatar.
#[derive(Debug, Clone, Default)]
pub struct AvatarStyles {
    pub primary: Option<String>,
    pub secondary: Option<String>,
}

} // verus!
