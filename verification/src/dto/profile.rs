//! Response bodies of the profile endpoints.
use vstd::prelude::*;

verus! {

/// A user as others see them.
#[derive(Debug, Clone, PartialEq, Eq)]
pub struct ProfileResponse {
    pub username: String,
    pub bio: Option<String>,
    pub image: Option<String>,
    pub following: bool,
}

#[derive(Debug, Clone, PartialEq, Eq)]
pub struct GetResponse {
    pub profile: ProfileResponse,
}

#[derive(Debug, Clone, PartialEq, Eq)]
pub struct FollowResponse {
    pub profile: ProfileResponse,
}

#[derive(Debug, Clone, PartialEq, Eq)]
pub struct UnfollowResponse {
    pub profile: ProfileResponse,
}

} // verus!
