use vstd::prelude::*;

use crate::ids::Id;

verus! {

/// A point in time, as milliseconds since the Unix epoch.
#[derive(Debug, Clone, Copy, PartialEq, Eq, Structural)]
pub struct Timestamp {
    pub unix_millis: i64,
}

/// The kind of a group's owner.
#[derive(Debug, Clone, Copy, PartialEq, Eq, Structural)]
pub enum OwnerType {
    User,
}

/// The owner of a group as the batch endpoint reports it.
#[derive(Debug, Clone, Copy, PartialEq, Eq, Structural)]
pub struct BatchOwner {
    pub id: Id,
    pub owner_type: OwnerType,
}

/// The owner of a group as the per-group endpoint reports it.
#[derive(Debug, Clone)]
pub struct DetailedOwner {
    pub has_verified_badge: bool,
    pub user_id: Id,
    pub username: String,
    pub display_name: String,
}

/// A group's shout.
#[derive(Debug, Clone)]
pub struct Shout {
    pub body: String,
    pub poster: DetailedOwner,
    pub created: Timestamp,
    pub updated: Timestamp,
}

/// One entry of the batch endpoint's answer. The pipeline reads `id` and
/// `owner`; the rest is carried for display.
#[derive(Debug, Clone)]
pub struct BatchInfo {
    pub id: Id,
    pub name: String,
    pub description: String,
    pub owner: Option<BatchOwner>,
    pub created: Timestamp,
    pub has_verified_badge: bool,
}

/// The per-group endpoint's answer.
#[derive(Debug, Clone)]
pub struct DetailedInfo {
    pub id: Id,
    pub name: String,
    pub description: String,
    pub owner: Option<DetailedOwner>,
    pub shout: Option<Shout>,
    pub member_count: u64,
    pub is_builders_club_only: bool,
    pub public_entry_allowed: bool,
    pub has_verified_badge: bool,
    pub is_locked: bool,
}

impl DetailedInfo {
    /// Whether the group can be claimed: no owner, open entry, not locked.
    pub open spec fn claimable(&self) -> bool {
        self.owner is None && self.public_entry_allowed && !self.is_locked
    }

    /// Whether the group can be claimed: no owner, open entry, not locked.
    pub fn is_claimable(&self) -> (r: bool)
        ensures
            r == self.claimable(),
    {
        self.owner.is_none() && self.public_entry_allowed && !self.is_locked
    }
}

/// A solved identity challenge, sent along when joining a group.
#[derive(Debug, Clone)]
pub struct SolvedCaptcha {
    pub session_id: String,
    pub redemption_token: String,
    pub captcha_id: String,
    pub captcha_token: String,
    pub captcha_provider: String,
    pub challenge_id: String,
}

/// The account's group settings; `group_limit` caps the groups it may be
/// in, `current_group_count` is how many it is in.
#[derive(Debug, Clone, Copy, PartialEq, Eq, Structural)]
pub struct Metadata {
    pub group_limit: u16,
    pub current_group_count: u16,
    pub group_status_max_length: u16,
    pub group_post_max_length: u16,
    pub group_wall_notifications_enabled: bool,
    pub group_wall_notifications_subscribe_interval: u32,
    pub profile_groups_hidden: bool,
    pub group_details_policy_enabled: bool,
    pub show_previous_group_names: bool,
}

/// The account that a session belongs to.
#[derive(Debug, Clone)]
pub struct AuthenticatedUser {
    pub id: Id,
    pub name: String,
    pub display_name: String,
}

/// An empty answer.
#[derive(Debug, Clone, Copy, PartialEq, Eq, Structural)]
pub struct Empty {}

} // verus!
