use vstd::prelude::*;

use crate::api::{is_captcha, Error};
use crate::groups::Metadata;
use crate::ids::Id;

verus! {

/// Where the claim of one candidate stands: the call that was just made.
#[derive(Debug, Clone, Copy, PartialEq, Eq, Structural)]
pub enum ClaimStage {
    Joining,
    Claiming,
    ReadingFunds,
    Leaving,
}

/// The answer to the call that was just made.
#[derive(Debug, Clone)]
pub enum ClaimEvent {
    /// The call succeeded with an empty answer.
    Succeeded,
    /// The funds call succeeded with this balance.
    Funds(u64),
    /// The call failed.
    Failed(Error),
}

/// What the claim worker does next.
#[derive(Debug, Clone, Copy, PartialEq, Eq, Structural)]
pub enum ClaimAction {
    /// Call claim-ownership for the candidate (next stage: `Claiming`).
    ClaimOwnership,
    /// Read the candidate's funds (next stage: `ReadingFunds`).
    ReadFunds,
    /// Remove this user from the candidate (next stage: `Leaving`).
    RemoveUser(Id),
    /// Give up on the candidate.
    Drop,
    /// The candidate was left for want of funds.
    Left,
    /// Leaving the candidate failed.
    LeaveFailed,
    /// The candidate was kept; go on with the next.
    Kept,
    /// The candidate was kept and the account is now at its group limit:
    /// stop cleanly.
    KeptAtLimit,
    /// The identity challenge came up: the browser identity is invalid; stop.
    Fatal,
}

/// The single claim worker: its settings and its counters.
pub struct ClaimWorker {
    user_id: Id,
    funds_threshold: u64,
    group_limit: u16,
    groups_owned: u16,
    groups_claimed: u16,
    robux_claimed: u64,
}

/// The action for `event` at `stage`, given the funds threshold and whether
/// keeping a group fills the account (`fills`).
pub open spec fn claim_action(
    stage: ClaimStage,
    event: ClaimEvent,
    user_id: Id,
    funds_threshold: u64,
    fills: bool,
) -> ClaimAction {
    match stage {
        ClaimStage::Joining => match event {
            ClaimEvent::Failed(e) => if is_captcha(e) {
                ClaimAction::Fatal
            } else {
                ClaimAction::Drop
            },
            _ => ClaimAction::ClaimOwnership,
        },
        ClaimStage::Claiming => match event {
            ClaimEvent::Failed(_) => ClaimAction::Drop,
            _ => ClaimAction::ReadFunds,
        },
        ClaimStage::ReadingFunds => match event {
            ClaimEvent::Funds(f) => if f < funds_threshold {
                ClaimAction::RemoveUser(user_id)
            } else if fills {
                ClaimAction::KeptAtLimit
            } else {
                ClaimAction::Kept
            },
            _ => ClaimAction::Drop,
        },
        ClaimStage::Leaving => match event {
            ClaimEvent::Failed(_) => ClaimAction::LeaveFailed,
            _ => ClaimAction::Left,
        },
    }
}

/// Whether `event` at `stage` keeps the candidate.
pub open spec fn keeps(stage: ClaimStage, event: ClaimEvent, funds_threshold: u64) -> bool {
    stage == ClaimStage::ReadingFunds && (event matches ClaimEvent::Funds(f) && f >= funds_threshold)
}

/// `a + b`, or `u64::MAX` where that overflows.
pub open spec fn saturating_add(a: u64, b: u64) -> u64 {
    if a + b > u64::MAX {
        u64::MAX
    } else {
        (a + b) as u64
    }
}

impl ClaimWorker {
    #[verifier::type_invariant]
    spec fn counts_consistent(self) -> bool {
        self.groups_claimed <= self.groups_owned
    }

    pub closed spec fn user(&self) -> Id {
        self.user_id
    }

    pub closed spec fn threshold(&self) -> u64 {
        self.funds_threshold
    }

    pub closed spec fn limit(&self) -> u16 {
        self.group_limit
    }

    pub closed spec fn owned(&self) -> u16 {
        self.groups_owned
    }

    pub closed spec fn claimed(&self) -> u16 {
        self.groups_claimed
    }

    pub closed spec fn robux(&self) -> u64 {
        self.robux_claimed
    }

    /// The worker for the account `user_id`, whose group settings are
    /// `metadata`; it keeps groups that hold at least `funds_threshold`.
    pub fn new(user_id: Id, metadata: &Metadata, funds_threshold: u64) -> (r: ClaimWorker)
        ensures
            r.user() == user_id,
            r.threshold() == funds_threshold,
            r.limit() == metadata.group_limit,
            r.owned() == metadata.current_group_count,
            r.claimed() == 0,
            r.robux() == 0,
    {
        ClaimWorker {
            user_id,
            funds_threshold,
            group_limit: metadata.group_limit,
            groups_owned: metadata.current_group_count,
            groups_claimed: 0,
            robux_claimed: 0,
        }
    }

    /// Groups the account is in.
    pub fn groups_owned(&self) -> (r: u16)
        ensures
            r == self.owned(),
    {
        self.groups_owned
    }

    /// Groups claimed and kept so far.
    pub fn groups_claimed(&self) -> (r: u16)
        ensures
            r == self.claimed(),
            r <= self.owned(),
    {
        proof {
            use_type_invariant(self);
        }
        self.groups_claimed
    }

    /// Currency held by the groups kept so far.
    pub fn robux_claimed(&self) -> (r: u64)
        ensures
            r == self.robux(),
    {
        self.robux_claimed
    }

    /// Whether the account has room for another group.
    pub fn accepts_candidates(&self) -> (r: bool)
        ensures
            r == (self.owned() < self.limit()),
    {
        self.groups_owned < self.group_limit
    }

    /// Handles the answer `event` to the call made at `stage`, for an
    /// account with room for another group. Keeping a group counts it as
    /// owned and claimed and adds its funds; nothing else changes a count.
    /// The owned count never decreases and never passes the limit.
    pub fn step(&mut self, stage: ClaimStage, event: &ClaimEvent) -> (r: ClaimAction)
        requires
            old(self).owned() < old(self).limit(),
        ensures
            r == claim_action(
                stage,
                *event,
                old(self).user(),
                old(self).threshold(),
                old(self).owned() + 1 >= old(self).limit(),
            ),
            final(self).user() == old(self).user(),
            final(self).threshold() == old(self).threshold(),
            final(self).limit() == old(self).limit(),
            keeps(stage, *event, old(self).threshold()) ==> {
                &&& final(self).owned() == old(self).owned() + 1
                &&& final(self).claimed() == old(self).claimed() + 1
                &&& (*event matches ClaimEvent::Funds(f) && final(self).robux() == saturating_add(
                    old(self).robux(),
                    f,
                ))
            },
            !keeps(stage, *event, old(self).threshold()) ==> {
                &&& final(self).owned() == old(self).owned()
                &&& final(self).claimed() == old(self).claimed()
                &&& final(self).robux() == old(self).robux()
            },
            old(self).owned() <= final(self).owned() <= final(self).limit(),
    {
        proof {
            use_type_invariant(&*self);
        }
        match stage {
            ClaimStage::Joining => match event {
                ClaimEvent::Failed(e) => if e.is_captcha() {
                    ClaimAction::Fatal
                } else {
                    ClaimAction::Drop
                },
                _ => ClaimAction::ClaimOwnership,
            },
            ClaimStage::Claiming => match event {
                ClaimEvent::Failed(_) => ClaimAction::Drop,
                _ => ClaimAction::ReadFunds,
            },
            ClaimStage::ReadingFunds => match event {
                ClaimEvent::Funds(f) => {
                    if *f < self.funds_threshold {
                        ClaimAction::RemoveUser(self.user_id)
                    } else {
                        self.robux_claimed = self.robux_claimed.saturating_add(*f);
                        self.groups_owned = self.groups_owned + 1;
                        self.groups_claimed = self.groups_claimed + 1;
                        if self.groups_owned >= self.group_limit {
                            ClaimAction::KeptAtLimit
                        } else {
                            ClaimAction::Kept
                        }
                    }
                },
                _ => ClaimAction::Drop,
            },
            ClaimStage::Leaving => match event {
                ClaimEvent::Failed(_) => ClaimAction::LeaveFailed,
                _ => ClaimAction::Left,
            },
        }
    }
}

} // verus!
