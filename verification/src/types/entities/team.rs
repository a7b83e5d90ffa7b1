//! Teams of developers that own applications.

use vstd::prelude::*;

use crate::types::utils::Snowflake;

verus! {

#[derive(Debug, Clone, PartialEq, Eq)]
pub struct Team {
    pub icon: Option<String>,
    pub id: Snowflake,
    pub members: Vec<TeamMember>,
    pub name: String,
    pub owner_user_id: Snowflake,
    pub payout_account_status: Option<TeamPayoutAccountStatus>,
    pub stripe_connect_account_id: Option<String>,
}

#[derive(Debug, Default, Clone, Eq, PartialEq, Structural, Hash, Copy)]
pub enum TeamPayoutAccountStatus {
    #[default]
    Unsubmitted,
    Pending,
    ActionRequired,
    Active,
    Blocked,
    Suspended,
}

impl TeamPayoutAccountStatus {
    /// The number that stands for the variant on the wire.
    pub open spec fn spec_value(self) -> u8 {
        match self {
            TeamPayoutAccountStatus::Unsubmitted => 1,
            TeamPayoutAccountStatus::Pending => 2,
            TeamPayoutAccountStatus::ActionRequired => 3,
            TeamPayoutAccountStatus::Active => 4,
            TeamPayoutAccountStatus::Blocked => 5,
            TeamPayoutAccountStatus::Suspended => 6,
        }
    }

    /// The number that stands for the variant on the wire.
    pub fn value(&self) -> (value: u8)
        ensures
            value == self.spec_value(),
    {
        match self {
            TeamPayoutAccountStatus::Unsubmitted => 1,
            TeamPayoutAccountStatus::Pending => 2,
            TeamPayoutAccountStatus::ActionRequired => 3,
            TeamPayoutAccountStatus::Active => 4,
            TeamPayoutAccountStatus::Blocked => 5,
            TeamPayoutAccountStatus::Suspended => 6,
        }
    }

    /// The variant that a number stands for, if it stands for one.
    pub fn from_value(value: u8) -> (variant: Option<Self>)
        ensures
            match variant {
                Some(variant) => variant.spec_value() == value,
                None => forall|other: Self| #[trigger] other.spec_value() != value,
            },
    {
        match value {
            1 => Some(TeamPayoutAccountStatus::Unsubmitted),
            2 => Some(TeamPayoutAccountStatus::Pending),
            3 => Some(TeamPayoutAccountStatus::ActionRequired),
            4 => Some(TeamPayoutAccountStatus::Active),
            5 => Some(TeamPayoutAccountStatus::Blocked),
            6 => Some(TeamPayoutAccountStatus::Suspended),
            _ => None,
        }
    }
}

/// A member of a team. The user is referred to by identifier; the entity
/// itself lives with whoever keeps the users.
#[derive(Debug, Clone, PartialEq, Eq)]
pub struct TeamMember {
    pub membership_state: MembershipState,
    pub team_id: Snowflake,
    pub user: Snowflake,
    pub role: TeamMemberRole,
}

#[derive(Debug, Default, Clone, Eq, PartialEq, Structural, Hash, Copy)]
pub enum MembershipState {
    #[default]
    Invited,
    Accepted,
}

impl MembershipState {
    /// The number that stands for the variant on the wire.
    pub open spec fn spec_value(self) -> u8 {
        match self {
            MembershipState::Invited => 1,
            MembershipState::Accepted => 2,
        }
    }

    /// The number that stands for the variant on the wire.
    pub fn value(&self) -> (value: u8)
        ensures
            value == self.spec_value(),
    {
        match self {
            MembershipState::Invited => 1,
            MembershipState::Accepted => 2,
        }
    }

    /// The variant that a number stands for, if it stands for one.
    pub fn from_value(value: u8) -> (variant: Option<Self>)
        ensures
            match variant {
                Some(variant) => variant.spec_value() == value,
                None => forall|other: Self| #[trigger] other.spec_value() != value,
            },
    {
        match value {
            1 => Some(MembershipState::Invited),
            2 => Some(MembershipState::Accepted),
            _ => None,
        }
    }
}

#[derive(Debug, Default, Clone, Eq, PartialEq, Structural, Hash, Copy)]
pub enum TeamMemberRole {
    Owner,
    Admin,
    Developer,
    #[default]
    ReadOnly,
}

} // verus!
