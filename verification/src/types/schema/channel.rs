//! Request shapes for channels.

use vstd::prelude::*;

use crate::types::entities::channel::{ChannelType, DefaultReaction, PermissionOverwrite};
use crate::types::utils::Snowflake;

verus! {

#[derive(Debug, Default, PartialEq, PartialOrd)]
pub struct ChannelCreateSchema {
    pub name: String,
    pub channel_type: Option<ChannelType>,
    pub topic: Option<String>,
    pub icon: Option<String>,
    pub bitrate: Option<i32>,
    pub user_limit: Option<i32>,
    pub rate_limit_per_user: Option<i32>,
    pub position: Option<i32>,
    pub permission_overwrites: Option<Vec<PermissionOverwrite>>,
    pub parent_id: Option<Snowflake>,
    pub id: Option<Snowflake>,
    pub nsfw: Option<bool>,
    pub rtc_region: Option<String>,
    pub default_auto_archive_duration: Option<i32>,
    pub default_reaction_emoji: Option<String>,
    pub flags: Option<i32>,
    pub default_thread_rate_limit_per_user: Option<i32>,
    pub video_quality_mode: Option<i32>,
}

#[derive(Debug, Clone, Default, PartialEq, PartialOrd)]
pub struct ChannelModifySchema {
    pub name: Option<String>,
    pub channel_type: Option<ChannelType>,
    pub topic: Option<String>,
    pub icon: Option<String>,
    pub bitrate: Option<i32>,
    pub user_limit: Option<i32>,
    pub rate_limit_per_user: Option<i32>,
    pub position: Option<i32>,
    pub permission_overwrites: Option<Vec<PermissionOverwrite>>,
    pub parent_id: Option<Snowflake>,
    pub nsfw: Option<bool>,
    pub rtc_region: Option<String>,
    pub default_auto_archive_duration: Option<i32>,
    pub default_reaction_emoji: Option<DefaultReaction>,
    pub flags: Option<i32>,
    pub default_thread_rate_limit_per_user: Option<i32>,
    pub video_quality_mode: Option<i32>,
}

#[derive(Debug, Clone, Copy, PartialEq, PartialOrd, Eq, Ord, Structural)]
pub struct GetChannelMessagesSchema {
    /// Between 1 and 100, defaults to 50.
    pub limit: Option<i32>,
    pub anchor: ChannelMessagesAnchor,
}

#[derive(Debug, Clone, Copy, PartialEq, PartialOrd, Eq, Ord, Structural)]
pub enum ChannelMessagesAnchor {
    Before(Snowflake),
    Around(Snowflake),
    After(Snowflake),
}

impl GetChannelMessagesSchema {
    pub fn before(anchor: Snowflake) -> (schema: Self)
        ensures
            schema == (GetChannelMessagesSchema {
                limit: None,
                anchor: ChannelMessagesAnchor::Before(anchor),
            }),
    {
        Self { limit: None, anchor: ChannelMessagesAnchor::Before(anchor) }
    }

    pub fn around(anchor: Snowflake) -> (schema: Self)
        ensures
            schema == (GetChannelMessagesSchema {
                limit: None,
                anchor: ChannelMessagesAnchor::Around(anchor),
            }),
    {
        Self { limit: None, anchor: ChannelMessagesAnchor::Around(anchor) }
    }

    pub fn after(anchor: Snowflake) -> (schema: Self)
        ensures
            schema == (GetChannelMessagesSchema {
                limit: None,
                anchor: ChannelMessagesAnchor::After(anchor),
            }),
    {
        Self { limit: None, anchor: ChannelMessagesAnchor::After(anchor) }
    }

    /// Must be between 1 and 100
    pub fn limit(self, limit: i32) -> (schema: Self)
        ensures
            schema == (GetChannelMessagesSchema { limit: Some(limit), anchor: self.anchor }),
    {
        Self { limit: Some(limit), ..self }
    }
}

#[derive(Debug, Clone, PartialEq, PartialOrd)]
pub struct CreateChannelInviteSchema {
    pub flags: Option<InviteFlags>,
    pub max_age: Option<u32>,
    pub max_uses: Option<u8>,
    pub temporary: Option<bool>,
    pub unique: Option<bool>,
    pub validate: Option<String>,
    pub target_type: Option<InviteTargetType>,
    pub target_user_id: Option<Snowflake>,
    pub target_application_id: Option<Snowflake>,
}

impl CreateChannelInviteSchema {
    /// Whether this is the invite that is asked for when nothing is said: it
    /// lasts a day, may be used without limit, grants lasting membership,
    /// may reuse a similar invite, and has no target.
    pub open spec fn is_default(&self) -> bool {
        &&& self.flags is None
        &&& self.max_age == Some(86400u32)
        &&& self.max_uses == Some(0u8)
        &&& self.temporary == Some(false)
        &&& self.unique == Some(false)
        &&& self.validate is None
        &&& self.target_type is None
        &&& self.target_user_id is None
        &&& self.target_application_id is None
    }
}

impl Default for CreateChannelInviteSchema {
    fn default() -> (schema: Self)
        ensures
            schema.is_default(),
    {
        Self {
            flags: None,
            max_age: Some(86400),
            max_uses: Some(0),
            temporary: Some(false),
            unique: Some(false),
            validate: None,
            target_type: None,
            target_user_id: None,
            target_application_id: None,
        }
    }
}

/// How an invite behaves.
#[derive(Debug, Default, Clone, Copy, PartialEq, Eq, PartialOrd, Ord)]
pub struct InviteFlags {
    bits: u64,
}

impl View for InviteFlags {
    type V = u64;

    closed spec fn view(&self) -> u64 {
        self.bits
    }
}

impl InviteFlags {
    pub const GUEST: u64 = 1 << 0;

    pub const VIEWED: u64 = 1 << 1;

    /// Every bit that has a meaning.
    pub const ALL: u64 = 0x3;

    #[verifier::type_invariant]
    spec fn only_known_bits(&self) -> bool {
        self.bits & !InviteFlags::ALL == 0
    }

    /// The set without any flag.
    pub fn empty() -> (flags: Self)
        ensures
            flags@ == 0,
    {
        assert(0u64 & !InviteFlags::ALL == 0) by (bit_vector);
        InviteFlags { bits: 0 }
    }

    /// The set as raw bits. No bit without a meaning is set.
    pub fn bits(&self) -> (bits: u64)
        ensures
            bits == self@,
            bits & !InviteFlags::ALL == 0,
    {
        proof {
            use_type_invariant(self);
        }
        self.bits
    }

    /// The set that raw bits denote. Bits without a meaning are refused.
    pub fn from_bits(bits: u64) -> (flags: Option<Self>)
        ensures
            flags is Some <==> bits & !InviteFlags::ALL == 0,
            flags is Some ==> flags->0@ == bits,
    {
        if bits & !InviteFlags::ALL == 0 {
            Some(InviteFlags { bits })
        } else {
            None
        }
    }

    /// Whether every flag of `other` is set here too.
    pub fn contains(&self, other: Self) -> (holds: bool)
        ensures
            holds == (self@ & other@ == other@),
    {
        self.bits & other.bits == other.bits
    }
}

#[derive(Debug, Clone, Copy, Default, PartialOrd, Ord, PartialEq, Eq, Structural)]
pub enum InviteType {
    #[default]
    Guild,
    GroupDm,
    Friend,
}

impl InviteType {
    /// The number that stands for the variant on the wire.
    pub open spec fn spec_value(self) -> u8 {
        match self {
            InviteType::Guild => 0,
            InviteType::GroupDm => 1,
            InviteType::Friend => 2,
        }
    }

    /// The number that stands for the variant on the wire.
    pub fn value(&self) -> (value: u8)
        ensures
            value == self.spec_value(),
    {
        match self {
            InviteType::Guild => 0,
            InviteType::GroupDm => 1,
            InviteType::Friend => 2,
        }
    }

    /// The variant that a number stands for, if it stands for one.
    pub fn from_value(value: u8) -> (variant: Option<Self>)
        ensures
            match variant {
                Some(variant) => variant.spec_value() == value,
                None => forall|other: Self| #[trigger] other.spec_value() != value,
            },
    {
        match value {
            0 => Some(InviteType::Guild),
            1 => Some(InviteType::GroupDm),
            2 => Some(InviteType::Friend),
            _ => None,
        }
    }
}

#[derive(Debug, Clone, Copy, Default, PartialOrd, Ord, PartialEq, Eq, Structural)]
pub enum InviteTargetType {
    #[default]
    Stream,
    EmbeddedApplication,
    RoleSubscriptions,
    CreatorPage,
}

impl InviteTargetType {
    /// The number that stands for the variant on the wire.
    pub open spec fn spec_value(self) -> u8 {
        match self {
            InviteTargetType::Stream => 1,
            InviteTargetType::EmbeddedApplication => 2,
            InviteTargetType::RoleSubscriptions => 3,
            InviteTargetType::CreatorPage => 4,
        }
    }

    /// The number that stands for the variant on the wire.
    pub fn value(&self) -> (value: u8)
        ensures
            value == self.spec_value(),
    {
        match self {
            InviteTargetType::Stream => 1,
            InviteTargetType::EmbeddedApplication => 2,
            InviteTargetType::RoleSubscriptions => 3,
            InviteTargetType::CreatorPage => 4,
        }
    }

    /// The variant that a number stands for, if it stands for one.
    pub fn from_value(value: u8) -> (variant: Option<Self>)
        ensures
            match variant {
                Some(variant) => variant.spec_value() == value,
                None => forall|other: Self| #[trigger] other.spec_value() != value,
            },
    {
        match value {
            1 => Some(InviteTargetType::Stream),
            2 => Some(InviteTargetType::EmbeddedApplication),
            3 => Some(InviteTargetType::RoleSubscriptions),
            4 => Some(InviteTargetType::CreatorPage),
            _ => None,
        }
    }
}

/// See <https://discord-userdoccers.vercel.app/resources/channel#add-channel-recipient>
#[derive(Debug, Clone, Default, PartialOrd, Ord, PartialEq, Eq)]
pub struct AddChannelRecipientSchema {
    pub access_token: Option<String>,
    pub nick: Option<String>,
}

/// See <https://discord-userdoccers.vercel.app/resources/channel#add-channel-recipient>
#[derive(Debug, Clone, Default, PartialOrd, Ord, PartialEq, Eq)]
pub struct ModifyChannelPositionsSchema {
    pub id: Snowflake,
    pub position: Option<u32>,
    pub lock_permissions: Option<bool>,
    pub parent_id: Option<Snowflake>,
}

} // verus!
