//! Channels and what the request shapes need of them.

use vstd::prelude::*;

use crate::types::utils::{PermissionFlags, Snowflake};

verus! {

/// What a channel is for.
#[derive(Debug, Default, Clone, Copy, PartialEq, Eq, Structural, PartialOrd, Ord, Hash)]
pub enum ChannelType {
    /// A text channel within a guild
    #[default]
    GuildText,
    /// A private channel between two users
    Dm,
    /// A voice channel within a guild
    GuildVoice,
    /// A private channel between multiple users
    GroupDm,
    /// An organizational category that contains up to 50 channels
    GuildCategory,
    /// A channel that users can follow and crosspost into their own guild
    GuildNews,
    /// A temporary sub-channel within a news channel
    GuildNewsThread,
    /// A temporary sub-channel within a text or forum channel
    GuildPublicThread,
    /// A temporary sub-channel that only invited users can see
    GuildPrivateThread,
    /// A voice channel for hosting events with an audience
    GuildStageVoice,
    /// The main channel in a hub containing the listed guilds
    Directory,
    /// A channel that can only contain threads
    GuildForum,
    /// A channel that can only contain threads in a gallery view
    GuildMedia,
}

impl ChannelType {
    /// The number that stands for the variant on the wire.
    pub open spec fn spec_value(self) -> u8 {
        match self {
            ChannelType::GuildText => 0,
            ChannelType::Dm => 1,
            ChannelType::GuildVoice => 2,
            ChannelType::GroupDm => 3,
            ChannelType::GuildCategory => 4,
            ChannelType::GuildNews => 5,
            ChannelType::GuildNewsThread => 10,
            ChannelType::GuildPublicThread => 11,
            ChannelType::GuildPrivateThread => 12,
            ChannelType::GuildStageVoice => 13,
            ChannelType::Directory => 14,
            ChannelType::GuildForum => 15,
            ChannelType::GuildMedia => 16,
        }
    }

    /// The number that stands for the variant on the wire.
    pub fn value(&self) -> (value: u8)
        ensures
            value == self.spec_value(),
    {
        match self {
            ChannelType::GuildText => 0,
            ChannelType::Dm => 1,
            ChannelType::GuildVoice => 2,
            ChannelType::GroupDm => 3,
            ChannelType::GuildCategory => 4,
            ChannelType::GuildNews => 5,
            ChannelType::GuildNewsThread => 10,
            ChannelType::GuildPublicThread => 11,
            ChannelType::GuildPrivateThread => 12,
            ChannelType::GuildStageVoice => 13,
            ChannelType::Directory => 14,
            ChannelType::GuildForum => 15,
            ChannelType::GuildMedia => 16,
        }
    }

    /// The variant that a number stands for, if it stands for one.
    pub fn from_value(value: u8) -> (variant: Option<Self>)
        ensures
            match variant {
                Some(variant) => variant.spec_value() == value,
                None => forall|other: Self| #[trigger] other.spec_value() != value,
            },
    {
        match value {
            0 => Some(ChannelType::GuildText),
            1 => Some(ChannelType::Dm),
            2 => Some(ChannelType::GuildVoice),
            3 => Some(ChannelType::GroupDm),
            4 => Some(ChannelType::GuildCategory),
            5 => Some(ChannelType::GuildNews),
            10 => Some(ChannelType::GuildNewsThread),
            11 => Some(ChannelType::GuildPublicThread),
            12 => Some(ChannelType::GuildPrivateThread),
            13 => Some(ChannelType::GuildStageVoice),
            14 => Some(ChannelType::Directory),
            15 => Some(ChannelType::GuildForum),
            16 => Some(ChannelType::GuildMedia),
            _ => None,
        }
    }
}

/// Whom a permission overwrite speaks of.
#[derive(Debug, Default, Clone, Copy, PartialEq, Eq, Structural, PartialOrd, Ord, Hash)]
pub enum PermissionOverwriteType {
    #[default]
    Role,
    Member,
}

/// Permissions granted to and withheld from one role or member in a channel.
#[derive(Debug, Default, Clone, Copy, PartialEq, Eq, PartialOrd, Ord, Hash)]
pub struct PermissionOverwrite {
    pub id: Snowflake,
    pub overwrite_type: PermissionOverwriteType,
    pub allow: PermissionFlags,
    pub deny: PermissionFlags,
}

/// The emoji that a forum shows on its posts by default.
#[derive(Debug, Default, Clone, PartialEq, Eq, PartialOrd, Ord)]
pub struct DefaultReaction {
    pub emoji_id: Option<Snowflake>,
    pub emoji_name: Option<String>,
}

} // verus!
