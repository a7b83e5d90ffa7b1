//! Applications (bots, games, activities) and everything hanging off them.

use vstd::prelude::*;

use crate::types::entities::integration::IntegrationApplication;
use crate::types::entities::team::Team;
use crate::types::utils::{PermissionFlags, Snowflake, Timestamp};

verus! {

/// # Reference
/// See <https://discord.com/developers/docs/resources/application#application-resource>
///
/// The bot and the owner are referred to by identifier.
#[derive(Debug, Clone)]
pub struct Application {
    pub id: Snowflake,
    pub name: String,
    pub icon: Option<String>,
    pub description: Option<String>,
    pub summary: Option<String>,
    pub application_type: Option<ApplicationType>,
    pub hook: bool,
    pub bot_public: bool,
    pub bot_require_code_grant: bool,
    pub verify_key: String,
    pub bot: Option<Snowflake>,
    pub owner: Snowflake,
    pub flags: ApplicationFlags,
    pub redirect_uris: Option<Vec<String>>,
    pub rpc_application_state: i64,
    pub store_application_state: i64,
    pub verification_state: i64,
    pub interactions_endpoint_url: Option<String>,
    pub integration_public: bool,
    pub integration_require_code_grant: bool,
    pub discoverability_state: i64,
    pub discovery_eligibility_flags: i64,
    pub tags: Option<Vec<String>>,
    pub cover_image: Option<String>,
    pub install_params: Option<InstallParams>,
    pub terms_of_service_url: Option<String>,
    pub privacy_policy_url: Option<String>,
    pub team: Option<Team>,
}

impl Application {
    /// Whether this is the application that nothing is known of yet: public,
    /// hooked, without flags, with the states and eligibility that the server
    /// gives a new application, and every text empty or absent.
    pub open spec fn is_default(&self) -> bool {
        &&& self.id == Snowflake(0)
        &&& self.name@.len() == 0
        &&& self.icon is None
        &&& self.description is None
        &&& self.summary is None
        &&& self.application_type is None
        &&& self.hook
        &&& self.bot_public
        &&& !self.bot_require_code_grant
        &&& self.verify_key@.len() == 0
        &&& self.bot is None
        &&& self.owner == Snowflake(0)
        &&& self.flags@ == 0
        &&& self.redirect_uris is None
        &&& self.rpc_application_state == 0
        &&& self.store_application_state == 1
        &&& self.verification_state == 1
        &&& self.interactions_endpoint_url is None
        &&& self.integration_public
        &&& !self.integration_require_code_grant
        &&& self.discoverability_state == 1
        &&& self.discovery_eligibility_flags == 2240
        &&& self.tags is None
        &&& self.cover_image is None
        &&& self.install_params is None
        &&& self.terms_of_service_url is None
        &&& self.privacy_policy_url is None
        &&& self.team is None
    }
}

impl Default for Application {
    fn default() -> (application: Self)
        ensures
            application.is_default(),
    {
        Self {
            id: Snowflake::default(),
            name: String::new(),
            icon: None,
            description: None,
            summary: None,
            application_type: None,
            hook: true,
            bot_public: true,
            bot_require_code_grant: false,
            verify_key: String::new(),
            bot: None,
            owner: Snowflake::default(),
            flags: ApplicationFlags::empty(),
            redirect_uris: None,
            rpc_application_state: 0,
            store_application_state: 1,
            verification_state: 1,
            interactions_endpoint_url: None,
            integration_public: true,
            integration_require_code_grant: false,
            discoverability_state: 1,
            discovery_eligibility_flags: 2240,
            tags: None,
            cover_image: None,
            install_params: None,
            terms_of_service_url: None,
            privacy_policy_url: None,
            team: None,
        }
    }
}

/// # Reference
/// See <https://discord.com/developers/docs/resources/application#install-params-object>
#[derive(Debug, Clone, PartialEq, Eq)]
pub struct InstallParams {
    pub scopes: Vec<String>,
    pub permissions: PermissionFlags,
}

/// # Reference
/// See <https://discord.com/developers/docs/resources/application#application-object-application-flags>
#[derive(Debug, Clone, Copy, PartialEq, Eq, Hash)]
pub struct ApplicationFlags {
    bits: u64,
}

impl View for ApplicationFlags {
    type V = u64;

    closed spec fn view(&self) -> u64 {
        self.bits
    }
}

impl ApplicationFlags {
    /// This application can create managed emoji
    pub const MANAGED_EMOJI: u64 = 1 << 2;

    /// This embedded application can use in-app purchases
    pub const EMBEDDED_IAP: u64 = 1 << 3;

    /// This application can create group DMs without limit
    pub const GROUP_DM_CREATE: u64 = 1 << 4;

    /// Indicates if an app uses the Auto Moderation API
    pub const APPLICATION_AUTO_MODERATION_RULE_CREATE_BADGE: u64 = 1 << 6;

    /// Intent required for bots in 100 or more servers to receive presence_update events
    pub const GATEWAY_PRESENCE: u64 = 1 << 12;

    /// Intent required for bots in under 100 servers to receive presence_update events
    pub const GATEWAY_PRESENCE_LIMITED: u64 = 1 << 13;

    /// Intent required for bots in 100 or more servers to receive member-related events
    pub const GATEWAY_GUILD_MEMBERS: u64 = 1 << 14;

    /// Intent required for bots in under 100 servers to receive member-related events
    pub const GATEWAY_GUILD_MEMBERS_LIMITED: u64 = 1 << 15;

    /// Indicates unusual growth of an app that prevents verification
    pub const VERIFICATION_PENDING_GUILD_LIMIT: u64 = 1 << 16;

    /// Indicates if an app is embedded within the client
    pub const EMBEDDED: u64 = 1 << 17;

    /// Intent required for bots in 100 or more servers to receive message content
    pub const GATEWAY_MESSAGE_CONTENT: u64 = 1 << 18;

    /// Intent required for bots in under 100 servers to receive message content
    pub const GATEWAY_MESSAGE_CONTENT_LIMITED: u64 = 1 << 19;

    /// Indicates if an app has registered slash commands
    pub const APPLICATION_COMMAND_BADGE: u64 = 1 << 23;

    /// This application has had at least one global application command used in the last 30 days
    pub const ACTIVE: u64 = 1 << 24;

    /// This application can use IFrames within modals
    pub const IFRAME_MODAL: u64 = 1 << 26;

    /// Every bit that has a meaning.
    pub const ALL: u64 = 0x58ff05c;

    #[verifier::type_invariant]
    spec fn only_known_bits(&self) -> bool {
        self.bits & !ApplicationFlags::ALL == 0
    }

    /// The set without any flag.
    pub fn empty() -> (flags: Self)
        ensures
            flags@ == 0,
    {
        assert(0u64 & !ApplicationFlags::ALL == 0) by (bit_vector);
        ApplicationFlags { bits: 0 }
    }

    /// The set as raw bits. No bit without a meaning is set.
    pub fn bits(&self) -> (bits: u64)
        ensures
            bits == self@,
            bits & !ApplicationFlags::ALL == 0,
    {
        proof {
            use_type_invariant(self);
        }
        self.bits
    }

    /// The set that raw bits denote. Bits without a meaning are refused.
    pub fn from_bits(bits: u64) -> (flags: Option<Self>)
        ensures
            flags is Some <==> bits & !ApplicationFlags::ALL == 0,
            flags is Some ==> flags->0@ == bits,
    {
        if bits & !ApplicationFlags::ALL == 0 {
            Some(ApplicationFlags { bits })
        } else {
            None
        }
    }

    /// Whether every flag of `other` is set here too.
    pub fn contains(&self, other: Self) -> (holds: bool)
        ensures
            holds == (self@ & other@ == other@),
    {
        self.bits & other.bits == other.bits
    }
}

/// # Reference
/// See <https://discord.com/developers/docs/interactions/application-commands#application-command-object>
#[derive(Debug)]
pub struct ApplicationCommand {
    pub id: Snowflake,
    pub application_id: Snowflake,
    pub name: String,
    pub description: String,
    pub options: Vec<ApplicationCommandOption>,
}

/// Reference
/// See <https://discord.com/developers/docs/interactions/application-commands#application-command-object-application-command-option-structure>
#[derive(Debug)]
pub struct ApplicationCommandOption {
    pub option_type: ApplicationCommandOptionType,
    pub name: String,
    pub description: String,
    pub required: bool,
    pub choices: Vec<ApplicationCommandOptionChoice>,
    pub options: Vec<ApplicationCommandOption>,
}

/// A choice that a command option offers. The value is kept as the JSON text
/// it arrived in.
#[derive(Debug, Clone, PartialEq)]
pub struct ApplicationCommandOptionChoice {
    pub name: String,
    pub value: String,
}

/// # Reference
/// See <https://discord.com/developers/docs/interactions/application-commands#application-command-object-application-command-types>
#[derive(Debug, Clone, Copy, PartialEq, Eq, Structural, Hash)]
pub enum ApplicationCommandOptionType {
    SubCommand,
    SubCommandGroup,
    String,
    /// Any integer between -2^53 and 2^53
    Integer,
    Boolean,
    User,
    /// Includes all channel types + categories
    Channel,
    Role,
    /// Includes users and roles
    Mentionable,
    /// Any double between -2^53 and 2^53
    Number,
    Attachment,
}

impl ApplicationCommandOptionType {
    /// The number that stands for the variant on the wire.
    pub open spec fn spec_value(self) -> i32 {
        match self {
            ApplicationCommandOptionType::SubCommand => 1,
            ApplicationCommandOptionType::SubCommandGroup => 2,
            ApplicationCommandOptionType::String => 3,
            ApplicationCommandOptionType::Integer => 4,
            ApplicationCommandOptionType::Boolean => 5,
            ApplicationCommandOptionType::User => 6,
            ApplicationCommandOptionType::Channel => 7,
            ApplicationCommandOptionType::Role => 8,
            ApplicationCommandOptionType::Mentionable => 9,
            ApplicationCommandOptionType::Number => 10,
            ApplicationCommandOptionType::Attachment => 11,
        }
    }

    /// The number that stands for the variant on the wire.
    pub fn value(&self) -> (value: i32)
        ensures
            value == self.spec_value(),
    {
        match self {
            ApplicationCommandOptionType::SubCommand => 1,
            ApplicationCommandOptionType::SubCommandGroup => 2,
            ApplicationCommandOptionType::String => 3,
            ApplicationCommandOptionType::Integer => 4,
            ApplicationCommandOptionType::Boolean => 5,
            ApplicationCommandOptionType::User => 6,
            ApplicationCommandOptionType::Channel => 7,
            ApplicationCommandOptionType::Role => 8,
            ApplicationCommandOptionType::Mentionable => 9,
            ApplicationCommandOptionType::Number => 10,
            ApplicationCommandOptionType::Attachment => 11,
        }
    }

    /// The variant that a number stands for, if it stands for one.
    pub fn from_value(value: i32) -> (variant: Option<Self>)
        ensures
            match variant {
                Some(variant) => variant.spec_value() == value,
                None => forall|other: Self| #[trigger] other.spec_value() != value,
            },
    {
        match value {
            1 => Some(ApplicationCommandOptionType::SubCommand),
            2 => Some(ApplicationCommandOptionType::SubCommandGroup),
            3 => Some(ApplicationCommandOptionType::String),
            4 => Some(ApplicationCommandOptionType::Integer),
            5 => Some(ApplicationCommandOptionType::Boolean),
            6 => Some(ApplicationCommandOptionType::User),
            7 => Some(ApplicationCommandOptionType::Channel),
            8 => Some(ApplicationCommandOptionType::Role),
            9 => Some(ApplicationCommandOptionType::Mentionable),
            10 => Some(ApplicationCommandOptionType::Number),
            11 => Some(ApplicationCommandOptionType::Attachment),
            _ => None,
        }
    }
}

#[derive(Debug)]
pub struct ApplicationCommandInteractionData {
    pub id: Snowflake,
    pub name: String,
    pub options: Vec<ApplicationCommandInteractionDataOption>,
}

/// An option that an interaction filled in. The value is kept as the JSON
/// text it arrived in.
#[derive(Debug)]
pub struct ApplicationCommandInteractionDataOption {
    pub name: String,
    pub value: String,
    pub options: Vec<ApplicationCommandInteractionDataOption>,
}

/// See <https://discord.com/developers/docs/interactions/application-commands#application-command-permissions-object-guild-application-command-permissions-structure>
#[derive(Debug, Default, Clone)]
pub struct GuildApplicationCommandPermissions {
    pub id: Snowflake,
    pub application_id: Snowflake,
    pub guild_id: Snowflake,
    pub permissions: Vec<ApplicationCommandPermission>,
}

/// See <https://discord.com/developers/docs/interactions/application-commands#application-command-permissions-object-application-command-permissions-structure>
#[derive(Debug, Default, Clone, PartialEq)]
pub struct ApplicationCommandPermission {
    pub id: Snowflake,
    pub permission_type: ApplicationCommandPermissionType,
    /// true to allow, false, to disallow
    pub permission: bool,
}

/// See <https://discord.com/developers/docs/interactions/application-commands#application-command-permissions-object-application-command-permission-type>
#[derive(Debug, Default, Clone, Copy, PartialEq, Eq, Structural, Hash)]
pub enum ApplicationCommandPermissionType {
    #[default]
    Role,
    User,
    Channel,
}

impl ApplicationCommandPermissionType {
    /// The number that stands for the variant on the wire.
    pub open spec fn spec_value(self) -> u8 {
        match self {
            ApplicationCommandPermissionType::Role => 1,
            ApplicationCommandPermissionType::User => 2,
            ApplicationCommandPermissionType::Channel => 3,
        }
    }

    /// The number that stands for the variant on the wire.
    pub fn value(&self) -> (value: u8)
        ensures
            value == self.spec_value(),
    {
        match self {
            ApplicationCommandPermissionType::Role => 1,
            ApplicationCommandPermissionType::User => 2,
            ApplicationCommandPermissionType::Channel => 3,
        }
    }

    /// The variant that a number stands for, if it stands for one.
    pub fn from_value(value: u8) -> (variant: Option<Self>)
        ensures
            match variant {
                Some(variant) => variant.spec_value() == value,
                None => forall|other: Self| #[trigger] other.spec_value() != value,
            },
    {
        match value {
            1 => Some(ApplicationCommandPermissionType::Role),
            2 => Some(ApplicationCommandPermissionType::User),
            3 => Some(ApplicationCommandPermissionType::Channel),
            _ => None,
        }
    }
}

/// See <https://docs.discord.sex/resources/application#application-type>
#[derive(Debug, Default, Clone, Copy, PartialEq, Eq, Structural, Hash)]
pub enum ApplicationType {
    #[default]
    Game,
    Music,
    TicketedEvents,
    CreatorMonetization,
}

impl ApplicationType {
    /// The number that stands for the variant on the wire.
    pub open spec fn spec_value(self) -> u8 {
        match self {
            ApplicationType::Game => 1,
            ApplicationType::Music => 2,
            ApplicationType::TicketedEvents => 3,
            ApplicationType::CreatorMonetization => 4,
        }
    }

    /// The number that stands for the variant on the wire.
    pub fn value(&self) -> (value: u8)
        ensures
            value == self.spec_value(),
    {
        match self {
            ApplicationType::Game => 1,
            ApplicationType::Music => 2,
            ApplicationType::TicketedEvents => 3,
            ApplicationType::CreatorMonetization => 4,
        }
    }

    /// The variant that a number stands for, if it stands for one.
    pub fn from_value(value: u8) -> (variant: Option<Self>)
        ensures
            match variant {
                Some(variant) => variant.spec_value() == value,
                None => forall|other: Self| #[trigger] other.spec_value() != value,
            },
    {
        match value {
            1 => Some(ApplicationType::Game),
            2 => Some(ApplicationType::Music),
            3 => Some(ApplicationType::TicketedEvents),
            4 => Some(ApplicationType::CreatorMonetization),
            _ => None,
        }
    }
}

/// # Reference
/// See <https://docs.discord.sex/resources/application#application-interactions-version>
#[derive(Debug, Default, Clone, Copy, PartialEq, Eq, Structural, Hash)]
pub enum ApplicationInteractionsVersion {
    #[default]
    Version1,
    Version2,
}

impl ApplicationInteractionsVersion {
    /// The number that stands for the variant on the wire.
    pub open spec fn spec_value(self) -> u8 {
        match self {
            ApplicationInteractionsVersion::Version1 => 1,
            ApplicationInteractionsVersion::Version2 => 2,
        }
    }

    /// The number that stands for the variant on the wire.
    pub fn value(&self) -> (value: u8)
        ensures
            value == self.spec_value(),
    {
        match self {
            ApplicationInteractionsVersion::Version1 => 1,
            ApplicationInteractionsVersion::Version2 => 2,
        }
    }

    /// The variant that a number stands for, if it stands for one.
    pub fn from_value(value: u8) -> (variant: Option<Self>)
        ensures
            match variant {
                Some(variant) => variant.spec_value() == value,
                None => forall|other: Self| #[trigger] other.spec_value() != value,
            },
    {
        match value {
            1 => Some(ApplicationInteractionsVersion::Version1),
            2 => Some(ApplicationInteractionsVersion::Version2),
            _ => None,
        }
    }
}

/// # Reference
/// See <https://docs.discord.sex/resources/application#explicit-content-filter-level>
#[derive(Debug, Default, Clone, Copy, PartialEq, Eq, Structural, Hash)]
pub enum ApplicationExplicitContentFilterLevel {
    #[default]
    Disabled,
    Enabled,
}

impl ApplicationExplicitContentFilterLevel {
    /// The number that stands for the variant on the wire.
    pub open spec fn spec_value(self) -> u8 {
        match self {
            ApplicationExplicitContentFilterLevel::Disabled => 0,
            ApplicationExplicitContentFilterLevel::Enabled => 1,
        }
    }

    /// The number that stands for the variant on the wire.
    pub fn value(&self) -> (value: u8)
        ensures
            value == self.spec_value(),
    {
        match self {
            ApplicationExplicitContentFilterLevel::Disabled => 0,
            ApplicationExplicitContentFilterLevel::Enabled => 1,
        }
    }

    /// The variant that a number stands for, if it stands for one.
    pub fn from_value(value: u8) -> (variant: Option<Self>)
        ensures
            match variant {
                Some(variant) => variant.spec_value() == value,
                None => forall|other: Self| #[trigger] other.spec_value() != value,
            },
    {
        match value {
            0 => Some(ApplicationExplicitContentFilterLevel::Disabled),
            1 => Some(ApplicationExplicitContentFilterLevel::Enabled),
            _ => None,
        }
    }
}

/// # Reference
/// See <https://docs.discord.sex/resources/application#application-verification-state>
#[derive(Debug, Default, Clone, Copy, PartialEq, Eq, Structural, Hash)]
pub enum ApplicationVerificationState {
    Ineligible,
    #[default]
    Unsubmitted,
    Submitted,
    Succeeded,
}

impl ApplicationVerificationState {
    /// The number that stands for the variant on the wire.
    pub open spec fn spec_value(self) -> u8 {
        match self {
            ApplicationVerificationState::Ineligible => 1,
            ApplicationVerificationState::Unsubmitted => 2,
            ApplicationVerificationState::Submitted => 3,
            ApplicationVerificationState::Succeeded => 4,
        }
    }

    /// The number that stands for the variant on the wire.
    pub fn value(&self) -> (value: u8)
        ensures
            value == self.spec_value(),
    {
        match self {
            ApplicationVerificationState::Ineligible => 1,
            ApplicationVerificationState::Unsubmitted => 2,
            ApplicationVerificationState::Submitted => 3,
            ApplicationVerificationState::Succeeded => 4,
        }
    }

    /// The variant that a number stands for, if it stands for one.
    pub fn from_value(value: u8) -> (variant: Option<Self>)
        ensures
            match variant {
                Some(variant) => variant.spec_value() == value,
                None => forall|other: Self| #[trigger] other.spec_value() != value,
            },
    {
        match value {
            1 => Some(ApplicationVerificationState::Ineligible),
            2 => Some(ApplicationVerificationState::Unsubmitted),
            3 => Some(ApplicationVerificationState::Submitted),
            4 => Some(ApplicationVerificationState::Succeeded),
            _ => None,
        }
    }
}

/// # Reference
/// See <https://docs.discord.sex/resources/application#store-application-state>
#[derive(Debug, Default, Clone, Copy, PartialEq, Eq, Structural, Hash)]
pub enum StoreApplicationState {
    #[default]
    NoState,
    Paid,
    Submitted,
    Approved,
    Rejected,
}

impl StoreApplicationState {
    /// The number that stands for the variant on the wire.
    pub open spec fn spec_value(self) -> u8 {
        match self {
            StoreApplicationState::NoState => 1,
            StoreApplicationState::Paid => 2,
            StoreApplicationState::Submitted => 3,
            StoreApplicationState::Approved => 4,
            StoreApplicationState::Rejected => 5,
        }
    }

    /// The number that stands for the variant on the wire.
    pub fn value(&self) -> (value: u8)
        ensures
            value == self.spec_value(),
    {
        match self {
            StoreApplicationState::NoState => 1,
            StoreApplicationState::Paid => 2,
            StoreApplicationState::Submitted => 3,
            StoreApplicationState::Approved => 4,
            StoreApplicationState::Rejected => 5,
        }
    }

    /// The variant that a number stands for, if it stands for one.
    pub fn from_value(value: u8) -> (variant: Option<Self>)
        ensures
            match variant {
                Some(variant) => variant.spec_value() == value,
                None => forall|other: Self| #[trigger] other.spec_value() != value,
            },
    {
        match value {
            1 => Some(StoreApplicationState::NoState),
            2 => Some(StoreApplicationState::Paid),
            3 => Some(StoreApplicationState::Submitted),
            4 => Some(StoreApplicationState::Approved),
            5 => Some(StoreApplicationState::Rejected),
            _ => None,
        }
    }
}

/// # Reference
/// See <https://docs.discord.sex/resources/application#rpc-application-state>
#[derive(Debug, Default, Clone, PartialEq, Eq, Structural, Hash)]
pub enum RPCApplicationState {
    #[default]
    Disabled,
    Unsubmitted,
    Submitted,
    Approved,
    Rejected,
}

impl RPCApplicationState {
    /// The number that stands for the variant on the wire.
    pub open spec fn spec_value(self) -> u8 {
        match self {
            RPCApplicationState::Disabled => 0,
            RPCApplicationState::Unsubmitted => 1,
            RPCApplicationState::Submitted => 2,
            RPCApplicationState::Approved => 3,
            RPCApplicationState::Rejected => 4,
        }
    }

    /// The number that stands for the variant on the wire.
    pub fn value(&self) -> (value: u8)
        ensures
            value == self.spec_value(),
    {
        match self {
            RPCApplicationState::Disabled => 0,
            RPCApplicationState::Unsubmitted => 1,
            RPCApplicationState::Submitted => 2,
            RPCApplicationState::Approved => 3,
            RPCApplicationState::Rejected => 4,
        }
    }

    /// The variant that a number stands for, if it stands for one.
    pub fn from_value(value: u8) -> (variant: Option<Self>)
        ensures
            match variant {
                Some(variant) => variant.spec_value() == value,
                None => forall|other: Self| #[trigger] other.spec_value() != value,
            },
    {
        match value {
            0 => Some(RPCApplicationState::Disabled),
            1 => Some(RPCApplicationState::Unsubmitted),
            2 => Some(RPCApplicationState::Submitted),
            3 => Some(RPCApplicationState::Approved),
            4 => Some(RPCApplicationState::Rejected),
            _ => None,
        }
    }
}

/// # Reference
/// See <https://docs.discord.sex/resources/application#application-discoverability-state>
#[derive(Debug, Default, Clone, PartialEq, Eq, Structural, Hash)]
pub enum ApplicationDiscoveryState {
    Ineligible,
    #[default]
    NotDiscoverable,
    Discoverable,
    Featureable,
    Blocked,
}

impl ApplicationDiscoveryState {
    /// The number that stands for the variant on the wire.
    pub open spec fn spec_value(self) -> u8 {
        match self {
            ApplicationDiscoveryState::Ineligible => 1,
            ApplicationDiscoveryState::NotDiscoverable => 2,
            ApplicationDiscoveryState::Discoverable => 3,
            ApplicationDiscoveryState::Featureable => 4,
            ApplicationDiscoveryState::Blocked => 5,
        }
    }

    /// The number that stands for the variant on the wire.
    pub fn value(&self) -> (value: u8)
        ensures
            value == self.spec_value(),
    {
        match self {
            ApplicationDiscoveryState::Ineligible => 1,
            ApplicationDiscoveryState::NotDiscoverable => 2,
            ApplicationDiscoveryState::Discoverable => 3,
            ApplicationDiscoveryState::Featureable => 4,
            ApplicationDiscoveryState::Blocked => 5,
        }
    }

    /// The variant that a number stands for, if it stands for one.
    pub fn from_value(value: u8) -> (variant: Option<Self>)
        ensures
            match variant {
                Some(variant) => variant.spec_value() == value,
                None => forall|other: Self| #[trigger] other.spec_value() != value,
            },
    {
        match value {
            1 => Some(ApplicationDiscoveryState::Ineligible),
            2 => Some(ApplicationDiscoveryState::NotDiscoverable),
            3 => Some(ApplicationDiscoveryState::Discoverable),
            4 => Some(ApplicationDiscoveryState::Featureable),
            5 => Some(ApplicationDiscoveryState::Blocked),
            _ => None,
        }
    }
}

/// # Reference
/// See <https://docs.discord.sex/resources/application#application-discovery-eligibility-flags>
#[derive(Debug, Clone, Copy, PartialEq, Eq, Hash)]
pub struct ApplicationDiscoverEligibilityFlags {
    bits: u64,
}

impl View for ApplicationDiscoverEligibilityFlags {
    type V = u64;

    closed spec fn view(&self) -> u64 {
        self.bits
    }
}

impl ApplicationDiscoverEligibilityFlags {
    /// This application is verified
    pub const VERIFIED: u64 = 1 << 0;

    /// This application has at least one tag set
    pub const TAG: u64 = 1 << 1;

    /// This application has a description
    pub const DESCRIPTION: u64 = 1 << 2;

    /// This application has terms of service set
    pub const TERMS_OF_SERVICE: u64 = 1 << 3;

    /// This application has a privacy policy set
    pub const PRIVACY_POLICY: u64 = 1 << 4;

    /// This application has custom install URL or install parameters
    pub const INSTALL_PARAMS: u64 = 1 << 5;

    /// This application's name is safe for work
    pub const SAFE_NAME: u64 = 1 << 6;

    /// This application's description is safe for work
    pub const SAFE_DESCRIPTION: u64 = 1 << 7;

    /// This application has the message content intent approved or utilizes application commands
    pub const APPROVED_COMMANDS: u64 = 1 << 8;

    /// This application has a support guild set
    pub const SUPPORT_GUILD: u64 = 1 << 9;

    /// This application's commands are safe for work
    pub const SAFE_COMMANDS: u64 = 1 << 10;

    /// This application's owner has MFA enabled
    pub const MFA: u64 = 1 << 11;

    /// This application's long description is safe for work
    pub const SAFE_DIRECTORY_OVERVIEW: u64 = 1 << 12;

    /// This application has at least one supported locale set
    pub const SUPPORTED_LOCALES: u64 = 1 << 13;

    /// This application's directory short description is safe for work
    pub const SAFE_SHORT_DESCRIPTION: u64 = 1 << 14;

    /// This application's role connections metadata is safe for work
    pub const SAFE_ROLE_CONNECTIONS: u64 = 1 << 15;

    /// This application has met all the above criteria and is eligible for discovery
    pub const ELIGIBLE: u64 = 1 << 16;

    /// Every bit that has a meaning.
    pub const ALL: u64 = 0x1ffff;

    #[verifier::type_invariant]
    spec fn only_known_bits(&self) -> bool {
        self.bits & !ApplicationDiscoverEligibilityFlags::ALL == 0
    }

    /// The set without any flag.
    pub fn empty() -> (flags: Self)
        ensures
            flags@ == 0,
    {
        assert(0u64 & !ApplicationDiscoverEligibilityFlags::ALL == 0) by (bit_vector);
        ApplicationDiscoverEligibilityFlags { bits: 0 }
    }

    /// The set as raw bits. No bit without a meaning is set.
    pub fn bits(&self) -> (bits: u64)
        ensures
            bits == self@,
            bits & !ApplicationDiscoverEligibilityFlags::ALL == 0,
    {
        proof {
            use_type_invariant(self);
        }
        self.bits
    }

    /// The set that raw bits denote. Bits without a meaning are refused.
    pub fn from_bits(bits: u64) -> (flags: Option<Self>)
        ensures
            flags is Some <==> bits & !ApplicationDiscoverEligibilityFlags::ALL == 0,
            flags is Some ==> flags->0@ == bits,
    {
        if bits & !ApplicationDiscoverEligibilityFlags::ALL == 0 {
            Some(ApplicationDiscoverEligibilityFlags { bits })
        } else {
            None
        }
    }

    /// Whether every flag of `other` is set here too.
    pub fn contains(&self, other: Self) -> (holds: bool)
        ensures
            holds == (self@ & other@ == other@),
    {
        self.bits & other.bits == other.bits
    }
}

/// # Reference
/// See <https://docs.discord.sex/resources/application#application-monetization-state>
#[derive(Debug, Default, Clone, PartialEq, Eq, Structural, Hash)]
pub enum ApplicationMonetizationState {
    #[default]
    NoState,
    Enabled,
    Blocked,
}

impl ApplicationMonetizationState {
    /// The number that stands for the variant on the wire.
    pub open spec fn spec_value(self) -> u8 {
        match self {
            ApplicationMonetizationState::NoState => 1,
            ApplicationMonetizationState::Enabled => 2,
            ApplicationMonetizationState::Blocked => 3,
        }
    }

    /// The number that stands for the variant on the wire.
    pub fn value(&self) -> (value: u8)
        ensures
            value == self.spec_value(),
    {
        match self {
            ApplicationMonetizationState::NoState => 1,
            ApplicationMonetizationState::Enabled => 2,
            ApplicationMonetizationState::Blocked => 3,
        }
    }

    /// The variant that a number stands for, if it stands for one.
    pub fn from_value(value: u8) -> (variant: Option<Self>)
        ensures
            match variant {
                Some(variant) => variant.spec_value() == value,
                None => forall|other: Self| #[trigger] other.spec_value() != value,
            },
    {
        match value {
            1 => Some(ApplicationMonetizationState::NoState),
            2 => Some(ApplicationMonetizationState::Enabled),
            3 => Some(ApplicationMonetizationState::Blocked),
            _ => None,
        }
    }
}

/// # Reference
/// See <https://docs.discord.sex/resources/application#application-monetization-eligibility-flags>
#[derive(Debug, Clone, Copy, PartialEq, Eq, Hash)]
pub struct ApplicationMonetizationEligibilityFlags {
    bits: u64,
}

impl View for ApplicationMonetizationEligibilityFlags {
    type V = u64;

    closed spec fn view(&self) -> u64 {
        self.bits
    }
}

impl ApplicationMonetizationEligibilityFlags {
    /// This application is verified
    pub const VERIFIED: u64 = 1 << 0;

    /// This application is owned by a team
    pub const HAS_TEAM: u64 = 1 << 1;

    /// This application has the message content intent approved or utilizes application commands
    pub const APPROVED_COMMANDS: u64 = 1 << 2;

    /// This application has terms of service set
    pub const TERMS_OF_SERVICE: u64 = 1 << 3;

    /// This application has a privacy policy set
    pub const PRIVACY_POLICY: u64 = 1 << 4;

    /// This application's name is safe for work
    pub const SAFE_NAME: u64 = 1 << 5;

    /// This application's description is safe for work
    pub const SAFE_DESCRIPTION: u64 = 1 << 6;

    /// This application's role connections metadata is safe for work
    pub const SAFE_ROLE_CONNECTIONS: u64 = 1 << 7;

    /// The user is the owner of the team that owns the application
    pub const USER_IS_TEAM_OWNER: u64 = 1 << 8;

    /// This application is not quarantined
    pub const NOT_QUARANTINED: u64 = 1 << 9;

    /// The user's locale is supported by monetization
    pub const USER_LOCALE_SUPPORTED: u64 = 1 << 10;

    /// The user is old enough to use monetization
    pub const USER_AGE_SUPPORTED: u64 = 1 << 11;

    /// The user has a date of birth defined on their account
    pub const USER_DATE_OF_BIRTH_DEFINED: u64 = 1 << 12;

    /// The user has MFA enabled
    pub const USER_MFA_ENABLED: u64 = 1 << 13;

    /// The user's email is verified
    pub const USER_EMAIL_VERIFIED: u64 = 1 << 14;

    /// All members of the team that owns the application have verified emails
    pub const TEAM_MEMBERS_EMAIL_VERIFIED: u64 = 1 << 15;

    /// All members of the team that owns the application have MFA enabled
    pub const TEAM_MEMBERS_MFA_ENABLED: u64 = 1 << 16;

    /// This application has no issues blocking monetization
    pub const NO_BLOCKING_ISSUES: u64 = 1 << 17;

    /// The team has a valid payout status
    pub const VALID_PAYOUT_STATUS: u64 = 1 << 18;

    /// Every bit that has a meaning.
    pub const ALL: u64 = 0x7ffff;

    #[verifier::type_invariant]
    spec fn only_known_bits(&self) -> bool {
        self.bits & !ApplicationMonetizationEligibilityFlags::ALL == 0
    }

    /// The set without any flag.
    pub fn empty() -> (flags: Self)
        ensures
            flags@ == 0,
    {
        assert(0u64 & !ApplicationMonetizationEligibilityFlags::ALL == 0) by (bit_vector);
        ApplicationMonetizationEligibilityFlags { bits: 0 }
    }

    /// The set as raw bits. No bit without a meaning is set.
    pub fn bits(&self) -> (bits: u64)
        ensures
            bits == self@,
            bits & !ApplicationMonetizationEligibilityFlags::ALL == 0,
    {
        proof {
            use_type_invariant(self);
        }
        self.bits
    }

    /// The set that raw bits denote. Bits without a meaning are refused.
    pub fn from_bits(bits: u64) -> (flags: Option<Self>)
        ensures
            flags is Some <==> bits & !ApplicationMonetizationEligibilityFlags::ALL == 0,
            flags is Some ==> flags->0@ == bits,
    {
        if bits & !ApplicationMonetizationEligibilityFlags::ALL == 0 {
            Some(ApplicationMonetizationEligibilityFlags { bits })
        } else {
            None
        }
    }

    /// Whether every flag of `other` is set here too.
    pub fn contains(&self, other: Self) -> (holds: bool)
        ensures
            holds == (self@ & other@ == other@),
    {
        self.bits & other.bits == other.bits
    }
}

/// # Reference
/// See <https://docs.discord.sex/resources/application#application-executable-object>
#[derive(Debug, Default, Clone, PartialEq, Eq, Hash)]
pub struct ApplicationExecutableObject {
    pub os: String,
    pub name: String,
    pub is_launcher: bool,
}

/// # Reference
/// See <https://docs.discord.sex/resources/application#application-sku-structure>
#[derive(Debug, Default, Clone, PartialEq, Eq, Hash)]
pub struct ApplicationSKUObject {
    pub id: String,
    pub sku: String,
    pub distributor: DistributorType,
}

/// # Reference
/// See <https://docs.discord.sex/resources/application#distributor-type>
#[derive(Debug, Default, Clone, PartialEq, Eq, Structural, Hash)]
pub enum DistributorType {
    #[default]
    Discord,
    Steam,
    Twitch,
    Uplay,
    BattleNet,
    Origin,
    Gog,
    EpicGames,
    GooglePlay,
}

/// # Reference
/// See <https://docs.discord.sex/resources/application#application-integration-type>
#[derive(Debug, Default, Clone, PartialEq, Eq, Structural, Hash)]
pub enum ApplicationIntegrationType {
    #[default]
    GuildInstall,
    UserInstall,
}

impl ApplicationIntegrationType {
    /// The number that stands for the variant on the wire.
    pub open spec fn spec_value(self) -> u8 {
        match self {
            ApplicationIntegrationType::GuildInstall => 0,
            ApplicationIntegrationType::UserInstall => 1,
        }
    }

    /// The number that stands for the variant on the wire.
    pub fn value(&self) -> (value: u8)
        ensures
            value == self.spec_value(),
    {
        match self {
            ApplicationIntegrationType::GuildInstall => 0,
            ApplicationIntegrationType::UserInstall => 1,
        }
    }

    /// The variant that a number stands for, if it stands for one.
    pub fn from_value(value: u8) -> (variant: Option<Self>)
        ensures
            match variant {
                Some(variant) => variant.spec_value() == value,
                None => forall|other: Self| #[trigger] other.spec_value() != value,
            },
    {
        match value {
            0 => Some(ApplicationIntegrationType::GuildInstall),
            1 => Some(ApplicationIntegrationType::UserInstall),
            _ => None,
        }
    }
}

#[derive(Debug, Default, Clone, PartialEq, Eq, Hash)]
pub struct ApplicationProxyConfig {
    pub url_map: Vec<ProxyMap>,
}

#[derive(Debug, Default, Clone, PartialEq, Eq, Hash)]
pub struct ProxyMap {
    pub prefix: String,
    pub target: String,
}

/// How an activity is embedded. The configuration of each client platform
/// is listed under the platform's name.
#[derive(Debug, Default, Clone, PartialEq, Eq)]
pub struct EmbeddedActivityConfig {
    pub application_id: Option<Snowflake>,
    pub activity_preview_video_asset_id: Option<Snowflake>,
    pub supported_platforms: Option<Vec<EmbeddedActivityPlatformType>>,
    pub default_orientation_lock_state: OrientationLockState,
    pub tablet_default_orientation_lock_state: OrientationLockState,
    pub requires_age_gate: bool,
    pub client_platform_config: Vec<(String, EmbeddedActivityPlatformConfig)>,
    pub shelf_rank: u32,
    pub has_csp_exception: bool,
    pub displays_advertisements: bool,
}

#[derive(Debug, Default, Clone, PartialEq, Eq, Structural, Hash)]
pub enum EmbeddedActivityPlatformType {
    #[default]
    Web,
    Android,
    Ios,
}

#[derive(Debug, Default, Clone, PartialEq, Eq, Structural, Hash)]
pub enum OrientationLockState {
    #[default]
    Unlocked,
    Portrait,
    Landscape,
}

impl OrientationLockState {
    /// The number that stands for the variant on the wire.
    pub open spec fn spec_value(self) -> u8 {
        match self {
            OrientationLockState::Unlocked => 1,
            OrientationLockState::Portrait => 2,
            OrientationLockState::Landscape => 3,
        }
    }

    /// The number that stands for the variant on the wire.
    pub fn value(&self) -> (value: u8)
        ensures
            value == self.spec_value(),
    {
        match self {
            OrientationLockState::Unlocked => 1,
            OrientationLockState::Portrait => 2,
            OrientationLockState::Landscape => 3,
        }
    }

    /// The variant that a number stands for, if it stands for one.
    pub fn from_value(value: u8) -> (variant: Option<Self>)
        ensures
            match variant {
                Some(variant) => variant.spec_value() == value,
                None => forall|other: Self| #[trigger] other.spec_value() != value,
            },
    {
        match value {
            1 => Some(OrientationLockState::Unlocked),
            2 => Some(OrientationLockState::Portrait),
            3 => Some(OrientationLockState::Landscape),
            _ => None,
        }
    }
}

#[derive(Debug, Default, Clone, PartialEq, Eq, Hash)]
pub struct EmbeddedActivityPlatformConfig {
    pub label_type: ActivityLabelType,
    pub label_until: Option<Timestamp>,
    pub release_phase: ReleasePhase,
}

#[derive(Debug, Default, Clone, PartialEq, Eq, Structural, Hash)]
pub enum ActivityLabelType {
    #[default]
    NoLabel,
    New,
    Updated,
}

impl ActivityLabelType {
    /// The number that stands for the variant on the wire.
    pub open spec fn spec_value(self) -> u8 {
        match self {
            ActivityLabelType::NoLabel => 0,
            ActivityLabelType::New => 1,
            ActivityLabelType::Updated => 2,
        }
    }

    /// The number that stands for the variant on the wire.
    pub fn value(&self) -> (value: u8)
        ensures
            value == self.spec_value(),
    {
        match self {
            ActivityLabelType::NoLabel => 0,
            ActivityLabelType::New => 1,
            ActivityLabelType::Updated => 2,
        }
    }

    /// The variant that a number stands for, if it stands for one.
    pub fn from_value(value: u8) -> (variant: Option<Self>)
        ensures
            match variant {
                Some(variant) => variant.spec_value() == value,
                None => forall|other: Self| #[trigger] other.spec_value() != value,
            },
    {
        match value {
            0 => Some(ActivityLabelType::NoLabel),
            1 => Some(ActivityLabelType::New),
            2 => Some(ActivityLabelType::Updated),
            _ => None,
        }
    }
}

#[derive(Debug, Default, Clone, PartialEq, Eq, Structural, Hash)]
pub enum ReleasePhase {
    #[default]
    InDevelopment,
    ActivitiesTeam,
    EmployeeRelease,
    SoftLaunch,
    GlobalLaunch,
}

#[derive(Debug, Default, Clone, PartialEq, Eq, Hash)]
pub struct ApplicationAsset {
    pub id: String,
    pub asset_type: AssetType,
}

#[derive(Debug, Default, Clone, PartialEq, Eq, Structural, Hash)]
pub enum AssetType {
    #[default]
    One,
    Two,
}

impl AssetType {
    /// The number that stands for the variant on the wire.
    pub open spec fn spec_value(self) -> u8 {
        match self {
            AssetType::One => 1,
            AssetType::Two => 2,
        }
    }

    /// The number that stands for the variant on the wire.
    pub fn value(&self) -> (value: u8)
        ensures
            value == self.spec_value(),
    {
        match self {
            AssetType::One => 1,
            AssetType::Two => 2,
        }
    }

    /// The variant that a number stands for, if it stands for one.
    pub fn from_value(value: u8) -> (variant: Option<Self>)
        ensures
            match variant {
                Some(variant) => variant.spec_value() == value,
                None => forall|other: Self| #[trigger] other.spec_value() != value,
            },
    {
        match value {
            1 => Some(AssetType::One),
            2 => Some(AssetType::Two),
            _ => None,
        }
    }
}

/// The connection of a user on an outside platform to a role. The metadata
/// is kept as the JSON text it arrived in.
#[derive(Debug, Default, Clone)]
pub struct ApplicationRoleConnection {
    pub platform_name: Option<String>,
    pub platform_username: Option<String>,
    pub metadata: Option<String>,
    pub application: Option<IntegrationApplication>,
}

/// What a role connection records. The localised forms of the name and of the
/// description are listed under their locale.
#[derive(Debug, Default, Clone)]
pub struct ApplicationRoleConnectionMetadata {
    pub metadata_type: ApplicationRoleConnectionMetadataType,
    pub key: String,
    pub name: String,
    pub name_localizations: Vec<(String, String)>,
    pub description: String,
    pub description_localizations: Vec<(String, String)>,
}

#[derive(Debug, Default, Clone, PartialEq, Eq, Structural, Hash)]
pub enum ApplicationRoleConnectionMetadataType {
    #[default]
    IntegerLessThanOrEqual,
    IntegerGreaterThanOrEqual,
    IntegerEqual,
    IntegerNotEqual,
    DatetimeLessThanOrEqual,
    DatetimeGreaterThanOrEqual,
    BooleanEqual,
    BooleanNotEqual,
}

impl ApplicationRoleConnectionMetadataType {
    /// The number that stands for the variant on the wire.
    pub open spec fn spec_value(self) -> u8 {
        match self {
            ApplicationRoleConnectionMetadataType::IntegerLessThanOrEqual => 1,
            ApplicationRoleConnectionMetadataType::IntegerGreaterThanOrEqual => 2,
            ApplicationRoleConnectionMetadataType::IntegerEqual => 3,
            ApplicationRoleConnectionMetadataType::IntegerNotEqual => 4,
            ApplicationRoleConnectionMetadataType::DatetimeLessThanOrEqual => 5,
            ApplicationRoleConnectionMetadataType::DatetimeGreaterThanOrEqual => 6,
            ApplicationRoleConnectionMetadataType::BooleanEqual => 7,
            ApplicationRoleConnectionMetadataType::BooleanNotEqual => 8,
        }
    }

    /// The number that stands for the variant on the wire.
    pub fn value(&self) -> (value: u8)
        ensures
            value == self.spec_value(),
    {
        match self {
            ApplicationRoleConnectionMetadataType::IntegerLessThanOrEqual => 1,
            ApplicationRoleConnectionMetadataType::IntegerGreaterThanOrEqual => 2,
            ApplicationRoleConnectionMetadataType::IntegerEqual => 3,
            ApplicationRoleConnectionMetadataType::IntegerNotEqual => 4,
            ApplicationRoleConnectionMetadataType::DatetimeLessThanOrEqual => 5,
            ApplicationRoleConnectionMetadataType::DatetimeGreaterThanOrEqual => 6,
            ApplicationRoleConnectionMetadataType::BooleanEqual => 7,
            ApplicationRoleConnectionMetadataType::BooleanNotEqual => 8,
        }
    }

    /// The variant that a number stands for, if it stands for one.
    pub fn from_value(value: u8) -> (variant: Option<Self>)
        ensures
            match variant {
                Some(variant) => variant.spec_value() == value,
                None => forall|other: Self| #[trigger] other.spec_value() != value,
            },
    {
        match value {
            1 => Some(ApplicationRoleConnectionMetadataType::IntegerLessThanOrEqual),
            2 => Some(ApplicationRoleConnectionMetadataType::IntegerGreaterThanOrEqual),
            3 => Some(ApplicationRoleConnectionMetadataType::IntegerEqual),
            4 => Some(ApplicationRoleConnectionMetadataType::IntegerNotEqual),
            5 => Some(ApplicationRoleConnectionMetadataType::DatetimeLessThanOrEqual),
            6 => Some(ApplicationRoleConnectionMetadataType::DatetimeGreaterThanOrEqual),
            7 => Some(ApplicationRoleConnectionMetadataType::BooleanEqual),
            8 => Some(ApplicationRoleConnectionMetadataType::BooleanNotEqual),
            _ => None,
        }
    }
}

} // verus!
