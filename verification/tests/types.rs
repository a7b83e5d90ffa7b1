use chorus::types::entities::application::{
    ActivityLabelType, Application, ApplicationCommandOptionType, ApplicationCommandPermissionType,
    ApplicationDiscoverEligibilityFlags, ApplicationDiscoveryState,
    ApplicationExplicitContentFilterLevel, ApplicationFlags, ApplicationIntegrationType,
    ApplicationInteractionsVersion, ApplicationMonetizationEligibilityFlags,
    ApplicationMonetizationState, ApplicationRoleConnectionMetadataType, ApplicationType,
    ApplicationVerificationState, AssetType, OrientationLockState, RPCApplicationState,
    StoreApplicationState,
};
use chorus::types::entities::channel::ChannelType;
use chorus::types::entities::team::{MembershipState, TeamMemberRole, TeamPayoutAccountStatus};
use chorus::types::schema::channel::{
    ChannelMessagesAnchor, CreateChannelInviteSchema, GetChannelMessagesSchema, InviteFlags,
    InviteTargetType, InviteType,
};
use chorus::types::utils::Snowflake;

#[test]
fn message_queries_name_their_anchor() {
    assert_eq!(
        GetChannelMessagesSchema::before(Snowflake(5)),
        GetChannelMessagesSchema { limit: None, anchor: ChannelMessagesAnchor::Before(Snowflake(5)) }
    );
    assert_eq!(
        GetChannelMessagesSchema::around(Snowflake(6)),
        GetChannelMessagesSchema { limit: None, anchor: ChannelMessagesAnchor::Around(Snowflake(6)) }
    );
    assert_eq!(
        GetChannelMessagesSchema::after(Snowflake(7)),
        GetChannelMessagesSchema { limit: None, anchor: ChannelMessagesAnchor::After(Snowflake(7)) }
    );
}

#[test]
fn message_query_limit_keeps_the_anchor() {
    let query = GetChannelMessagesSchema::after(Snowflake(7)).limit(25);
    assert_eq!(query.limit, Some(25));
    assert_eq!(query.anchor, ChannelMessagesAnchor::After(Snowflake(7)));
    assert_eq!(query.limit(100).limit, Some(100));
    assert_eq!(query.limit(-1).anchor, ChannelMessagesAnchor::After(Snowflake(7)));
}

#[test]
fn default_invite_lasts_a_day() {
    let invite = CreateChannelInviteSchema::default();
    assert_eq!(invite.flags, None);
    assert_eq!(invite.max_age, Some(86400));
    assert_eq!(invite.max_uses, Some(0));
    assert_eq!(invite.temporary, Some(false));
    assert_eq!(invite.unique, Some(false));
    assert_eq!(invite.validate, None);
    assert_eq!(invite.target_type, None);
    assert_eq!(invite.target_user_id, None);
    assert_eq!(invite.target_application_id, None);
}

#[test]
fn default_application_is_public_and_unflagged() {
    let application = Application::default();
    assert_eq!(application.id, Snowflake(0));
    assert_eq!(application.name, "");
    assert_eq!(application.verify_key, "");
    assert!(application.hook);
    assert!(application.bot_public);
    assert!(!application.bot_require_code_grant);
    assert!(application.integration_public);
    assert!(!application.integration_require_code_grant);
    assert_eq!(application.flags.bits(), 0);
    assert_eq!(application.rpc_application_state, 0);
    assert_eq!(application.store_application_state, 1);
    assert_eq!(application.verification_state, 1);
    assert_eq!(application.discoverability_state, 1);
    assert_eq!(application.discovery_eligibility_flags, 2240);
    assert_eq!(application.owner, Snowflake(0));
    assert!(application.bot.is_none());
    assert!(application.application_type.is_none());
    assert!(application.redirect_uris.is_none());
    assert!(application.tags.is_none());
    assert!(application.install_params.is_none());
    assert!(application.team.is_none());
    assert!(application.icon.is_none() && application.description.is_none());
    assert!(application.summary.is_none() && application.cover_image.is_none());
    assert!(application.interactions_endpoint_url.is_none());
    assert!(application.terms_of_service_url.is_none());
    assert!(application.privacy_policy_url.is_none());
}

#[test]
fn invite_flags_refuse_unknown_bits() {
    assert_eq!(InviteFlags::GUEST, 1);
    assert_eq!(InviteFlags::VIEWED, 2);
    assert_eq!(InviteFlags::ALL, 3);
    for bits in 0..4u64 {
        assert_eq!(InviteFlags::from_bits(bits).unwrap().bits(), bits);
    }
    assert_eq!(InviteFlags::from_bits(4), None);
    assert_eq!(InviteFlags::from_bits(5), None);
    assert_eq!(InviteFlags::from_bits(u64::MAX), None);
    assert_eq!(InviteFlags::empty().bits(), 0);
    let both = InviteFlags::from_bits(3).unwrap();
    let guest = InviteFlags::from_bits(InviteFlags::GUEST).unwrap();
    assert!(both.contains(guest));
    assert!(!guest.contains(both));
    assert!(guest.contains(InviteFlags::empty()));
}

#[test]
fn application_flags_know_their_bits() {
    assert_eq!(ApplicationFlags::MANAGED_EMOJI, 4);
    assert_eq!(ApplicationFlags::IFRAME_MODAL, 1 << 26);
    assert_eq!(ApplicationFlags::ALL, 0x58ff05c);
    assert_eq!(ApplicationFlags::from_bits(1), None);
    assert_eq!(ApplicationFlags::from_bits(1 << 27), None);
    let flags = ApplicationFlags::from_bits(ApplicationFlags::EMBEDDED | ApplicationFlags::ACTIVE)
        .unwrap();
    assert_eq!(flags.bits(), (1 << 17) | (1 << 24));
    assert!(flags.contains(ApplicationFlags::from_bits(ApplicationFlags::ACTIVE).unwrap()));
    assert!(!flags.contains(ApplicationFlags::from_bits(ApplicationFlags::MANAGED_EMOJI).unwrap()));
    assert_eq!(ApplicationDiscoverEligibilityFlags::ALL, 0x1ffff);
    assert_eq!(ApplicationDiscoverEligibilityFlags::from_bits(2240).unwrap().bits(), 2240);
    assert_eq!(ApplicationDiscoverEligibilityFlags::from_bits(1 << 17), None);
    assert_eq!(ApplicationMonetizationEligibilityFlags::ALL, 0x7ffff);
    assert_eq!(ApplicationMonetizationEligibilityFlags::from_bits(1 << 19), None);
    assert_eq!(
        ApplicationMonetizationEligibilityFlags::from_bits(1 << 18).unwrap().bits(),
        ApplicationMonetizationEligibilityFlags::VALID_PAYOUT_STATUS
    );
}

#[test]
fn wire_numbers_of_team_enums() {
    assert_eq!(TeamPayoutAccountStatus::Unsubmitted.value(), 1);
    assert_eq!(TeamPayoutAccountStatus::Suspended.value(), 6);
    assert_eq!(TeamPayoutAccountStatus::from_value(3), Some(TeamPayoutAccountStatus::ActionRequired));
    assert_eq!(TeamPayoutAccountStatus::from_value(0), None);
    assert_eq!(TeamPayoutAccountStatus::from_value(7), None);
    assert_eq!(MembershipState::Invited.value(), 1);
    assert_eq!(MembershipState::from_value(2), Some(MembershipState::Accepted));
    assert_eq!(MembershipState::from_value(3), None);
    assert_eq!(TeamPayoutAccountStatus::default(), TeamPayoutAccountStatus::Unsubmitted);
    assert_eq!(MembershipState::default(), MembershipState::Invited);
    assert_eq!(TeamMemberRole::default(), TeamMemberRole::ReadOnly);
}

#[test]
fn wire_numbers_of_application_enums() {
    assert_eq!(ApplicationCommandOptionType::SubCommand.value(), 1);
    assert_eq!(ApplicationCommandOptionType::Attachment.value(), 11);
    assert_eq!(ApplicationCommandOptionType::from_value(0), None);
    assert_eq!(ApplicationCommandOptionType::from_value(-1), None);
    assert_eq!(ApplicationCommandOptionType::from_value(12), None);
    for value in 1..=11 {
        assert_eq!(ApplicationCommandOptionType::from_value(value).unwrap().value(), value);
    }
    assert_eq!(ApplicationCommandPermissionType::from_value(3), Some(ApplicationCommandPermissionType::Channel));
    assert_eq!(ApplicationType::CreatorMonetization.value(), 4);
    assert_eq!(ApplicationType::from_value(5), None);
    assert_eq!(ApplicationInteractionsVersion::Version2.value(), 2);
    assert_eq!(ApplicationExplicitContentFilterLevel::Disabled.value(), 0);
    assert_eq!(ApplicationExplicitContentFilterLevel::from_value(1), Some(ApplicationExplicitContentFilterLevel::Enabled));
    assert_eq!(ApplicationVerificationState::default(), ApplicationVerificationState::Unsubmitted);
    assert_eq!(ApplicationVerificationState::default().value(), 2);
    assert_eq!(StoreApplicationState::default().value(), 1);
    assert_eq!(StoreApplicationState::Rejected.value(), 5);
    assert_eq!(RPCApplicationState::default().value(), 0);
    assert_eq!(RPCApplicationState::from_value(4), Some(RPCApplicationState::Rejected));
    assert_eq!(RPCApplicationState::from_value(5), None);
    assert_eq!(ApplicationDiscoveryState::default(), ApplicationDiscoveryState::NotDiscoverable);
    assert_eq!(ApplicationDiscoveryState::Blocked.value(), 5);
    assert_eq!(ApplicationMonetizationState::default().value(), 1);
    assert_eq!(ApplicationMonetizationState::from_value(3), Some(ApplicationMonetizationState::Blocked));
    assert_eq!(ApplicationIntegrationType::UserInstall.value(), 1);
    assert_eq!(OrientationLockState::Landscape.value(), 3);
    assert_eq!(OrientationLockState::from_value(0), None);
    assert_eq!(ActivityLabelType::default().value(), 0);
    assert_eq!(ActivityLabelType::from_value(2), Some(ActivityLabelType::Updated));
    assert_eq!(AssetType::from_value(2), Some(AssetType::Two));
    assert_eq!(ApplicationRoleConnectionMetadataType::BooleanNotEqual.value(), 8);
    for value in 1..=8 {
        assert_eq!(ApplicationRoleConnectionMetadataType::from_value(value).unwrap().value(), value);
    }
    assert_eq!(ApplicationRoleConnectionMetadataType::from_value(9), None);
}

#[test]
fn wire_numbers_of_channel_enums() {
    assert_eq!(InviteType::Guild.value(), 0);
    assert_eq!(InviteType::from_value(2), Some(InviteType::Friend));
    assert_eq!(InviteType::from_value(3), None);
    assert_eq!(InviteTargetType::default(), InviteTargetType::Stream);
    assert_eq!(InviteTargetType::Stream.value(), 1);
    assert_eq!(InviteTargetType::from_value(4), Some(InviteTargetType::CreatorPage));
    assert_eq!(InviteTargetType::from_value(0), None);
    assert_eq!(ChannelType::GuildText.value(), 0);
    assert_eq!(ChannelType::GuildForum.value(), 15);
    assert_eq!(ChannelType::from_value(10), Some(ChannelType::GuildNewsThread));
    assert_eq!(ChannelType::from_value(6), None);
    assert_eq!(ChannelType::from_value(255), None);
}
