//! Integrations of a guild with outside services.

use vstd::prelude::*;

use crate::types::entities::application::{ApplicationSKUObject, ApplicationType};
use crate::types::utils::Snowflake;

verus! {

/// See <https://discord.com/developers/docs/resources/guild#integration-account-object-integration-account-structure>
#[derive(Default, Debug, Clone, PartialEq, Eq)]
pub struct IntegrationAccount {
    pub id: String,
    pub name: String,
}

#[derive(Debug, Default, Clone, Copy, PartialEq, Eq, Structural)]
pub enum IntegrationType {
    #[default]
    Twitch,
    Youtube,
    Discord,
    GuildSubscription,
}

/// The application behind an integration. Its bot is referred to by
/// identifier.
#[derive(Debug, Default, Clone, PartialEq, Eq)]
pub struct IntegrationApplication {
    pub id: Snowflake,
    pub name: String,
    pub description: String,
    pub icon: Option<String>,
    pub cover_image: Option<String>,
    pub splash: Option<String>,
    pub application_type: Option<ApplicationType>,
    pub primary_sku_id: Option<Snowflake>,
    pub bot: Option<Snowflake>,
    pub deeplink_uri: Option<String>,
    pub third_party_skus: Vec<ApplicationSKUObject>,
    pub role_connections_verification_url: Option<String>,
}

} // verus!
