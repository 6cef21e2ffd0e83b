//! The data Discord sends back: the READY event and the echo of a sent activity.

use serde_json::Value;
use vstd::prelude::*;

use crate::types::payloads::ActivityPayload;
use crate::utils::{opt_as_str, opt_str_view, opt_string_view};

verus! {

#[verifier::external_type_specification]
#[verifier::external_body]
pub struct ExValue(serde_json::Value);

/// What Discord answers to a SET_ACTIVITY command. Other RPC servers answer in
/// other shapes, so every field may be missing.
#[derive(Debug, Clone)]
pub struct ActivityResponseData {
    pub application_id: Option<String>,
    pub platform: Option<String>,
    pub metadata: Option<Value>,
    /// The activity that the server took.
    pub activity: ActivityPayload,
}

impl ActivityResponseData {
    /// The activity that the server took.
    pub fn activity(&self) -> (r: &ActivityPayload)
        ensures
            *r == self.activity,
    {
        &self.activity
    }

    /// The ID of the application.
    pub fn application_id(&self) -> (r: Option<&str>)
        ensures
            opt_str_view(r) == opt_string_view(self.application_id),
    {
        opt_as_str(&self.application_id)
    }
    /// The platform of the host.
    pub fn platform(&self) -> (r: Option<&str>)
        ensures
            opt_str_view(r) == opt_string_view(self.platform),
    {
        opt_as_str(&self.platform)
    }
    /// The metadata of the activity, as raw JSON.
    pub fn metadata(&self) -> (r: Option<&Value>)
        ensures
            r matches Some(v) ==> self.metadata == Some(*v),
            r is None <==> self.metadata is None,
    {
        self.metadata.as_ref()
    }
}

/// The data of a READY event.
#[derive(Debug, Clone)]
pub struct ReadyData {
    pub v: u8,
    /// The configuration of the RPC server.
    pub config: ServerConfigurationData,
    /// The user the connection is made for.
    pub user: DiscordUser,
}

impl ReadyData {
    /// The user the connection is made for.
    pub fn user(&self) -> (r: &DiscordUser)
        ensures
            *r == self.user,
    {
        &self.user
    }

    /// The configuration of the RPC server.
    pub fn config(&self) -> (r: &ServerConfigurationData)
        ensures
            *r == self.config,
    {
        &self.config
    }

    /// The version of the RPC protocol in use.
    pub fn version(&self) -> (r: u8)
        ensures
            r == self.v,
    {
        self.v
    }
}

/// The configuration of the RPC server.
#[derive(Debug, Clone)]
pub struct ServerConfigurationData {
    pub cdn_host: String,
    pub api_endpoint: String,
    pub environment: String,
}

impl ServerConfigurationData {
    /// The CDN host of the server.
    pub fn cdn_host(&self) -> (r: &str)
        ensures
            r@ == self.cdn_host@,
    {
        self.cdn_host.as_str()
    }
    /// The API endpoint of the server.
    pub fn api_endpoint(&self) -> (r: &str)
        ensures
            r@ == self.api_endpoint@,
    {
        self.api_endpoint.as_str()
    }
    /// The environment of the server.
    pub fn environment(&self) -> (r: &str)
        ensures
            r@ == self.environment@,
    {
        self.environment.as_str()
    }
}

/// The Discord user the connection is made for.
#[derive(Debug, Clone)]
pub struct DiscordUser {
    pub id: String,
    pub username: String,
    pub discriminator: String,
    pub global_name: Option<String>,
    pub avatar: Option<String>,
    pub bot: Option<bool>,
    pub system: Option<bool>,
    pub mfa_enabled: Option<bool>,
    pub banner: Option<String>,
    pub accent_color: Option<isize>,
    pub locale: Option<String>,
    pub verified: Option<bool>,
    pub email: Option<String>,
    pub flags: Option<isize>,
    pub premium_type: Option<isize>,
    pub public_flags: Option<isize>,
    /// The user's avatar decoration.
    pub avatar_decoration_data: Option<AvatarDecorationData>,
    /// The user's collectibles.
    pub collectibles: Option<Collectibles>,
    /// The user's primary guild.
    pub primary_guild: Option<PrimaryGuild>,
}

impl DiscordUser {
    /// The user's ID.
    pub fn id(&self) -> (r: &str)
        ensures
            r@ == self.id@,
    {
        self.id.as_str()
    }
    /// The user's username, not unique across the platform.
    pub fn username(&self) -> (r: &str)
        ensures
            r@ == self.username@,
    {
        self.username.as_str()
    }
    /// The user's Discord tag.
    pub fn discriminator(&self) -> (r: &str)
        ensures
            r@ == self.discriminator@,
    {
        self.discriminator.as_str()
    }
    /// The user's display name, if set.
    pub fn global_name(&self) -> (r: Option<&str>)
        ensures
            opt_str_view(r) == opt_string_view(self.global_name),
    {
        opt_as_str(&self.global_name)
    }
    /// The user's avatar hash.
    pub fn avatar(&self) -> (r: Option<&str>)
        ensures
            opt_str_view(r) == opt_string_view(self.avatar),
    {
        opt_as_str(&self.avatar)
    }
    /// Whether the user belongs to an OAuth2 application.
    pub fn bot(&self) -> (r: Option<bool>)
        ensures
            r == self.bot,
    {
        self.bot
    }
    /// Whether the user is an official Discord system user.
    pub fn system(&self) -> (r: Option<bool>)
        ensures
            r == self.system,
    {
        self.system
    }
    /// Whether the user has two-factor authentication enabled.
    pub fn mfa_enabled(&self) -> (r: Option<bool>)
        ensures
            r == self.mfa_enabled,
    {
        self.mfa_enabled
    }
    /// The user's banner hash.
    pub fn banner(&self) -> (r: Option<&str>)
        ensures
            opt_str_view(r) == opt_string_view(self.banner),
    {
        opt_as_str(&self.banner)
    }
    /// The user's chosen language.
    pub fn locale(&self) -> (r: Option<&str>)
        ensures
            opt_str_view(r) == opt_string_view(self.locale),
    {
        opt_as_str(&self.locale)
    }
    /// The user's email.
    pub fn email(&self) -> (r: Option<&str>)
        ensures
            opt_str_view(r) == opt_string_view(self.email),
    {
        opt_as_str(&self.email)
    }
    /// Whether the user's email is verified.
    pub fn verified(&self) -> (r: Option<bool>)
        ensures
            r == self.verified,
    {
        self.verified
    }
    /// The user's banner color as an integer.
    pub fn accent_color(&self) -> (r: Option<isize>)
        ensures
            r == self.accent_color,
    {
        self.accent_color
    }
    /// The flags on the user's account.
    pub fn flags(&self) -> (r: Option<isize>)
        ensures
            r == self.flags,
    {
        self.flags
    }
    /// The type of Nitro subscription of the user.
    pub fn premium_type(&self) -> (r: Option<isize>)
        ensures
            r == self.premium_type,
    {
        self.premium_type
    }
    /// The public flags on the user's account.
    pub fn public_flags(&self) -> (r: Option<isize>)
        ensures
            r == self.public_flags,
    {
        self.public_flags
    }
}

/// The data of a user's avatar decoration.
#[derive(Debug, Clone)]
pub struct AvatarDecorationData {
    pub asset: String,
    pub sku_id: String,
}

impl AvatarDecorationData {
    /// The avatar decoration hash.
    pub fn asset(&self) -> (r: &str)
        ensures
            r@ == self.asset@,
    {
        self.asset.as_str()
    }
    /// The ID of the decoration's SKU.
    pub fn sku_id(&self) -> (r: &str)
        ensures
            r@ == self.sku_id@,
    {
        self.sku_id.as_str()
    }
}

/// The collectibles of a user, other than avatar decorations and profile effects.
#[derive(Debug, Clone)]
pub struct Collectibles {
    /// The user's nameplate.
    pub nameplate: Option<NameplateData>,
}

/// A user's nameplate.
#[derive(Debug, Clone)]
pub struct NameplateData {
    pub sku_id: String,
    pub asset: String,
    pub label: String,
    pub palette: String,
}

impl NameplateData {
    /// The ID of the nameplate's SKU.
    pub fn sku_id(&self) -> (r: &str)
        ensures
            r@ == self.sku_id@,
    {
        self.sku_id.as_str()
    }
    /// The path of the nameplate asset.
    pub fn asset(&self) -> (r: &str)
        ensures
            r@ == self.asset@,
    {
        self.asset.as_str()
    }
    /// The label of the nameplate.
    pub fn label(&self) -> (r: &str)
        ensures
            r@ == self.label@,
    {
        self.label.as_str()
    }
    /// The background color of the nameplate.
    pub fn palette(&self) -> (r: &str)
        ensures
            r@ == self.palette@,
    {
        self.palette.as_str()
    }
}

/// A user's primary guild.
#[derive(Debug, Clone)]
pub struct PrimaryGuild {
    pub identity_guild_id: Option<String>,
    pub identity_enabled: Option<bool>,
    pub tag: Option<String>,
    pub badge: Option<String>,
}

impl PrimaryGuild {
    /// The ID of the user's primary guild.
    pub fn identity_guild_id(&self) -> (r: Option<&str>)
        ensures
            opt_str_view(r) == opt_string_view(self.identity_guild_id),
    {
        opt_as_str(&self.identity_guild_id)
    }
    /// The text of the user's server tag.
    pub fn tag(&self) -> (r: Option<&str>)
        ensures
            opt_str_view(r) == opt_string_view(self.tag),
    {
        opt_as_str(&self.tag)
    }
    /// The server tag badge hash.
    pub fn badge(&self) -> (r: Option<&str>)
        ensures
            opt_str_view(r) == opt_string_view(self.badge),
    {
        opt_as_str(&self.badge)
    }
    /// Whether the user shows the primary guild's tag: `None` when the system cleared it, `false` when the user removed it.
    pub fn identity_enabled(&self) -> (r: Option<bool>)
        ensures
            r == self.identity_enabled,
    {
        self.identity_enabled
    }
}

} // verus!
