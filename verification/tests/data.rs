use filthy_rich::types::data::{
    AvatarDecorationData, DiscordUser, NameplateData, PrimaryGuild, ReadyData, ServerConfigurationData,
};

fn user() -> DiscordUser {
    DiscordUser {
        id: "1".into(),
        username: "name".into(),
        discriminator: "0".into(),
        global_name: Some("Global".into()),
        avatar: None,
        bot: Some(false),
        system: None,
        mfa_enabled: Some(true),
        banner: None,
        accent_color: Some(0xff00ff),
        locale: Some("en-US".into()),
        verified: Some(true),
        email: None,
        flags: Some(64),
        premium_type: Some(2),
        public_flags: Some(0),
        avatar_decoration_data: Some(AvatarDecorationData { asset: "a".into(), sku_id: "s".into() }),
        collectibles: None,
        primary_guild: Some(PrimaryGuild {
            identity_guild_id: Some("g".into()),
            identity_enabled: Some(false),
            tag: Some("TAG".into()),
            badge: None,
        }),
    }
}

#[test]
fn ready_data_getters() {
    let r = ReadyData {
        v: 1,
        config: ServerConfigurationData {
            cdn_host: "cdn.discordapp.com".into(),
            api_endpoint: "//discord.com/api".into(),
            environment: "production".into(),
        },
        user: user(),
    };
    assert_eq!(r.version(), 1);
    assert_eq!(r.user().id(), "1");
    assert_eq!(r.config().environment(), "production");
    assert_eq!(r.config.cdn_host(), "cdn.discordapp.com");
    assert_eq!(r.config.api_endpoint(), "//discord.com/api");
    assert_eq!(r.config.environment(), "production");
    let u = &r.user;
    assert_eq!(u.id(), "1");
    assert_eq!(u.username(), "name");
    assert_eq!(u.discriminator(), "0");
    assert_eq!(u.global_name(), Some("Global"));
    assert_eq!(u.avatar(), None);
    assert_eq!(u.bot(), Some(false));
    assert_eq!(u.system(), None);
    assert_eq!(u.mfa_enabled(), Some(true));
    assert_eq!(u.locale(), Some("en-US"));
    assert_eq!(u.verified(), Some(true));
    assert_eq!(u.accent_color(), Some(0xff00ff));
    assert_eq!(u.flags(), Some(64));
    assert_eq!(u.premium_type(), Some(2));
    assert_eq!(u.public_flags(), Some(0));
    assert_eq!(u.banner(), None);
    assert_eq!(u.email(), None);
    let d = u.avatar_decoration_data.as_ref().unwrap();
    assert_eq!(d.asset(), "a");
    assert_eq!(d.sku_id(), "s");
    let g = u.primary_guild.as_ref().unwrap();
    assert_eq!(g.identity_guild_id(), Some("g"));
    assert_eq!(g.identity_enabled(), Some(false));
    assert_eq!(g.tag(), Some("TAG"));
    assert_eq!(g.badge(), None);
}

#[test]
fn nameplate_getters() {
    let n = NameplateData {
        sku_id: "k".into(),
        asset: "nameplates/x/".into(),
        label: "l".into(),
        palette: "crimson".into(),
    };
    assert_eq!(n.sku_id(), "k");
    assert_eq!(n.asset(), "nameplates/x/");
    assert_eq!(n.label(), "l");
    assert_eq!(n.palette(), "crimson");
}
