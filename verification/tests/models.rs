use discord_controls::models::{ChannelSummary, GlobalSettings, GuildSummary, VoiceChannelSettings, title_fits};

fn global(id: &str, secret: &str, uri: &str, token: &str) -> GlobalSettings {
    GlobalSettings {
        client_id: id.to_string(),
        client_secret: secret.to_string(),
        redirect_uri: uri.to_string(),
        access_token: token.to_string(),
    }
}

fn voice(name: &str) -> VoiceChannelSettings {
    VoiceChannelSettings {
        guild_id: "1".to_string(),
        guild_name: "Guild".to_string(),
        channel_id: "2".to_string(),
        channel_name: name.to_string(),
        guild_icon_url: String::new(),
        sound_id: String::new(),
    }
}

#[test]
fn credentials_need_id_and_secret() {
    assert!(global("id", "secret", "", "").has_credentials());
    assert!(!global("  ", "secret", "", "").has_credentials());
    assert!(!global("id", "\t", "", "").has_credentials());
    assert!(!GlobalSettings::default().has_credentials());
}

#[test]
fn redirect_uri_must_not_be_blank() {
    assert!(global("", "", "http://localhost", "").has_redirect_uri());
    assert!(!global("", "", "   ", "").has_redirect_uri());
}

#[test]
fn access_token_is_trimmed_or_absent() {
    assert_eq!(global("", "", "", "  tok  ").access_token_if_present(), Some("tok"));
    assert_eq!(global("", "", "", "tok").access_token_if_present(), Some("tok"));
    assert_eq!(global("", "", "", "   ").access_token_if_present(), None);
    assert_eq!(global("", "", "", "").access_token_if_present(), None);
}

#[test]
fn button_title_defaults_when_name_is_blank() {
    assert_eq!(voice("").button_title(), "Voice\nChannel");
    assert_eq!(voice("   ").button_title(), "Voice\nChannel");
}

#[test]
fn button_title_breaks_lines_at_spaces() {
    assert_eq!(voice("  General Chat  ").button_title(), "General\nChat");
    assert_eq!(voice("Lobby").button_title(), "Lobby");
}

#[test]
fn button_title_keeps_eighteen_bytes() {
    assert_eq!(voice("This is a very long channel name").button_title(), "This\nis\na\nvery\nlon");
    assert_eq!(voice("exactly-eighteen-b").button_title(), "exactly-eighteen-b");
    assert_eq!(voice("ééééééééé").button_title(), "ééééééééé");
    assert_eq!(voice("éééééééééx").button_title(), "ééééééééé");
}

#[test]
fn title_cut_inside_a_character_is_detected() {
    let name = "aaaaaaaaaaaaaaaaaé";
    assert_eq!(name.len(), 19);
    assert!(!title_fits(name));
    assert!(!voice(name).title_fits_boundary());
    assert!(title_fits("short"));
    assert!(title_fits("éééééééééx"));
}

#[test]
fn icon_url_prefers_given_url() {
    let guild = GuildSummary {
        id: "42".to_string(),
        name: "G".to_string(),
        icon_url: Some("https://example.com/i.png".to_string()),
        icon: Some("hash".to_string()),
    };
    assert_eq!(guild.normalized_icon_url().as_deref(), Some("https://example.com/i.png"));
}

#[test]
fn icon_url_built_from_hash() {
    let guild = GuildSummary {
        id: "42".to_string(),
        name: "G".to_string(),
        icon_url: Some(String::new()),
        icon: Some("abc".to_string()),
    };
    assert_eq!(
        guild.normalized_icon_url().as_deref(),
        Some("https://cdn.discordapp.com/icons/42/abc.png?size=128")
    );
}

#[test]
fn icon_url_absent_without_url_or_hash() {
    let guild = GuildSummary { id: "42".to_string(), name: "G".to_string(), icon_url: None, icon: Some(String::new()) };
    assert_eq!(guild.normalized_icon_url(), None);
    let guild = GuildSummary { id: "42".to_string(), name: "G".to_string(), icon_url: None, icon: None };
    assert_eq!(guild.normalized_icon_url(), None);
}

#[test]
fn voice_and_stage_channels_are_voice_like() {
    for (kind, expected) in [(2, true), (13, true), (0, false), (4, false), (-2, false)] {
        let channel = ChannelSummary { id: "c".to_string(), name: "n".to_string(), kind };
        assert_eq!(channel.is_voice_like(), expected);
    }
}
