use discord_controls::failure::Failure;
use discord_controls::icons::{data_uri_from_base64, download_url, icon_data_uri};
use discord_controls::json::Json;
use discord_controls::models::{GlobalSettings, GuildSummary, VoiceChannelSettings};
use discord_controls::outbound::{InspectorPayload, Outbound, StatusLevel};
use discord_controls::plugin::{ActionState, IconPlan, PiWork, PluginEvent, PluginState, PropertyInspectorRequest, RpcTask, ActionKind, action_kind_of};
use discord_controls::models::SoundboardSoundSummary;
use discord_controls::rpc::RpcCommand;
use discord_controls::stream_deck::StreamDeckClient;

fn s(x: &str) -> Json {
    Json::Str(x.to_string())
}

fn obj(entries: Vec<(&str, Json)>) -> Json {
    Json::Object(entries.into_iter().map(|(k, v)| (k.to_string(), v)).collect())
}

fn state() -> PluginState {
    PluginState::new(StreamDeckClient { plugin_uuid: "plugin".to_string() })
}

fn voice(channel_id: &str, name: &str, icon: &str) -> VoiceChannelSettings {
    VoiceChannelSettings {
        guild_id: "g".to_string(),
        guild_name: "Guild".to_string(),
        channel_id: channel_id.to_string(),
        channel_name: name.to_string(),
        guild_icon_url: icon.to_string(),
        sound_id: String::new(),
    }
}

fn sound(guild_id: &str, sound_id: &str) -> VoiceChannelSettings {
    VoiceChannelSettings { guild_id: guild_id.to_string(), sound_id: sound_id.to_string(), ..VoiceChannelSettings::default() }
}

fn event(name: &str, context: Option<&str>, action: Option<&str>) -> Json {
    let mut entries = vec![("event", s(name))];
    if let Some(c) = context {
        entries.push(("context", s(c)));
    }
    if let Some(a) = action {
        entries.push(("action", s(a)));
    }
    obj(entries)
}

fn log_text(m: &Outbound) -> Option<&str> {
    match m {
        Outbound::ToInspector { payload: InspectorPayload::Log(text), .. } => Some(text.as_str()),
        _ => None,
    }
}

fn with_credentials(st: &mut PluginState, id: &str, secret: &str, uri: &str, token: &str) {
    st.apply_global_settings(GlobalSettings {
        client_id: id.to_string(),
        client_secret: secret.to_string(),
        redirect_uri: uri.to_string(),
        access_token: token.to_string(),
    });
}

#[test]
fn events_are_classified_by_name() {
    assert!(matches!(PluginState::classify_event(&event("willAppear", None, None)), PluginEvent::ActionSettings));
    assert!(matches!(PluginState::classify_event(&event("didReceiveSettings", None, None)), PluginEvent::ActionSettings));
    assert!(matches!(PluginState::classify_event(&event("didReceiveGlobalSettings", None, None)), PluginEvent::GlobalSettings));
    assert!(matches!(PluginState::classify_event(&event("keyDown", None, None)), PluginEvent::KeyDown));
    assert!(matches!(PluginState::classify_event(&event("sendToPlugin", None, None)), PluginEvent::SendToPlugin));
    assert!(matches!(PluginState::classify_event(&event("keyUp", None, None)), PluginEvent::Ignored));
    assert!(matches!(PluginState::classify_event(&Json::Null), PluginEvent::Ignored));
}

#[test]
fn retryable_errors() {
    for text in [
        "Discord RPC socket closed while waiting for GET_GUILDS",
        "failed to read Discord IPC payload",
        "failed to write Discord IPC payload",
        "Discord RPC error 4006: Not authenticated",
        "Discord RPC error 4009: Invalid token",
    ] {
        assert!(PluginState::is_retryable_rpc_error(&Failure::msg(text)), "{text}");
        assert!(PluginState::retry_rpc(0, &Failure::msg(text)));
        assert!(!PluginState::retry_rpc(1, &Failure::msg(text)));
    }
    assert!(!PluginState::is_retryable_rpc_error(&Failure::msg("Discord RPC error 5003: busy")));
    assert!(PluginState::is_retryable_rpc_error(&Failure::msg("Discord RPC error 40060: Invalid payload")));
    assert!(!PluginState::retry_rpc(0, &Failure::msg("invalid guild list response")));
    assert_eq!(PluginState::rpc_attempts(), 2);
    assert_eq!(PluginState::rpc_unavailable().message, "Discord RPC client is unavailable");
    assert_eq!(PluginState::rpc_attempts_exhausted(&RpcTask::GetGuilds).message, "failed to get Discord servers");
    assert_eq!(PluginState::rpc_attempts_exhausted(&RpcTask::LeaveVoiceChannel).message, "failed to leave Discord voice channel");
}

#[test]
fn authorization_needs_credentials_and_redirect() {
    let mut st = state();
    assert_eq!(
        st.authorization_inputs().err().unwrap().message,
        "Discord client ID and secret are required"
    );
    with_credentials(&mut st, "id", "secret", " ", "");
    assert_eq!(
        st.authorization_inputs().err().unwrap().message,
        "Redirect URI is required and must match Discord Developer Portal OAuth2 redirect"
    );
    with_credentials(&mut st, "id", "secret", "http://x", "  tok ");
    let inputs = st.authorization_inputs().ok().unwrap();
    assert_eq!(inputs.client_id, "id");
    assert_eq!(inputs.client_secret, "secret");
    assert_eq!(inputs.redirect_uri, "http://x");
    assert_eq!(inputs.cached_access_token.as_deref(), Some("tok"));
    with_credentials(&mut st, "id", "secret", "http://x", "");
    assert_eq!(st.authorization_inputs().ok().unwrap().cached_access_token, None);
}

#[test]
fn access_tokens_are_persisted_once() {
    let mut st = state();
    with_credentials(&mut st, "id", "secret", "uri", "old");
    assert!(st.persist_access_token("old").is_none());
    match st.persist_access_token("new") {
        Some(Outbound::SetGlobalSettings(g)) => assert_eq!(g.access_token, "new"),
        _ => panic!("expected the settings to be stored"),
    }
    assert_eq!(st.global_settings.access_token, "new");
    assert_eq!(st.global_settings.client_id, "id");
}

#[test]
fn connect_without_values_changes_nothing() {
    let mut st = state();
    with_credentials(&mut st, "id", "secret", "uri", "tok");
    let (changed, store) = st.update_credentials(None, None, None);
    assert!(!changed);
    assert!(store.is_none());
    assert_eq!(st.global_settings.access_token, "tok");
}

#[test]
fn unchanged_credentials_keep_the_token() {
    let mut st = state();
    with_credentials(&mut st, "id", "secret", "uri", "tok");
    let (changed, store) = st.update_credentials(Some("id".to_string()), None, Some("uri".to_string()));
    assert!(!changed);
    assert!(matches!(store, Some(Outbound::SetGlobalSettings(ref g)) if g.access_token == "tok"));
    assert_eq!(st.global_settings.access_token, "tok");
}

#[test]
fn changed_credentials_drop_the_token() {
    let mut st = state();
    with_credentials(&mut st, "id", "secret", "uri", "tok");
    let (changed, _) = st.update_credentials(None, Some("other".to_string()), None);
    assert!(changed);
    assert_eq!(st.global_settings.client_secret, "other");
    assert_eq!(st.global_settings.client_id, "id");
    assert_eq!(st.global_settings.access_token, "");
}

#[test]
fn saving_the_same_credentials_twice_changes_nothing_the_second_time() {
    let mut st = state();
    with_credentials(&mut st, "id", "secret", "uri", "tok");
    let (first, _) = st.save_credentials("id2".to_string(), "secret".to_string(), "uri".to_string());
    assert!(first);
    assert_eq!(st.global_settings.access_token, "");
    with_credentials(&mut st, "id2", "secret", "uri", "tok2");
    let (second, persist) = st.save_credentials("id2".to_string(), "secret".to_string(), "uri".to_string());
    assert!(!second);
    assert_eq!(st.global_settings.access_token, "tok2");
    assert!(matches!(persist, Outbound::SetGlobalSettings(ref g) if g.client_id == "id2"));
}

#[test]
fn action_settings_are_remembered() {
    let mut st = state();
    let message = event("willAppear", Some("ctx"), Some("com.example.voice"));
    let (context, title, icon) = st.handle_action_settings(&message, voice("c1", "General Chat", "")).ok().unwrap();
    assert_eq!(context, "ctx");
    assert!(matches!(title, Outbound::SetTitle { ref context, ref title } if context == "ctx" && title == "General\nChat"));
    assert!(matches!(icon, IconPlan::NoIcon));
    let stored = st.actions.get("ctx").unwrap();
    assert_eq!(stored.action_uuid, "com.example.voice");
    assert_eq!(stored.settings.channel_id, "c1");
    assert!(!stored.connected);
}

#[test]
fn action_settings_need_a_context() {
    let mut st = state();
    let message = event("willAppear", None, None);
    let error = st.handle_action_settings(&message, voice("c1", "x", "")).err().unwrap();
    assert_eq!(error.message, "missing context");
    assert!(!st.actions.contains_key("ctx"));
}

#[test]
fn key_down_joins_the_configured_channel() {
    let mut st = state();
    st.handle_action_settings(&event("willAppear", Some("ctx"), Some("act")), voice("c1", "Voice", "")).ok().unwrap();
    let (key, messages, toggle) = st.key_down(&event("keyDown", Some("ctx"), Some("act")), VoiceChannelSettings::default()).ok().unwrap();
    assert_eq!(key.context, "ctx");
    assert_eq!(key.state.settings.channel_id, "c1");
    let logs: Vec<&str> = messages.iter().filter_map(log_text).collect();
    assert_eq!(logs, vec!["keyDown: guild_id='g' channel_id='c1' connected=false", "Attempting SELECT_VOICE_CHANNEL"]);
    assert!(matches!(toggle, Some(RpcCommand::SelectVoiceChannel { ref channel_id, force: false }) if channel_id == "c1"));
    assert!(PluginState::key_command_succeeded(&key).is_some());
    let title = st.record_key_command(&key);
    assert!(matches!(title, Outbound::SetTitle { ref title, .. } if title == "Voice"));
    assert!(st.actions.get("ctx").unwrap().connected);
    let (key, _, toggle) = st.key_down(&event("keyDown", Some("ctx"), Some("act")), VoiceChannelSettings::default()).ok().unwrap();
    assert!(matches!(toggle, Some(RpcCommand::LeaveVoiceChannel)));
    st.record_key_command(&key);
    assert!(!st.actions.get("ctx").unwrap().connected);
}

#[test]
fn key_down_without_channel_alerts() {
    let st = state();
    let (_, messages, toggle) = st.key_down(&event("keyDown", Some("ctx"), Some("act")), voice("  ", "x", "")).ok().unwrap();
    assert!(toggle.is_none());
    assert_eq!(messages.len(), 3);
    assert_eq!(log_text(&messages[1]), Some("keyDown aborted: no channel selected"));
    assert!(matches!(messages[2], Outbound::ShowAlert { ref context } if context == "ctx"));
}

#[test]
fn key_down_of_unknown_key_uses_event_settings_and_skips_logs_without_action() {
    let st = state();
    let (key, messages, toggle) = st.key_down(&event("keyDown", Some("ctx"), None), voice("c9", "x", "")).ok().unwrap();
    assert!(messages.is_empty());
    assert_eq!(key.action_uuid, "");
    assert!(!key.state.connected);
    assert!(matches!(toggle, Some(RpcCommand::SelectVoiceChannel { ref channel_id, force: false }) if channel_id == "c9"));
    assert!(PluginState::key_command_succeeded(&key).is_none());
    assert_eq!(st.key_down(&event("keyDown", None, None), voice("c9", "x", "")).err().unwrap().message, "missing context");
}

#[test]
fn failed_voice_toggle_is_reported() {
    let mut st = state();
    st.handle_action_settings(&event("willAppear", Some("ctx"), Some("stored")), voice("c1", "Voice", "")).ok().unwrap();
    let (key, _, _) = st.key_down(&event("keyDown", Some("ctx"), Some("")), VoiceChannelSettings::default()).ok().unwrap();
    let (text, alert, reports) = st.key_command_failed(&key, &Failure::msg("Discord RPC error 4000: nope"));
    assert_eq!(text, "Voice toggle failed: Discord RPC error 4000: nope");
    assert!(matches!(alert, Outbound::ShowAlert { .. }));
    assert_eq!(reports.len(), 2);
    assert!(matches!(&reports[0], Outbound::ToInspector { action, payload: InspectorPayload::Status { level: StatusLevel::Error, message }, .. }
        if action == "stored" && *message == text));
    assert_eq!(log_text(&reports[1]), Some(text.as_str()));
    let (_, reports) = st.show_action_error("unknown", None, "x");
    assert!(reports.is_empty());
    let (_, reports) = st.show_action_error("unknown", Some("given"), "x");
    assert_eq!(reports.len(), 2);
}

#[test]
fn property_inspector_load_state() {
    let mut st = state();
    with_credentials(&mut st, "id", "s", "u", "");
    let (context, action, work) = st
        .handle_property_inspector_message(&event("sendToPlugin", Some("ctx"), Some("act")), Ok(PropertyInspectorRequest::LoadState))
        .ok()
        .unwrap();
    assert_eq!((context.as_str(), action.as_str()), ("ctx", "act"));
    match work {
        PiWork::Reply(messages) => {
            assert_eq!(messages.len(), 1);
            assert!(matches!(&messages[0], Outbound::ToInspector { payload: InspectorPayload::GlobalState(g), .. } if g.client_id == "id"));
        }
        _ => panic!("expected a reply"),
    }
}

#[test]
fn property_inspector_rejects_bad_requests() {
    let mut st = state();
    let error = st
        .handle_property_inspector_message(&event("sendToPlugin", Some("ctx"), None), Err(Failure::msg("unknown variant `x`")))
        .err()
        .unwrap();
    assert_eq!(error.message, "invalid property inspector request");
    assert_eq!(error.detail, "invalid property inspector request: unknown variant `x`");
    let error = st
        .handle_property_inspector_message(&event("sendToPlugin", None, None), Ok(PropertyInspectorRequest::LoadGuilds))
        .err()
        .unwrap();
    assert_eq!(error.message, "missing context");
    let report = PluginState::property_inspector_error(&event("sendToPlugin", Some("ctx"), Some("a")), &error).ok().unwrap();
    assert!(matches!(report, Outbound::ToInspector { payload: InspectorPayload::Status { level: StatusLevel::Error, ref message }, .. } if message == "missing context"));
    let missing = PluginState::property_inspector_error(&event("sendToPlugin", None, None), &error).err().unwrap();
    assert_eq!(missing.message, "missing context for property inspector error");
}

#[test]
fn property_inspector_save_credentials() {
    let mut st = state();
    with_credentials(&mut st, "id", "s", "u", "tok");
    let request = PropertyInspectorRequest::SaveCredentials {
        client_id: "id".to_string(),
        client_secret: "s2".to_string(),
        redirect_uri: "u".to_string(),
    };
    let (_, _, work) = st.handle_property_inspector_message(&event("sendToPlugin", Some("ctx"), Some("a")), Ok(request)).ok().unwrap();
    match work {
        PiWork::SaveCredentials { persist, reset_rpc, then } => {
            assert!(reset_rpc);
            assert!(matches!(persist, Outbound::SetGlobalSettings(ref g) if g.access_token.is_empty() && g.client_secret == "s2"));
            assert_eq!(then.len(), 2);
            assert!(matches!(&then[0], Outbound::ToInspector { payload: InspectorPayload::Status { level: StatusLevel::Success, message }, .. } if message == "Credentials saved."));
        }
        _ => panic!("expected saved credentials"),
    }
}

#[test]
fn property_inspector_connect_and_lists() {
    let mut st = state();
    let request = PropertyInspectorRequest::ConnectDiscord { client_id: None, client_secret: None, redirect_uri: None };
    let (_, _, work) = st.handle_property_inspector_message(&event("sendToPlugin", Some("ctx"), Some("a")), Ok(request)).ok().unwrap();
    assert!(matches!(work, PiWork::ConnectDiscord { store: None, reset_rpc: false }));
    let guilds = vec![GuildSummary { id: "1".to_string(), name: "G".to_string(), icon_url: None, icon: None }];
    let replies = st.discord_connected("a", "ctx", guilds);
    assert_eq!(replies.len(), 3);
    assert!(matches!(&replies[1], Outbound::ToInspector { payload: InspectorPayload::Status { message, .. }, .. } if message == "Discord authorization succeeded."));
    let request = PropertyInspectorRequest::LoadChannels { guild_id: "g1".to_string() };
    let (_, _, work) = st.handle_property_inspector_message(&event("sendToPlugin", Some("ctx"), Some("a")), Ok(request)).ok().unwrap();
    assert!(matches!(work, PiWork::LoadChannels { ref guild_id } if guild_id == "g1"));
    let m = PluginState::channels_loaded("a", "ctx", "g1", Vec::new());
    assert!(matches!(m, Outbound::ToInspector { payload: InspectorPayload::Channels { ref guild_id, .. }, .. } if guild_id == "g1"));
    let m = PluginState::guilds_loaded("a", "ctx", Vec::new());
    assert!(matches!(m, Outbound::ToInspector { payload: InspectorPayload::Guilds(ref g), .. } if g.is_empty()));
}

#[test]
fn property_inspector_save_action_settings() {
    let mut st = state();
    st.handle_action_settings(&event("willAppear", Some("ctx"), Some("stored")), voice("c1", "Old", "")).ok().unwrap();
    st.key_down(&event("keyDown", Some("ctx"), Some("stored")), VoiceChannelSettings::default()).ok().unwrap();
    let request = PropertyInspectorRequest::SaveActionSettings {
        guild_id: "g2".to_string(),
        guild_name: "Guild 2".to_string(),
        guild_icon_url: "https://cdn.discordapp.com/icons/g2/h.webp?size=64".to_string(),
        channel_id: "c2".to_string(),
        channel_name: "New Room".to_string(),
        sound_id: "s2".to_string(),
    };
    let (context, _, work) = st.handle_property_inspector_message(&event("sendToPlugin", Some("ctx"), Some("pi")), Ok(request)).ok().unwrap();
    let stored = st.actions.get("ctx").unwrap();
    assert_eq!(stored.action_uuid, "stored");
    assert_eq!(stored.settings.channel_id, "c2");
    assert_eq!(stored.settings.sound_id, "s2");
    assert!(!stored.connected);
    match work {
        PiWork::SaveActionSettings { messages, settings, icon } => {
            assert_eq!(messages.len(), 2);
            assert!(matches!(&messages[0], Outbound::SetSettings { settings, .. } if settings.guild_id == "g2"));
            assert_eq!(
                log_text(&messages[1]),
                Some("saveActionSettings: guild_id='g2' guild_icon_url='https://cdn.discordapp.com/icons/g2/h.webp?size=64' channel_id='c2' channel_name='New Room'")
            );
            assert!(matches!(PluginState::key_title(&context, &settings), Outbound::SetTitle { ref title, .. } if title == "New\nRoom"));
            match icon {
                IconPlan::Fetch { url, download_url } => {
                    assert_eq!(url, "https://cdn.discordapp.com/icons/g2/h.webp?size=64");
                    assert_eq!(download_url, "https://cdn.discordapp.com/icons/g2/h.png?size=128");
                }
                _ => panic!("expected a download"),
            }
        }
        _ => panic!("expected saved settings"),
    }
}

#[test]
fn new_key_saved_from_inspector_has_no_action() {
    let mut st = state();
    let request = PropertyInspectorRequest::SaveActionSettings {
        guild_id: String::new(),
        guild_name: String::new(),
        guild_icon_url: String::new(),
        channel_id: "c".to_string(),
        channel_name: String::new(),
        sound_id: String::new(),
    };
    let (_, _, work) = st.handle_property_inspector_message(&event("sendToPlugin", Some("fresh"), Some("pi")), Ok(request)).ok().unwrap();
    assert_eq!(st.actions.get("fresh").unwrap().action_uuid, "");
    assert!(matches!(work, PiWork::SaveActionSettings { icon: IconPlan::NoIcon, .. }));
}

#[test]
fn icons_are_fetched_once() {
    let mut st = state();
    let settings = voice("c", "n", "https://cdn.discordapp.com/icons/1/a.gif");
    assert!(matches!(st.icon_plan(&settings), IconPlan::Fetch { .. }));
    let uri = st.icon_fetched("https://cdn.discordapp.com/icons/1/a.gif", b"abc");
    assert_eq!(uri, "data:image/png;base64,YWJj");
    assert!(matches!(st.icon_plan(&settings), IconPlan::Cached(ref u) if *u == uri));
    assert!(matches!(st.icon_plan(&voice("c", "n", "  ")), IconPlan::NoIcon));
    assert!(matches!(PluginState::show_icon("ctx", &uri), Outbound::SetImage { ref image, .. } if *image == uri));
}

#[test]
fn icon_update_outcomes_are_logged() {
    assert_eq!(log_text(&PluginState::icon_update_log("a", "c", &Ok(true)).unwrap()), Some("guild icon update applied"));
    assert_eq!(
        log_text(&PluginState::icon_update_log("a", "c", &Ok(false)).unwrap()),
        Some("guild icon update skipped: selected server has no icon URL")
    );
    assert_eq!(
        log_text(&PluginState::icon_update_log("a", "c", &Err(Failure::msg("failed to download guild icon"))).unwrap()),
        Some("guild icon update failed: failed to download guild icon")
    );
    assert!(PluginState::icon_update_log("", "c", &Ok(true)).is_none());
}

#[test]
fn icon_download_urls() {
    let cases = [
        ("https://cdn.discordapp.com/icons/1/abc.webp?size=64", "https://cdn.discordapp.com/icons/1/abc.png?size=128"),
        ("https://cdn.discordapp.com/icons/1/abc.GIF", "https://cdn.discordapp.com/icons/1/abc.png?size=128"),
        ("https://x/a.jpeg?x=1?y", "https://x/a.png?size=128"),
        ("https://x/a.jpg", "https://x/a.png?size=128"),
        ("https://x/a.png?size=16", "https://x/a.png?size=128"),
        ("https://x/noext", "https://x/noext?size=128"),
        ("", "?size=128"),
    ];
    for (input, expected) in cases {
        assert_eq!(download_url(input), expected);
        assert_eq!(PluginState::normalize_guild_icon_download_url(input), expected);
        assert_eq!(download_url(expected), expected);
    }
}

#[test]
fn base64_data_uris() {
    assert_eq!(icon_data_uri(b""), "data:image/png;base64,");
    assert_eq!(icon_data_uri(b"a"), "data:image/png;base64,YQ==");
    assert_eq!(icon_data_uri(&[0xff, 0xfe, 0xfd, 0x00]), "data:image/png;base64,//79AA==");
    assert_eq!(data_uri_from_base64("QUJD"), "data:image/png;base64,QUJD");
}

#[test]
fn action_state_defaults() {
    let a = ActionState::default();
    assert!(a.action_uuid.is_empty());
    assert!(!a.connected);
    assert!(a.settings.channel_id.is_empty());
}

const SCREENSHARE: &str = "com.example.discord-controls.screenshare";
const SOUNDBOARD: &str = "com.example.discord-controls.soundboard";
const VOICE: &str = "com.example.discord-controls.voice-channel";

#[test]
fn action_kinds_follow_the_action_uuid() {
    assert_eq!(action_kind_of(SCREENSHARE), ActionKind::Screenshare);
    assert_eq!(action_kind_of(SOUNDBOARD), ActionKind::Soundboard);
    assert_eq!(action_kind_of(VOICE), ActionKind::VoiceChannel);
    assert_eq!(action_kind_of("com.Example.ScreenShare"), ActionKind::Screenshare);
    assert_eq!(action_kind_of("x.SOUNDBOARD"), ActionKind::Soundboard);
    assert_eq!(action_kind_of(""), ActionKind::VoiceChannel);
}

#[test]
fn screenshare_key_toggles_screen_sharing() {
    let mut st = state();
    st.handle_action_settings(&event("willAppear", Some("ctx"), Some(SCREENSHARE)), VoiceChannelSettings::default()).ok().unwrap();
    let (key, messages, command) = st.key_down(&event("keyDown", Some("ctx"), Some(SCREENSHARE)), VoiceChannelSettings::default()).ok().unwrap();
    assert_eq!(key.kind, ActionKind::Screenshare);
    assert!(matches!(command, Some(RpcCommand::ToggleScreenshare)));
    let logs: Vec<&str> = messages.iter().filter_map(log_text).collect();
    assert_eq!(logs, vec!["keyDown: guild_id='' channel_id='' connected=false", "Attempting TOGGLE_SCREENSHARE"]);
    assert!(!messages.iter().any(|m| matches!(m, Outbound::ShowAlert { .. })));
    let done = PluginState::key_command_succeeded(&key).unwrap();
    assert_eq!(log_text(&done), Some("Screenshare toggle succeeded"));
    st.record_key_command(&key);
    assert!(!st.actions.get("ctx").unwrap().connected);
    let (text, _, _) = st.key_command_failed(&key, &Failure::msg("Discord RPC error 4006: no"));
    assert_eq!(text, "Screenshare toggle failed: Discord RPC error 4006: no");
}

#[test]
fn soundboard_key_plays_its_sound() {
    let mut st = state();
    st.handle_action_settings(&event("willAppear", Some("ctx"), Some(SOUNDBOARD)), sound("g7", "s7")).ok().unwrap();
    let (key, messages, command) = st.key_down(&event("keyDown", Some("ctx"), Some(SOUNDBOARD)), VoiceChannelSettings::default()).ok().unwrap();
    assert_eq!(key.kind, ActionKind::Soundboard);
    assert!(matches!(command, Some(RpcCommand::PlaySoundboardSound { ref guild_id, ref sound_id }) if guild_id == "g7" && sound_id == "s7"));
    assert_eq!(log_text(&messages[1]), Some("Attempting PLAY_SOUNDBOARD_SOUND"));
    assert_eq!(log_text(&PluginState::key_command_succeeded(&key).unwrap()), Some("Soundboard sound played"));
    st.record_key_command(&key);
    assert!(!st.actions.get("ctx").unwrap().connected);
}

#[test]
fn soundboard_key_without_sound_alerts() {
    let st = state();
    for settings in [sound("g", " "), sound("", "s"), VoiceChannelSettings::default()] {
        let (_, messages, command) = st.key_down(&event("keyDown", Some("ctx"), Some(SOUNDBOARD)), settings).ok().unwrap();
        assert!(command.is_none());
        assert_eq!(messages.len(), 3);
        assert_eq!(log_text(&messages[1]), Some("keyDown aborted: no sound selected"));
        assert!(matches!(messages[2], Outbound::ShowAlert { ref context } if context == "ctx"));
    }
}

#[test]
fn sound_lists_go_to_the_inspector() {
    let mut st = state();
    let (_, _, work) = st
        .handle_property_inspector_message(
            &event("sendToPlugin", Some("ctx"), Some(SOUNDBOARD)),
            Ok(PropertyInspectorRequest::LoadSounds { guild_id: "g".to_string() }),
        )
        .ok()
        .unwrap();
    assert!(matches!(work, PiWork::LoadSounds { ref guild_id } if guild_id == "g"));
    let sounds = vec![SoundboardSoundSummary {
        guild_id: "g".to_string(),
        guild_name: String::new(),
        sound_id: "s".to_string(),
        sound_name: "Horn".to_string(),
    }];
    match PluginState::sounds_loaded(SOUNDBOARD, "ctx", "g", sounds) {
        Outbound::ToInspector { action, context, payload: InspectorPayload::Sounds { guild_id, sounds } } => {
            assert_eq!(action, SOUNDBOARD);
            assert_eq!(context, "ctx");
            assert_eq!(guild_id, "g");
            assert_eq!(sounds[0].sound_name, "Horn");
        }
        _ => panic!("expected a sound list"),
    }
    assert_eq!(PluginState::rpc_attempts_exhausted(&RpcTask::PlaySoundboardSound).message, "failed to play Discord soundboard sound");
}
