use discord_controls::frame::{CLOSE, FRAME, HANDSHAKE, PING, PONG, decode_header, decode_message, encode_frame, encode_message, split_frame};
use discord_controls::json::Json;
use discord_controls::outbound::{InspectorPayload, Outbound, StatusLevel};
use discord_controls::models::{ChannelSummary, GlobalSettings, GuildSummary, VoiceChannelSettings};
use discord_controls::rpc::{RpcCommand, handshake, oauth_scopes_json};
use discord_controls::stream_deck::{IncomingKind, ReaderStep, StreamDeckClient, incoming_step};
use serde_json::{Number, Value};

fn value(j: &Json) -> Value {
    match j {
        Json::Null => Value::Null,
        Json::Float(text) => serde_json::from_str(text).unwrap(),
        Json::Bool(b) => Value::Bool(*b),
        Json::UInt(u) => Value::Number(Number::from(*u)),
        Json::NegInt(i) => Value::Number(Number::from(*i)),
        Json::Str(s) => Value::String(s.clone()),
        Json::Array(items) => Value::Array(items.iter().map(value).collect()),
        Json::Object(entries) => {
            let mut map = serde_json::Map::new();
            for (k, v) in entries {
                map.insert(k.clone(), value(v));
            }
            Value::Object(map)
        }
    }
}

fn parsed(text: &str) -> Value {
    serde_json::from_str(text).unwrap()
}

#[test]
fn opcodes() {
    assert_eq!((HANDSHAKE, FRAME, CLOSE, PING, PONG), (0, 1, 2, 3, 4));
}

#[test]
fn frame_layout_is_little_endian() {
    let frame = encode_frame(1, b"{}");
    assert_eq!(frame, vec![1, 0, 0, 0, 2, 0, 0, 0, b'{', b'}']);
    let frame = encode_frame(0x0403_0201, &[9; 300]);
    assert_eq!(&frame[..8], &[1, 2, 3, 4, 44, 1, 0, 0]);
    assert_eq!(frame.len(), 308);
}

#[test]
fn header_decoding() {
    assert_eq!(decode_header(&[3, 0, 0, 0, 0x10, 0x27, 0, 0]), (3, 10000));
    assert_eq!(decode_header(&[0xff, 0xff, 0xff, 0xff, 0, 0, 0, 0x80]), (u32::MAX, 0x8000_0000));
}

#[test]
fn frames_read_back_as_written() {
    let body = br#"{"cmd":"GET_GUILDS"}"#;
    let mut bytes = encode_frame(FRAME, body);
    bytes.extend_from_slice(&[7, 7, 7]);
    let (opcode, read_body, used) = split_frame(&bytes).unwrap();
    assert_eq!(opcode, FRAME);
    assert_eq!(read_body, body.to_vec());
    assert_eq!(used, 8 + body.len());
    assert_eq!(&bytes[used..], &[7, 7, 7]);
    let empty = encode_frame(PONG, &[]);
    let (opcode, read_body, used) = split_frame(&empty).unwrap();
    assert_eq!((opcode, read_body.len(), used), (PONG, 0, 8));
}

#[test]
fn incomplete_frames_are_not_read() {
    assert!(split_frame(&[1, 0, 0]).is_none());
    let frame = encode_frame(FRAME, b"abcdef");
    assert!(split_frame(&frame[..frame.len() - 1]).is_none());
}

#[test]
fn handshake_body() {
    assert_eq!(value(&handshake("123")), parsed(r#"{"v":1,"client_id":"123"}"#));
}

#[test]
fn command_requests() {
    let req = RpcCommand::GetGuilds.request("n1");
    assert_eq!(value(&req), parsed(r#"{"cmd":"GET_GUILDS","args":{},"nonce":"n1"}"#));
    let req = RpcCommand::Authorize { client_id: "app".to_string() }.request("n2");
    assert_eq!(
        value(&req),
        parsed(r#"{"cmd":"AUTHORIZE","args":{"client_id":"app","scopes":["rpc","identify","guilds","rpc.voice.write","rpc.screenshare.write"]},"nonce":"n2"}"#)
    );
    let req = RpcCommand::SelectVoiceChannel { channel_id: "c".to_string(), force: false }.request("n3");
    assert_eq!(
        value(&req),
        parsed(r#"{"cmd":"SELECT_VOICE_CHANNEL","args":{"channel_id":"c","navigate":true,"timeout":30},"nonce":"n3"}"#)
    );
    let req = RpcCommand::SelectVoiceChannel { channel_id: "c".to_string(), force: true }.request("n4");
    assert_eq!(
        value(&req),
        parsed(r#"{"cmd":"SELECT_VOICE_CHANNEL","args":{"channel_id":"c","force":true,"navigate":true,"timeout":30},"nonce":"n4"}"#)
    );
    let req = RpcCommand::LeaveVoiceChannel.request("n5");
    assert_eq!(
        value(&req),
        parsed(r#"{"cmd":"SELECT_VOICE_CHANNEL","args":{"channel_id":null,"navigate":false,"timeout":30},"nonce":"n5"}"#)
    );
    let req = RpcCommand::Authenticate { access_token: "t".to_string() }.request("n6");
    assert_eq!(value(&req), parsed(r#"{"cmd":"AUTHENTICATE","args":{"access_token":"t"},"nonce":"n6"}"#));
    let req = RpcCommand::GetChannels { guild_id: "g".to_string() }.request("n7");
    assert_eq!(value(&req), parsed(r#"{"cmd":"GET_CHANNELS","args":{"guild_id":"g"},"nonce":"n7"}"#));
    let req = RpcCommand::GetSoundboardSounds { guild_id: "g".to_string() }.request("n8");
    assert_eq!(value(&req), parsed(r#"{"cmd":"GET_SOUNDBOARD_SOUNDS","args":{"guild_id":"g"},"nonce":"n8"}"#));
    let req = RpcCommand::ToggleScreenshare.request("n9");
    assert_eq!(value(&req), parsed(r#"{"cmd":"TOGGLE_SCREENSHARE","args":{},"nonce":"n9"}"#));
    let req = RpcCommand::PlaySoundboardSound { guild_id: "g".to_string(), sound_id: "s".to_string() }.request("n10");
    assert_eq!(
        value(&req),
        parsed(r#"{"cmd":"PLAY_SOUNDBOARD_SOUND","args":{"guild_id":"g","sound_id":"s"},"nonce":"n10"}"#)
    );
    assert_eq!(value(&oauth_scopes_json()).as_array().unwrap().len(), 5);
}

#[test]
fn stream_deck_connection_and_registration() {
    let (client, url, registration) = StreamDeckClient::connect(28196, "plugin".to_string(), "registerPlugin".to_string());
    assert_eq!(client.plugin_uuid, "plugin");
    assert_eq!(url, "ws://127.0.0.1:28196");
    assert_eq!(value(&registration), parsed(r#"{"event":"registerPlugin","uuid":"plugin"}"#));
}

#[test]
fn stream_deck_events() {
    let client = StreamDeckClient { plugin_uuid: "p".to_string() };
    assert_eq!(value(&client.get_global_settings()), parsed(r#"{"event":"getGlobalSettings","context":"p"}"#));
    assert_eq!(
        value(&client.set_title("ctx", "A\nB")),
        parsed(r#"{"event":"setTitle","context":"ctx","payload":{"title":"A\nB","target":0}}"#)
    );
    assert_eq!(
        value(&client.set_image("ctx", "data:x")),
        parsed(r#"{"event":"setImage","context":"ctx","payload":{"image":"data:x","target":0,"state":0}}"#)
    );
    assert_eq!(
        value(&client.set_state("ctx", 1)),
        parsed(r#"{"event":"setState","context":"ctx","payload":{"state":1}}"#)
    );
    assert_eq!(value(&client.show_alert("ctx")), parsed(r#"{"event":"showAlert","context":"ctx"}"#));
    assert_eq!(
        value(&client.send_to_property_inspector("a", "ctx", Json::Null)),
        parsed(r#"{"event":"sendToPropertyInspector","action":"a","context":"ctx","payload":null}"#)
    );
    assert_eq!(
        value(&client.set_settings("ctx", Json::Bool(true))),
        parsed(r#"{"event":"setSettings","context":"ctx","payload":true}"#)
    );
    assert_eq!(
        value(&client.set_global_settings(Json::UInt(3))),
        parsed(r#"{"event":"setGlobalSettings","context":"p","payload":3}"#)
    );
}

#[test]
fn websocket_messages() {
    let text = br#"{"event":"keyDown","context":"c","payload":{"n":-2,"f":1.5}}"#;
    match incoming_step(&IncomingKind::Text, text) {
        ReaderStep::Message(json) => {
            assert_eq!(value(&json), parsed(std::str::from_utf8(text).unwrap()));
            assert_eq!(json.str_member("event"), Some("keyDown".to_string()));
            assert!(matches!(json.get2("payload", "f"), Some(Json::Float(f)) if f == "1.5"));
            assert!(matches!(json.get2("payload", "n"), Some(Json::NegInt(-2))));
        }
        _ => panic!("expected a message"),
    }
    assert!(matches!(incoming_step(&IncomingKind::Binary, b"[1,true,null]"), ReaderStep::Message(Json::Array(ref items)) if items.len() == 3));
    for (kind, context) in [(IncomingKind::Text, "invalid Stream Deck JSON message"), (IncomingKind::Binary, "invalid binary Stream Deck JSON message")] {
        match incoming_step(&kind, b"not json") {
            ReaderStep::Failed(f) => {
                let cause = serde_json::from_slice::<Value>(b"not json").unwrap_err().to_string();
                assert_eq!(f.message, context);
                assert_eq!(f.detail, format!("{context}: {cause}"));
            }
            _ => panic!("expected a failure"),
        }
    }
    assert!(matches!(incoming_step(&IncomingKind::Close, b""), ReaderStep::Finish));
    assert!(matches!(incoming_step(&IncomingKind::Ping, b"{}"), ReaderStep::Skip));
    assert!(matches!(incoming_step(&IncomingKind::Pong, b""), ReaderStep::Skip));
    assert!(matches!(incoming_step(&IncomingKind::Frame, b""), ReaderStep::Skip));
}

#[test]
fn json_text_is_compact_serde_json() {
    let j = Json::Object(vec![
        ("b".to_string(), Json::Array(vec![Json::UInt(1), Json::NegInt(-1), Json::Float("0.25".to_string())])),
        ("a".to_string(), Json::Str("x\"y".to_string())),
        ("c".to_string(), Json::Null),
    ]);
    assert_eq!(String::from_utf8(j.to_text()).unwrap(), r#"{"a":"x\"y","b":[1,-1,0.25],"c":null}"#);
    assert_eq!(Json::Bool(false).to_text(), b"false".to_vec());
}

#[test]
fn discord_messages_are_framed_json() {
    let request = RpcCommand::GetGuilds.request("n1");
    let frame = encode_message(FRAME, &request);
    let text = request.to_text();
    assert_eq!(frame, encode_frame(FRAME, &text));
    assert_eq!(serde_json::from_slice::<Value>(&frame[8..]).unwrap(), parsed(r#"{"cmd":"GET_GUILDS","args":{},"nonce":"n1"}"#));
    let mut bytes = frame.clone();
    bytes.extend_from_slice(b"rest");
    match decode_message(&bytes) {
        Some(Ok((opcode, json, used))) => {
            assert_eq!(opcode, FRAME);
            assert_eq!(used, frame.len());
            assert_eq!(json.str_member("nonce"), Some("n1".to_string()));
            assert_eq!(value(&json), value(&request));
        }
        _ => panic!("expected a message"),
    }
    assert!(decode_message(&frame[..frame.len() - 1]).is_none());
    match decode_message(&encode_frame(FRAME, b"{oops")) {
        Some(Err(f)) => {
            let cause = serde_json::from_slice::<Value>(b"{oops").unwrap_err().to_string();
            assert_eq!(f.message, "invalid Discord RPC JSON");
            assert_eq!(f.detail, format!("invalid Discord RPC JSON: {cause}"));
        }
        _ => panic!("expected a failure"),
    }
}

#[test]
fn outbound_messages_as_json() {
    let client = StreamDeckClient { plugin_uuid: "p".to_string() };
    let settings = GlobalSettings {
        client_id: "id".to_string(),
        client_secret: "s".to_string(),
        redirect_uri: "u".to_string(),
        access_token: "t".to_string(),
    };
    let m = Outbound::ToInspector {
        action: "a".to_string(),
        context: "c".to_string(),
        payload: InspectorPayload::GlobalState(settings),
    };
    assert_eq!(
        value(&m.to_json(&client)),
        parsed(r#"{"event":"sendToPropertyInspector","action":"a","context":"c","payload":{"type":"globalState","settings":{"clientId":"id","clientSecret":"s","redirectUri":"u","isAuthorized":true}}}"#)
    );
    let m = Outbound::ToInspector {
        action: "a".to_string(),
        context: "c".to_string(),
        payload: InspectorPayload::Status { level: StatusLevel::Error, message: "bad".to_string() },
    };
    assert_eq!(
        value(&m.to_json(&client))["payload"],
        parsed(r#"{"type":"status","level":"error","message":"bad"}"#)
    );
    let guilds = vec![GuildSummary { id: "1".to_string(), name: "G".to_string(), icon_url: None, icon: Some("h".to_string()) }];
    let m = Outbound::ToInspector { action: "a".to_string(), context: "c".to_string(), payload: InspectorPayload::Guilds(guilds) };
    assert_eq!(
        value(&m.to_json(&client))["payload"],
        parsed(r#"{"type":"guilds","guilds":[{"id":"1","name":"G","iconUrl":null,"icon":"h"}]}"#)
    );
    let channels = vec![ChannelSummary { id: "9".to_string(), name: "Voice".to_string(), kind: 2 }];
    let m = Outbound::ToInspector {
        action: "a".to_string(),
        context: "c".to_string(),
        payload: InspectorPayload::Channels { guild_id: "1".to_string(), channels },
    };
    assert_eq!(
        value(&m.to_json(&client))["payload"],
        parsed(r#"{"type":"channels","guildId":"1","channels":[{"id":"9","name":"Voice","type":2}]}"#)
    );
    let m = Outbound::SetGlobalSettings(GlobalSettings::default());
    assert_eq!(
        value(&m.to_json(&client)),
        parsed(r#"{"event":"setGlobalSettings","context":"p","payload":{"clientId":"","clientSecret":"","redirectUri":"","accessToken":""}}"#)
    );
    let voice = VoiceChannelSettings {
        guild_id: "1".to_string(),
        guild_name: "G".to_string(),
        channel_id: "2".to_string(),
        channel_name: "C".to_string(),
        guild_icon_url: "u".to_string(),
        sound_id: "s".to_string(),
    };
    let m = Outbound::SetSettings { context: "c".to_string(), settings: voice };
    assert_eq!(
        value(&m.to_json(&client)),
        parsed(r#"{"event":"setSettings","context":"c","payload":{"guildId":"1","guildName":"G","channelId":"2","channelName":"C","guildIconUrl":"u","soundId":"s"}}"#)
    );
}

#[test]
fn outbound_text_is_the_json_written() {
    let client = StreamDeckClient { plugin_uuid: "p".to_string() };
    let m = Outbound::ShowAlert { context: "ctx".to_string() };
    let text = m.to_text(&client);
    assert_eq!(serde_json::from_slice::<Value>(&text).unwrap(), parsed(r#"{"event":"showAlert","context":"ctx"}"#));
    assert_eq!(text, m.to_json(&client).to_text());
}
