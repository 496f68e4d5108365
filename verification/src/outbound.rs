//! The messages that the plugin's logic decides to send, before they are
//! written as JSON.

use vstd::prelude::*;
use crate::json::{Json, entry, json_text, text_entry, is_obj, jkey, jval, text_at, array_items};
use crate::stream_deck::event_head;
use crate::models::{ChannelSummary, GlobalSettings, GuildSummary, SoundboardSoundSummary, VoiceChannelSettings};
use crate::stream_deck::StreamDeckClient;

verus! {

/// The level of a status line in the property inspector.
pub enum StatusLevel {
    Success,
    Error,
}

/// What the plugin sends to a property inspector.
pub enum InspectorPayload {
    /// The shared credentials, and whether a token is stored.
    GlobalState(GlobalSettings),
    Status { level: StatusLevel, message: String },
    Log(String),
    Guilds(Vec<GuildSummary>),
    Channels { guild_id: String, channels: Vec<ChannelSummary> },
    Sounds { guild_id: String, sounds: Vec<SoundboardSoundSummary> },
}

/// A message to the Stream Deck host.
pub enum Outbound {
    SetGlobalSettings(GlobalSettings),
    SetSettings { context: String, settings: VoiceChannelSettings },
    SetTitle { context: String, title: String },
    SetImage { context: String, image: String },
    ShowAlert { context: String },
    ToInspector { action: String, context: String, payload: InspectorPayload },
}

/// `m` goes to the property inspector of `action` on the key `context`,
/// carrying `payload`.
pub open spec fn is_inspector_msg(m: Outbound, action: Seq<char>, context: Seq<char>, payload: InspectorPayload) -> bool {
    m matches Outbound::ToInspector { action: a, context: c, payload: p } && a@ == action && c@ == context && p == payload
}

/// `m` goes to the property inspector of `action` on `context` and is a
/// status line of this level and text.
pub open spec fn is_status_msg(m: Outbound, action: Seq<char>, context: Seq<char>, level: StatusLevel, text: Seq<char>) -> bool {
    m matches Outbound::ToInspector { action: a, context: c, payload: InspectorPayload::Status { level: l, message } }
        && a@ == action && c@ == context && l == level && message@ == text
}

/// `m` goes to the property inspector of `action` on `context` and is a
/// log line with this text.
pub open spec fn is_log_msg(m: Outbound, action: Seq<char>, context: Seq<char>, text: Seq<char>) -> bool {
    m matches Outbound::ToInspector { action: a, context: c, payload: InspectorPayload::Log(message) }
        && a@ == action && c@ == context && message@ == text
}

/// `m` sets the title of `context` to `title`.
pub open spec fn is_title_msg(m: Outbound, context: Seq<char>, title: Seq<char>) -> bool {
    m matches Outbound::SetTitle { context: c, title: t } && c@ == context && t@ == title
}

/// `m` flashes the alert sign on `context`.
pub open spec fn is_alert_msg(m: Outbound, context: Seq<char>) -> bool {
    m matches Outbound::ShowAlert { context: c } && c@ == context
}

/// `m` sets the image of `context` to `image`.
pub open spec fn is_image_msg(m: Outbound, context: Seq<char>, image: Seq<char>) -> bool {
    m matches Outbound::SetImage { context: c, image: i } && c@ == context && i@ == image
}

impl StatusLevel {
    pub open spec fn text_spec(&self) -> Seq<char> {
        match self {
            StatusLevel::Success => "success"@,
            StatusLevel::Error => "error"@,
        }
    }

    pub fn text(&self) -> (s: &'static str)
        ensures
            s@ == self.text_spec(),
    {
        match self {
            StatusLevel::Success => "success",
            StatusLevel::Error => "error",
        }
    }
}

/// `j` is the JSON form of `p`.
pub open spec fn payload_json(p: InspectorPayload, j: Json) -> bool {
    match p {
        InspectorPayload::GlobalState(settings) => is_obj(j, 2) && text_at(j, 0, "type"@, "globalState"@)
            && jkey(j, 1) == "settings"@ && is_obj(jval(j, 1), 4)
            && text_at(jval(j, 1), 0, "clientId"@, settings.client_id@)
            && text_at(jval(j, 1), 1, "clientSecret"@, settings.client_secret@)
            && text_at(jval(j, 1), 2, "redirectUri"@, settings.redirect_uri@)
            && jkey(jval(j, 1), 3) == "isAuthorized"@ && jval(jval(j, 1), 3) == Json::Bool(settings.access_token@.len() > 0),
        InspectorPayload::Status { level, message } => is_obj(j, 3) && text_at(j, 0, "type"@, "status"@)
            && text_at(j, 1, "level"@, level.text_spec()) && text_at(j, 2, "message"@, message@),
        InspectorPayload::Log(message) => is_obj(j, 2) && text_at(j, 0, "type"@, "log"@)
            && text_at(j, 1, "message"@, message@),
        InspectorPayload::Guilds(guilds) => is_obj(j, 2) && text_at(j, 0, "type"@, "guilds"@)
            && jkey(j, 1) == "guilds"@ && jval(j, 1) is Array && array_items(jval(j, 1)).len() == guilds@.len()
            && forall|k: int| 0 <= k < guilds@.len() ==> #[trigger] guilds@[k].json_spec(array_items(jval(j, 1))[k]),
        InspectorPayload::Channels { guild_id, channels } => is_obj(j, 3) && text_at(j, 0, "type"@, "channels"@)
            && text_at(j, 1, "guildId"@, guild_id@)
            && jkey(j, 2) == "channels"@ && jval(j, 2) is Array && array_items(jval(j, 2)).len() == channels@.len()
            && forall|k: int| 0 <= k < channels@.len() ==> #[trigger] channels@[k].json_spec(array_items(jval(j, 2))[k]),
        InspectorPayload::Sounds { guild_id, sounds } => is_obj(j, 3) && text_at(j, 0, "type"@, "sounds"@)
            && text_at(j, 1, "guildId"@, guild_id@)
            && jkey(j, 2) == "sounds"@ && jval(j, 2) is Array && array_items(jval(j, 2)).len() == sounds@.len()
            && forall|k: int| 0 <= k < sounds@.len() ==> #[trigger] sounds@[k].json_spec(array_items(jval(j, 2))[k]),
    }
}

/// `j` is the JSON form of `m`, sent by `client`.
pub open spec fn outbound_json(m: Outbound, client: StreamDeckClient, j: Json) -> bool {
    match m {
        Outbound::SetGlobalSettings(settings) => event_head(j, 3, "setGlobalSettings"@, client.plugin_uuid@)
            && jkey(j, 2) == "payload"@ && settings.json_spec(jval(j, 2)),
        Outbound::SetSettings { context, settings } => event_head(j, 3, "setSettings"@, context@)
            && jkey(j, 2) == "payload"@ && settings.json_spec(jval(j, 2)),
        Outbound::SetTitle { context, title } => event_head(j, 3, "setTitle"@, context@)
            && jkey(j, 2) == "payload"@ && is_obj(jval(j, 2), 2)
            && text_at(jval(j, 2), 0, "title"@, title@)
            && jkey(jval(j, 2), 1) == "target"@ && jval(jval(j, 2), 1) == Json::UInt(0),
        Outbound::SetImage { context, image } => event_head(j, 3, "setImage"@, context@)
            && jkey(j, 2) == "payload"@ && is_obj(jval(j, 2), 3)
            && text_at(jval(j, 2), 0, "image"@, image@)
            && jkey(jval(j, 2), 1) == "target"@ && jval(jval(j, 2), 1) == Json::UInt(0)
            && jkey(jval(j, 2), 2) == "state"@ && jval(jval(j, 2), 2) == Json::UInt(0),
        Outbound::ShowAlert { context } => event_head(j, 2, "showAlert"@, context@),
        Outbound::ToInspector { action, context, payload } => is_obj(j, 4)
            && text_at(j, 0, "event"@, "sendToPropertyInspector"@)
            && text_at(j, 1, "action"@, action@) && text_at(j, 2, "context"@, context@)
            && jkey(j, 3) == "payload"@ && payload_json(payload, jval(j, 3)),
    }
}

impl InspectorPayload {
    /// The payload as the property inspector receives it.
    pub fn to_json(&self) -> (j: Json)
        ensures
            payload_json(*self, j),
    {
        let mut es: Vec<(String, Json)> = Vec::new();
        match self {
            InspectorPayload::GlobalState(settings) => {
                es.push(text_entry("type", "globalState"));
                let mut s: Vec<(String, Json)> = Vec::new();
                s.push(text_entry("clientId", settings.client_id.as_str()));
                s.push(text_entry("clientSecret", settings.client_secret.as_str()));
                s.push(text_entry("redirectUri", settings.redirect_uri.as_str()));
                s.push(entry("isAuthorized", Json::Bool(settings.is_authorized())));
                es.push(entry("settings", Json::Object(s)));
            },
            InspectorPayload::Status { level, message } => {
                es.push(text_entry("type", "status"));
                es.push(text_entry("level", level.text()));
                es.push(text_entry("message", message.as_str()));
            },
            InspectorPayload::Log(message) => {
                es.push(text_entry("type", "log"));
                es.push(text_entry("message", message.as_str()));
            },
            InspectorPayload::Guilds(guilds) => {
                es.push(text_entry("type", "guilds"));
                let mut items: Vec<Json> = Vec::new();
                let mut i: usize = 0;
                while i < guilds.len()
                    invariant
                        i <= guilds@.len(),
                        items@.len() == i,
                        forall|k: int| 0 <= k < i ==> guilds@[k].json_spec(#[trigger] items@[k]),
                    decreases guilds@.len() - i,
                {
                    items.push(guilds[i].to_json());
                    i = i + 1;
                }
                let arr = Json::Array(items);
                assert(array_items(arr) == items@);
                es.push(entry("guilds", arr));
            },
            InspectorPayload::Channels { guild_id, channels } => {
                es.push(text_entry("type", "channels"));
                es.push(text_entry("guildId", guild_id.as_str()));
                let mut items: Vec<Json> = Vec::new();
                let mut i: usize = 0;
                while i < channels.len()
                    invariant
                        i <= channels@.len(),
                        items@.len() == i,
                        forall|k: int| 0 <= k < i ==> channels@[k].json_spec(#[trigger] items@[k]),
                    decreases channels@.len() - i,
                {
                    items.push(channels[i].to_json());
                    i = i + 1;
                }
                let arr = Json::Array(items);
                assert(array_items(arr) == items@);
                es.push(entry("channels", arr));
            },
            InspectorPayload::Sounds { guild_id, sounds } => {
                es.push(text_entry("type", "sounds"));
                es.push(text_entry("guildId", guild_id.as_str()));
                let mut items: Vec<Json> = Vec::new();
                let mut i: usize = 0;
                while i < sounds.len()
                    invariant
                        i <= sounds@.len(),
                        items@.len() == i,
                        forall|k: int| 0 <= k < i ==> sounds@[k].json_spec(#[trigger] items@[k]),
                    decreases sounds@.len() - i,
                {
                    items.push(sounds[i].to_json());
                    i = i + 1;
                }
                let arr = Json::Array(items);
                assert(array_items(arr) == items@);
                es.push(entry("sounds", arr));
            },
        }
        Json::Object(es)
    }
}

impl Outbound {
    /// The JSON text sent to the host for this message.
    pub fn to_text(&self, client: &StreamDeckClient) -> (bytes: Vec<u8>)
        ensures
            exists|j: Json| outbound_json(*self, *client, j) && bytes@ == json_text(j),
    {
        let j = self.to_json(client);
        let bytes = j.to_text();
        assert(outbound_json(*self, *client, j) && bytes@ == json_text(j));
        bytes
    }

    /// The message as the host receives it.
    pub fn to_json(&self, client: &StreamDeckClient) -> (j: Json)
        ensures
            outbound_json(*self, *client, j),
    {
        match self {
            Outbound::SetGlobalSettings(settings) => client.set_global_settings(settings.to_json()),
            Outbound::SetSettings { context, settings } => client.set_settings(context.as_str(), settings.to_json()),
            Outbound::SetTitle { context, title } => client.set_title(context.as_str(), title.as_str()),
            Outbound::SetImage { context, image } => client.set_image(context.as_str(), image.as_str()),
            Outbound::ShowAlert { context } => client.show_alert(context.as_str()),
            Outbound::ToInspector { action, context, payload } => client.send_to_property_inspector(
                action.as_str(),
                context.as_str(),
                payload.to_json(),
            ),
        }
    }
}

} // verus!
