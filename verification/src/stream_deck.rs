//! The messages that the plugin sends to the Stream Deck / OpenDeck host.
//!
//! The websocket belongs to the surrounding program: it sends each message
//! built here as JSON text, and reports each message it receives.

use vstd::prelude::*;
use crate::decimal::decimal;
use crate::failure::Failure;
use crate::json::{Json, entry, json_text_value, parse_json, text_entry, is_obj, jkey, jval, text_at};

verus! {

/// The plugin's side of the connection to the host.
pub struct StreamDeckClient {
    pub plugin_uuid: String,
}

/// What the host's websocket delivered.
pub enum IncomingKind {
    Text,
    Binary,
    Close,
    Ping,
    Pong,
    Frame,
}

/// What a delivered websocket message gives.
pub enum ReaderStep {
    /// A JSON message from the host.
    Message(Json),
    /// The message is not JSON.
    Failed(Failure),
    /// The host closed the connection: no more messages.
    Finish,
    /// Read the next message.
    Skip,
}

/// The failure for a text message that is not JSON, caused by the parser's `error`.
pub open spec fn invalid_message(message: Seq<char>, error: Seq<char>, f: Failure) -> bool {
    f.message@ == message && f.detail@ == message + ": "@ + error
}

/// What a websocket message of this kind with this content (the text's
/// UTF-8 bytes, or the binary data) gives: text and binary messages carry
/// JSON, read by `serde_json`; a close ends the stream; the others are
/// skipped (`StreamDeckReader::next_json`).
pub fn incoming_step(kind: &IncomingKind, content: &[u8]) -> (r: ReaderStep)
    ensures
        kind is Text || kind is Binary ==> match json_text_value(content@) {
            Ok(j) => r == ReaderStep::Message(j),
            Err(e) => r matches ReaderStep::Failed(f) && invalid_message(if kind is Text {
                "invalid Stream Deck JSON message"@
            } else {
                "invalid binary Stream Deck JSON message"@
            }, e, f),
        },
        kind is Close ==> r is Finish,
        !(kind is Text || kind is Binary || kind is Close) ==> r is Skip,
{
    let context = match kind {
        IncomingKind::Text => "invalid Stream Deck JSON message",
        IncomingKind::Binary => "invalid binary Stream Deck JSON message",
        IncomingKind::Close => return ReaderStep::Finish,
        _ => return ReaderStep::Skip,
    };
    match parse_json(content) {
        Ok(j) => ReaderStep::Message(j),
        Err(e) => ReaderStep::Failed(Failure::caused_by(context, &Failure::new(e))),
    }
}

/// An event message `{"event": event, "context": context, ...}` whose first
/// two members are these.
pub open spec fn event_head(j: Json, n: nat, event: Seq<char>, context: Seq<char>) -> bool {
    is_obj(j, n) && text_at(j, 0, "event"@, event) && text_at(j, 1, "context"@, context)
}

fn event_message(event: &str, context: &str) -> (es: Vec<(String, Json)>)
    ensures
        es@.len() == 2,
        event_head(Json::Object(es), 2, event@, context@),
{
    let mut es: Vec<(String, Json)> = Vec::new();
    es.push(text_entry("event", event));
    es.push(text_entry("context", context));
    es
}

impl StreamDeckClient {
    /// The address of the host's websocket, the client, and the message that
    /// registers the plugin.
    pub fn connect(port: u16, plugin_uuid: String, register_event: String) -> (r: (Self, String, Json))
        ensures
            r.0.plugin_uuid@ == plugin_uuid@,
            r.1@ == "ws://127.0.0.1:"@ + decimal(port as nat),
            is_obj(r.2, 2) && text_at(r.2, 0, "event"@, register_event@) && text_at(r.2, 1, "uuid"@, plugin_uuid@),
    {
        let mut url = String::from_str("ws://127.0.0.1:");
        crate::decimal::push_decimal(&mut url, port as u64);
        let mut es: Vec<(String, Json)> = Vec::new();
        es.push(text_entry("event", register_event.as_str()));
        es.push(text_entry("uuid", plugin_uuid.as_str()));
        (StreamDeckClient { plugin_uuid }, url, Json::Object(es))
    }

    /// Asks the host for the plugin's global settings.
    pub fn get_global_settings(&self) -> (m: Json)
        ensures
            event_head(m, 2, "getGlobalSettings"@, self.plugin_uuid@),
    {
        Json::Object(event_message("getGlobalSettings", self.plugin_uuid.as_str()))
    }

    /// Stores the plugin's global settings.
    pub fn set_global_settings(&self, payload: Json) -> (m: Json)
        ensures
            event_head(m, 3, "setGlobalSettings"@, self.plugin_uuid@),
            jkey(m, 2) == "payload"@ && jval(m, 2) == payload,
    {
        let mut es = event_message("setGlobalSettings", self.plugin_uuid.as_str());
        es.push(entry("payload", payload));
        Json::Object(es)
    }

    /// Stores the settings of the key `context`.
    pub fn set_settings(&self, context: &str, payload: Json) -> (m: Json)
        ensures
            event_head(m, 3, "setSettings"@, context@),
            jkey(m, 2) == "payload"@ && jval(m, 2) == payload,
    {
        let mut es = event_message("setSettings", context);
        es.push(entry("payload", payload));
        Json::Object(es)
    }

    /// Sets the title of the key `context`.
    pub fn set_title(&self, context: &str, title: &str) -> (m: Json)
        ensures
            event_head(m, 3, "setTitle"@, context@),
            jkey(m, 2) == "payload"@ && is_obj(jval(m, 2), 2)
                && text_at(jval(m, 2), 0, "title"@, title@)
                && jkey(jval(m, 2), 1) == "target"@ && jval(jval(m, 2), 1) == Json::UInt(0),
    {
        let mut p: Vec<(String, Json)> = Vec::new();
        p.push(text_entry("title", title));
        p.push(entry("target", Json::UInt(0)));
        let mut es = event_message("setTitle", context);
        es.push(entry("payload", Json::Object(p)));
        Json::Object(es)
    }

    /// Sets the image of the key `context`.
    pub fn set_image(&self, context: &str, image: &str) -> (m: Json)
        ensures
            event_head(m, 3, "setImage"@, context@),
            jkey(m, 2) == "payload"@ && is_obj(jval(m, 2), 3)
                && text_at(jval(m, 2), 0, "image"@, image@)
                && jkey(jval(m, 2), 1) == "target"@ && jval(jval(m, 2), 1) == Json::UInt(0)
                && jkey(jval(m, 2), 2) == "state"@ && jval(jval(m, 2), 2) == Json::UInt(0),
    {
        let mut p: Vec<(String, Json)> = Vec::new();
        p.push(text_entry("image", image));
        p.push(entry("target", Json::UInt(0)));
        p.push(entry("state", Json::UInt(0)));
        let mut es = event_message("setImage", context);
        es.push(entry("payload", Json::Object(p)));
        Json::Object(es)
    }

    /// Sets the state of the key `context`.
    pub fn set_state(&self, context: &str, state: u8) -> (m: Json)
        ensures
            event_head(m, 3, "setState"@, context@),
            jkey(m, 2) == "payload"@ && is_obj(jval(m, 2), 1)
                && jkey(jval(m, 2), 0) == "state"@ && jval(jval(m, 2), 0) == Json::UInt(state as u64),
    {
        let mut p: Vec<(String, Json)> = Vec::new();
        p.push(entry("state", Json::UInt(state as u64)));
        let mut es = event_message("setState", context);
        es.push(entry("payload", Json::Object(p)));
        Json::Object(es)
    }

    /// Flashes the alert sign on the key `context`.
    pub fn show_alert(&self, context: &str) -> (m: Json)
        ensures
            event_head(m, 2, "showAlert"@, context@),
    {
        Json::Object(event_message("showAlert", context))
    }

    /// Sends `payload` to the property inspector of the key `context`.
    pub fn send_to_property_inspector(&self, action_uuid: &str, context: &str, payload: Json) -> (m: Json)
        ensures
            is_obj(m, 4) && text_at(m, 0, "event"@, "sendToPropertyInspector"@)
                && text_at(m, 1, "action"@, action_uuid@) && text_at(m, 2, "context"@, context@)
                && jkey(m, 3) == "payload"@ && jval(m, 3) == payload,
    {
        let mut es: Vec<(String, Json)> = Vec::new();
        es.push(text_entry("event", "sendToPropertyInspector"));
        es.push(text_entry("action", action_uuid));
        es.push(text_entry("context", context));
        es.push(entry("payload", payload));
        Json::Object(es)
    }
}

} // verus!
