//! The plugin's decisions: what each event from the host changes in its
//! state, what it sends back, and what outside work it asks for.
//!
//! The surrounding program reads the events, performs the outside work
//! (Discord RPC calls, icon downloads) and sends the messages, in the order
//! given here; a failed send ends the handling of that event.

use vstd::prelude::*;
use crate::failure::Failure;
use crate::icons::{download_url, icon_data_uri, icon_download_url, base64_standard};
use crate::json::{Json, as_str_spec, get_spec};
use crate::models::{ChannelSummary, GlobalSettings, GuildSummary, SoundboardSoundSummary, VoiceChannelSettings, button_title_spec, title_cut_on_boundary};
use crate::outbound::{InspectorPayload, Outbound, StatusLevel, is_alert_msg, is_image_msg, is_inspector_msg, is_log_msg, is_status_msg, is_title_msg};
use crate::registry::Registry;
use crate::stream_deck::StreamDeckClient;
use crate::rpc::RpcCommand;
use crate::text::{ascii_lower, ascii_lower_chars, chars_of, concat, contains_chars, contains_str, has_substring, is_blank, is_blank_str};

verus! {

/// What the plugin remembers about one key on the deck.
pub struct ActionState {
    pub action_uuid: String,
    pub settings: VoiceChannelSettings,
    pub connected: bool,
}

impl Clone for ActionState {
    fn clone(&self) -> (r: Self)
        ensures
            r == *self,
    {
        ActionState { action_uuid: self.action_uuid.clone(), settings: self.settings.clone(), connected: self.connected }
    }
}

impl Default for ActionState {
    fn default() -> (r: Self)
        ensures
            r.action_uuid@.len() == 0,
            r.settings.guild_id@.len() == 0,
            r.settings.guild_name@.len() == 0,
            r.settings.channel_id@.len() == 0,
            r.settings.channel_name@.len() == 0,
            r.settings.guild_icon_url@.len() == 0,
            !r.connected,
    {
        ActionState { action_uuid: String::new(), settings: VoiceChannelSettings::default(), connected: false }
    }
}

/// A request from a property inspector.
#[allow(inconsistent_fields)]
pub enum PropertyInspectorRequest {
    LoadState,
    SaveCredentials { client_id: String, client_secret: String, redirect_uri: String },
    ConnectDiscord { client_id: Option<String>, client_secret: Option<String>, redirect_uri: Option<String> },
    LoadGuilds,
    LoadChannels { guild_id: String },
    LoadSounds { guild_id: String },
    SaveActionSettings {
        guild_id: String,
        guild_name: String,
        guild_icon_url: String,
        channel_id: String,
        channel_name: String,
        sound_id: String,
    },
}

/// The kinds of host events the plugin handles.
pub enum PluginEvent {
    /// `willAppear` or `didReceiveSettings`.
    ActionSettings,
    /// `didReceiveGlobalSettings`.
    GlobalSettings,
    /// `keyDown`.
    KeyDown,
    /// `sendToPlugin`.
    SendToPlugin,
    /// Any other event.
    Ignored,
}

/// The kind of the event named `e`.
pub open spec fn event_kind(e: Seq<char>) -> PluginEvent {
    if e == "willAppear"@ || e == "didReceiveSettings"@ {
        PluginEvent::ActionSettings
    } else if e == "didReceiveGlobalSettings"@ {
        PluginEvent::GlobalSettings
    } else if e == "keyDown"@ {
        PluginEvent::KeyDown
    } else if e == "sendToPlugin"@ {
        PluginEvent::SendToPlugin
    } else {
        PluginEvent::Ignored
    }
}

/// Each kind of host event has its names, and only those: a key press is
/// the event `keyDown` and no other (not `keyUp`, not `willDisappear`);
/// settings are `willAppear` or `didReceiveSettings`; global settings are
/// `didReceiveGlobalSettings`; an inspector request is `sendToPlugin`; every
/// other name is ignored.
pub proof fn lemma_event_kinds(e: Seq<char>)
    ensures
        event_kind(e) is KeyDown <==> e == "keyDown"@,
        event_kind(e) is ActionSettings <==> (e == "willAppear"@ || e == "didReceiveSettings"@),
        event_kind(e) is GlobalSettings <==> e == "didReceiveGlobalSettings"@,
        event_kind(e) is SendToPlugin <==> e == "sendToPlugin"@,
        event_kind(e) is Ignored <==> !(e == "keyDown"@ || e == "willAppear"@ || e == "didReceiveSettings"@
            || e == "didReceiveGlobalSettings"@ || e == "sendToPlugin"@),
{
    reveal_strlit("keyDown");
    reveal_strlit("willAppear");
    reveal_strlit("didReceiveSettings");
    reveal_strlit("didReceiveGlobalSettings");
    reveal_strlit("sendToPlugin");
    assert("keyDown"@.len() == 7 && "willAppear"@.len() == 10 && "didReceiveSettings"@.len() == 18
        && "didReceiveGlobalSettings"@.len() == 24 && "sendToPlugin"@.len() == 12);
}

/// The text of the string member `key` of a message, if it is one.
pub open spec fn field(message: Json, key: Seq<char>) -> Option<Seq<char>> {
    as_str_spec(get_spec(message, key))
}

/// The text of an optional string, empty when absent.
pub open spec fn or_empty(o: Option<Seq<char>>) -> Seq<char> {
    match o {
        Some(s) => s,
        None => Seq::empty(),
    }
}

/// The error text of a failed RPC call calls for a new connection and one
/// more try: the socket closed, reading or writing it failed, or Discord
/// answered with error 4006 or 4009 (the text contains
/// `Discord RPC error 4006` or `Discord RPC error 4009`).
pub open spec fn retryable(message: Seq<char>) -> bool {
    ||| has_substring(message, "Discord RPC socket closed"@)
    ||| has_substring(message, "failed to read Discord IPC payload"@)
    ||| has_substring(message, "failed to write Discord IPC payload"@)
    ||| has_substring(message, "Discord RPC error 4006"@)
    ||| has_substring(message, "Discord RPC error 4009"@)
}

/// The Discord RPC calls that the plugin retries once on a new connection.
pub enum RpcTask {
    GetGuilds,
    GetChannels,
    GetSoundboardSounds,
    SelectVoiceChannel,
    LeaveVoiceChannel,
    ToggleScreenshare,
    PlaySoundboardSound,
}

/// The text of a boolean (`bool::to_string`).
pub open spec fn bool_text(b: bool) -> Seq<char> {
    if b {
        "true"@
    } else {
        "false"@
    }
}

/// What the plugin needs to connect to Discord on the user's behalf.
pub struct AuthInputs {
    pub client_id: String,
    pub client_secret: String,
    pub redirect_uri: String,
    /// The saved access token, trimmed, when one is saved.
    pub cached_access_token: Option<String>,
}

/// How to bring a key's icon up to date.
pub enum IconPlan {
    /// The settings name no icon.
    NoIcon,
    /// The icon was fetched before; this is its data URI.
    Cached(String),
    /// Download the icon from `download_url`, then record it for `url`.
    Fetch { url: String, download_url: String },
}

/// `p` is how to show the icon at `url` with the icons fetched so far in
/// `cache`: none for a blank URL; the fetched data URI when there is one;
/// else a download from the normalized URL.
pub open spec fn icon_plan_spec(cache: Map<Seq<char>, String>, url: Seq<char>, p: IconPlan) -> bool {
    if is_blank(url) {
        p is NoIcon
    } else if cache.contains_key(url) {
        p == IconPlan::Cached(cache[url])
    } else {
        p matches IconPlan::Fetch { url: u, download_url: d } && u@ == url && d@ == icon_download_url(url)
    }
}

/// The state of the plugin.
pub struct PluginState {
    pub stream_deck: StreamDeckClient,
    pub global_settings: GlobalSettings,
    /// The keys on the deck, by context.
    pub actions: Registry<ActionState>,
    /// The data URIs of the icons fetched so far, by icon URL.
    pub icon_cache: Registry<String>,
}

/// The credentials as (client ID, client secret, redirect URI, access token).
pub open spec fn credentials_view(s: GlobalSettings) -> (Seq<char>, Seq<char>, Seq<char>, Seq<char>) {
    (s.client_id@, s.client_secret@, s.redirect_uri@, s.access_token@)
}

/// Some given value differs from the current one.
pub open spec fn credentials_differ(
    v: (Seq<char>, Seq<char>, Seq<char>, Seq<char>),
    client_id: Option<Seq<char>>,
    client_secret: Option<Seq<char>>,
    redirect_uri: Option<Seq<char>>,
) -> bool {
    ||| (client_id matches Some(c) && c != v.0)
    ||| (client_secret matches Some(c) && c != v.1)
    ||| (redirect_uri matches Some(c) && c != v.2)
}

/// The credentials with each given value put in, and the token dropped when
/// something changed.
pub open spec fn merge_credentials(
    v: (Seq<char>, Seq<char>, Seq<char>, Seq<char>),
    client_id: Option<Seq<char>>,
    client_secret: Option<Seq<char>>,
    redirect_uri: Option<Seq<char>>,
) -> (Seq<char>, Seq<char>, Seq<char>, Seq<char>) {
    (
        or_else(client_id, v.0),
        or_else(client_secret, v.1),
        or_else(redirect_uri, v.2),
        if credentials_differ(v, client_id, client_secret, redirect_uri) {
            Seq::empty()
        } else {
            v.3
        },
    )
}

/// The given value, or `d`.
pub open spec fn or_else(o: Option<Seq<char>>, d: Seq<char>) -> Seq<char> {
    match o {
        Some(s) => s,
        None => d,
    }
}

/// The view of an optional string.
pub open spec fn opt_seq(o: Option<String>) -> Option<Seq<char>> {
    match o {
        Some(s) => Some(s@),
        None => None,
    }
}

/// Saving the same credentials twice changes nothing the second time.
pub proof fn lemma_credentials_idempotent(
    v: (Seq<char>, Seq<char>, Seq<char>, Seq<char>),
    client_id: Option<Seq<char>>,
    client_secret: Option<Seq<char>>,
    redirect_uri: Option<Seq<char>>,
)
    ensures
        !credentials_differ(merge_credentials(v, client_id, client_secret, redirect_uri), client_id, client_secret, redirect_uri),
        merge_credentials(merge_credentials(v, client_id, client_secret, redirect_uri), client_id, client_secret, redirect_uri)
            == merge_credentials(v, client_id, client_secret, redirect_uri),
{
}

/// Saved credentials are what the global state shows afterwards, and the
/// token is kept exactly when none of them changed.
pub proof fn lemma_saved_credentials_are_shown(
    v: (Seq<char>, Seq<char>, Seq<char>, Seq<char>),
    client_id: Seq<char>,
    client_secret: Seq<char>,
    redirect_uri: Seq<char>,
)
    ensures
        ({
            let m = merge_credentials(v, Some(client_id), Some(client_secret), Some(redirect_uri));
            &&& m.0 == client_id
            &&& m.1 == client_secret
            &&& m.2 == redirect_uri
            &&& (client_id == v.0 && client_secret == v.1 && redirect_uri == v.2 ==> m.3 == v.3)
            &&& (!(client_id == v.0 && client_secret == v.1 && redirect_uri == v.2) ==> m.3.len() == 0)
        }),
{
}

/// Credentials that change drop the saved access token, so that the next
/// connection authorizes anew.
pub proof fn lemma_changed_credentials_drop_token(
    v: (Seq<char>, Seq<char>, Seq<char>, Seq<char>),
    client_id: Option<Seq<char>>,
    client_secret: Option<Seq<char>>,
    redirect_uri: Option<Seq<char>>,
)
    requires
        credentials_differ(v, client_id, client_secret, redirect_uri),
    ensures
        merge_credentials(v, client_id, client_secret, redirect_uri).3.len() == 0,
{
}

fn opt_differs(o: &Option<String>, cur: &String) -> (b: bool)
    ensures
        b == (opt_seq(*o) matches Some(c) && c != cur@),
{
    match o {
        Some(v) => !(*v == *cur),
        None => false,
    }
}

fn opt_or(o: Option<String>, cur: &String) -> (r: String)
    ensures
        r@ == or_else(opt_seq(o), cur@),
{
    match o {
        Some(v) => v,
        None => cur.clone(),
    }
}

impl PluginState {
    /// The state at start-up: default global settings, no keys, no icons.
    pub fn new(stream_deck: StreamDeckClient) -> (s: Self)
        ensures
            s.stream_deck == stream_deck,
            credentials_view(s.global_settings) == (Seq::<char>::empty(), Seq::<char>::empty(), Seq::<char>::empty(), Seq::<char>::empty()),
            s.actions@ == Map::<Seq<char>, ActionState>::empty(),
            s.icon_cache@ == Map::<Seq<char>, String>::empty(),
    {
        let s = PluginState {
            stream_deck,
            global_settings: GlobalSettings::default(),
            actions: Registry::new(),
            icon_cache: Registry::new(),
        };
        assert(credentials_view(s.global_settings) =~= (Seq::<char>::empty(), Seq::<char>::empty(), Seq::<char>::empty(), Seq::<char>::empty()));
        s
    }

    /// The kind of a host event, from its `event` member.
    pub fn classify_event(message: &Json) -> (r: PluginEvent)
        ensures
            r == event_kind(or_empty(field(*message, "event"@))),
    {
        let event = match message.str_member("event") {
            Some(e) => e,
            None => String::new(),
        };
        let e = event.as_str();
        if crate::json::str_eq(e, "willAppear") || crate::json::str_eq(e, "didReceiveSettings") {
            PluginEvent::ActionSettings
        } else if crate::json::str_eq(e, "didReceiveGlobalSettings") {
            PluginEvent::GlobalSettings
        } else if crate::json::str_eq(e, "keyDown") {
            PluginEvent::KeyDown
        } else if crate::json::str_eq(e, "sendToPlugin") {
            PluginEvent::SendToPlugin
        } else {
            PluginEvent::Ignored
        }
    }

    /// `didReceiveGlobalSettings`: the host's copy of the global settings
    /// replaces the plugin's.
    pub fn apply_global_settings(&mut self, settings: GlobalSettings)
        ensures
            final(self).global_settings == settings,
            final(self).actions@ == old(self).actions@,
            final(self).icon_cache@ == old(self).icon_cache@,
            final(self).stream_deck == old(self).stream_deck,
    {
        self.global_settings = settings;
    }

    /// Whether a failed RPC call is worth one more try on a new connection.
    pub fn is_retryable_rpc_error(error: &Failure) -> (b: bool)
        ensures
            b == retryable(error.message@),
    {
        let m = error.message.as_str();
        contains_str(m, "Discord RPC socket closed") || contains_str(m, "failed to read Discord IPC payload")
            || contains_str(m, "failed to write Discord IPC payload") || contains_str(m, "Discord RPC error 4006")
            || contains_str(m, "Discord RPC error 4009")
    }

    /// After attempt number `attempt` (from 0) failed with `error`: drop the
    /// connection and try again. Only the first attempt is retried, and only
    /// when the failure is retryable.
    pub fn retry_rpc(attempt: u32, error: &Failure) -> (b: bool)
        ensures
            b == (attempt == 0 && retryable(error.message@)),
    {
        attempt == 0 && Self::is_retryable_rpc_error(error)
    }

    /// The number of attempts an RPC call gets.
    pub fn rpc_attempts() -> (n: u32)
        ensures
            n == 2,
    {
        2
    }

    /// The failure when no connected client is at hand for a call.
    pub fn rpc_unavailable() -> (f: Failure)
        ensures
            f.message@ == "Discord RPC client is unavailable"@,
            f.detail@ == f.message@,
    {
        Failure::msg("Discord RPC client is unavailable")
    }

    /// The failure when every attempt of `task` is used up.
    pub fn rpc_attempts_exhausted(task: &RpcTask) -> (f: Failure)
        ensures
            f.message@ == match task {
                RpcTask::GetGuilds => "failed to get Discord servers"@,
                RpcTask::GetChannels => "failed to get Discord channels"@,
                RpcTask::GetSoundboardSounds => "failed to get Discord soundboard sounds"@,
                RpcTask::SelectVoiceChannel => "failed to join Discord voice channel"@,
                RpcTask::LeaveVoiceChannel => "failed to leave Discord voice channel"@,
                RpcTask::ToggleScreenshare => "failed to toggle Discord screenshare"@,
                RpcTask::PlaySoundboardSound => "failed to play Discord soundboard sound"@,
            },
            f.detail@ == f.message@,
    {
        match task {
            RpcTask::GetGuilds => Failure::msg("failed to get Discord servers"),
            RpcTask::GetChannels => Failure::msg("failed to get Discord channels"),
            RpcTask::GetSoundboardSounds => Failure::msg("failed to get Discord soundboard sounds"),
            RpcTask::SelectVoiceChannel => Failure::msg("failed to join Discord voice channel"),
            RpcTask::LeaveVoiceChannel => Failure::msg("failed to leave Discord voice channel"),
            RpcTask::ToggleScreenshare => Failure::msg("failed to toggle Discord screenshare"),
            RpcTask::PlaySoundboardSound => Failure::msg("failed to play Discord soundboard sound"),
        }
    }

    /// What connecting to Discord needs: the client ID and secret, and the
    /// redirect URI, each holding more than white space.
    pub fn authorization_inputs(&self) -> (r: Result<AuthInputs, Failure>)
        ensures
            !self.global_settings.has_credentials_spec() ==> (r matches Err(f)
                && f.message@ == "Discord client ID and secret are required"@ && f.detail@ == f.message@),
            self.global_settings.has_credentials_spec() && is_blank(self.global_settings.redirect_uri@) ==> (r matches Err(f)
                && f.message@ == "Redirect URI is required and must match Discord Developer Portal OAuth2 redirect"@
                && f.detail@ == f.message@),
            self.global_settings.has_credentials_spec() && !is_blank(self.global_settings.redirect_uri@) ==> (r matches Ok(a)
                && a.client_id == self.global_settings.client_id
                && a.client_secret == self.global_settings.client_secret
                && a.redirect_uri == self.global_settings.redirect_uri
                && opt_seq(a.cached_access_token) == (if is_blank(self.global_settings.access_token@) {
                    None
                } else {
                    Some(crate::text::trim(self.global_settings.access_token@))
                })),
    {
        let settings = &self.global_settings;
        if !settings.has_credentials() {
            return Err(Failure::msg("Discord client ID and secret are required"));
        }
        if !settings.has_redirect_uri() {
            return Err(Failure::msg("Redirect URI is required and must match Discord Developer Portal OAuth2 redirect"));
        }
        let cached = match settings.access_token_if_present() {
            Some(t) => Some(String::from_str(t)),
            None => None,
        };
        Ok(AuthInputs {
            client_id: settings.client_id.clone(),
            client_secret: settings.client_secret.clone(),
            redirect_uri: settings.redirect_uri.clone(),
            cached_access_token: cached,
        })
    }

    /// Makes `settings` the global settings, and gives the message that
    /// stores them with the host.
    pub fn persist_global_settings(&mut self, settings: GlobalSettings) -> (m: Outbound)
        ensures
            final(self).global_settings == settings,
            m == Outbound::SetGlobalSettings(settings),
            final(self).actions@ == old(self).actions@,
            final(self).icon_cache@ == old(self).icon_cache@,
            final(self).stream_deck == old(self).stream_deck,
    {
        let copy = settings.clone();
        self.global_settings = settings;
        Outbound::SetGlobalSettings(copy)
    }

    /// Saves a new access token; nothing to send when it is the one saved.
    pub fn persist_access_token(&mut self, access_token: &str) -> (m: Option<Outbound>)
        ensures
            old(self).global_settings.access_token@ == access_token@ ==> m is None
                && final(self).global_settings == old(self).global_settings,
            old(self).global_settings.access_token@ != access_token@ ==> (m matches Some(Outbound::SetGlobalSettings(g))
                && g == final(self).global_settings
                && credentials_view(final(self).global_settings) == (
                    old(self).global_settings.client_id@,
                    old(self).global_settings.client_secret@,
                    old(self).global_settings.redirect_uri@,
                    access_token@,
                )),
            final(self).actions@ == old(self).actions@,
            final(self).icon_cache@ == old(self).icon_cache@,
            final(self).stream_deck == old(self).stream_deck,
    {
        if crate::json::str_eq(self.global_settings.access_token.as_str(), access_token) {
            return None;
        }
        let mut settings = self.global_settings.clone();
        settings.access_token = String::from_str(access_token);
        Some(self.persist_global_settings(settings))
    }

    /// `ConnectDiscord`'s credentials: the given values replace the saved
    /// ones, and a change drops the access token. Gives whether something
    /// changed and the message that stores the settings; with no value
    /// given, nothing changes and nothing is stored.
    pub fn update_credentials(&mut self, client_id: Option<String>, client_secret: Option<String>, redirect_uri: Option<String>) -> (r: (bool, Option<Outbound>))
        ensures
            client_id is None && client_secret is None && redirect_uri is None ==> !r.0 && r.1 is None
                && final(self).global_settings == old(self).global_settings,
            !(client_id is None && client_secret is None && redirect_uri is None) ==> {
                &&& r.0 == credentials_differ(credentials_view(old(self).global_settings), opt_seq(client_id), opt_seq(client_secret), opt_seq(redirect_uri))
                &&& credentials_view(final(self).global_settings) == merge_credentials(credentials_view(old(self).global_settings),
                    opt_seq(client_id), opt_seq(client_secret), opt_seq(redirect_uri))
                &&& r.1 == Some(Outbound::SetGlobalSettings(final(self).global_settings))
            },
            final(self).actions@ == old(self).actions@,
            final(self).icon_cache@ == old(self).icon_cache@,
            final(self).stream_deck == old(self).stream_deck,
    {
        if client_id.is_none() && client_secret.is_none() && redirect_uri.is_none() {
            return (false, None);
        }
        let cur = &self.global_settings;
        let changed = opt_differs(&client_id, &cur.client_id) || opt_differs(&client_secret, &cur.client_secret)
            || opt_differs(&redirect_uri, &cur.redirect_uri);
        let token = if changed {
            String::new()
        } else {
            cur.access_token.clone()
        };
        let settings = GlobalSettings {
            client_id: opt_or(client_id, &cur.client_id),
            client_secret: opt_or(client_secret, &cur.client_secret),
            redirect_uri: opt_or(redirect_uri, &cur.redirect_uri),
            access_token: token,
        };
        let m = self.persist_global_settings(settings);
        (changed, Some(m))
    }

    /// `SaveCredentials`: as [`Self::update_credentials`] with every value given.
    pub fn save_credentials(&mut self, client_id: String, client_secret: String, redirect_uri: String) -> (r: (bool, Outbound))
        ensures
            r.0 == credentials_differ(credentials_view(old(self).global_settings), Some(client_id@), Some(client_secret@), Some(redirect_uri@)),
            credentials_view(final(self).global_settings) == merge_credentials(credentials_view(old(self).global_settings),
                Some(client_id@), Some(client_secret@), Some(redirect_uri@)),
            r.1 == Outbound::SetGlobalSettings(final(self).global_settings),
            final(self).actions@ == old(self).actions@,
            final(self).icon_cache@ == old(self).icon_cache@,
            final(self).stream_deck == old(self).stream_deck,
    {
        let (changed, m) = self.update_credentials(Some(client_id), Some(client_secret), Some(redirect_uri));
        match m {
            Some(m) => (changed, m),
            None => (changed, Outbound::SetGlobalSettings(self.global_settings.clone())),
        }
    }

    /// A message to a property inspector.
    pub fn pi_payload(action_uuid: &str, context: &str, payload: InspectorPayload) -> (m: Outbound)
        ensures
            is_inspector_msg(m, action_uuid@, context@, payload),
    {
        Outbound::ToInspector { action: String::from_str(action_uuid), context: String::from_str(context), payload }
    }

    /// A log line for the property inspector; none when the action is unknown.
    pub fn pi_log(action_uuid: &str, context: &str, message: &str) -> (m: Option<Outbound>)
        ensures
            action_uuid@.len() == 0 ==> m is None,
            action_uuid@.len() > 0 ==> (m matches Some(o) && is_log_msg(o, action_uuid@, context@, message@)),
    {
        if action_uuid.is_empty() {
            None
        } else {
            Some(Self::pi_payload(action_uuid, context, InspectorPayload::Log(String::from_str(message))))
        }
    }

    /// A status line for the property inspector.
    pub fn pi_status(action_uuid: &str, context: &str, level: StatusLevel, message: &str) -> (m: Outbound)
        ensures
            is_status_msg(m, action_uuid@, context@, level, message@),
    {
        Self::pi_payload(action_uuid, context, InspectorPayload::Status { level, message: String::from_str(message) })
    }

    /// The global state that a property inspector shows.
    pub fn pi_global_state(&self, action_uuid: &str, context: &str) -> (m: Outbound)
        ensures
            is_inspector_msg(m, action_uuid@, context@, InspectorPayload::GlobalState(self.global_settings)),
    {
        Self::pi_payload(action_uuid, context, InspectorPayload::GlobalState(self.global_settings.clone()))
    }

    /// The URL a server icon is downloaded from.
    pub fn normalize_guild_icon_download_url(icon_url: &str) -> (r: String)
        ensures
            r@ == icon_download_url(icon_url@),
    {
        download_url(icon_url)
    }

    /// How to bring the icon of a key with these settings up to date.
    pub fn icon_plan(&self, settings: &VoiceChannelSettings) -> (p: IconPlan)
        ensures
            icon_plan_spec(self.icon_cache@, settings.guild_icon_url@, p),
    {
        if is_blank_str(settings.guild_icon_url.as_str()) {
            return IconPlan::NoIcon;
        }
        match self.icon_cache.get(settings.guild_icon_url.as_str()) {
            Some(uri) => IconPlan::Cached(uri.clone()),
            None => IconPlan::Fetch {
                url: settings.guild_icon_url.clone(),
                download_url: Self::normalize_guild_icon_download_url(settings.guild_icon_url.as_str()),
            },
        }
    }

    /// Records the icon downloaded for `url` and gives its data URI.
    pub fn icon_fetched(&mut self, url: &str, bytes: &[u8]) -> (uri: String)
        requires
            4 * ((bytes@.len() + 2) / 3) <= usize::MAX,
        ensures
            uri@ == "data:image/png;base64,"@ + base64_standard(bytes@),
            final(self).icon_cache@ == old(self).icon_cache@.insert(url@, uri),
            final(self).actions@ == old(self).actions@,
            final(self).global_settings == old(self).global_settings,
            final(self).stream_deck == old(self).stream_deck,
    {
        let uri = icon_data_uri(bytes);
        self.icon_cache.insert(String::from_str(url), uri.clone());
        uri
    }

    /// The message that shows an icon on the key `context`.
    pub fn show_icon(context: &str, image: &str) -> (m: Outbound)
        ensures
            is_image_msg(m, context@, image@),
    {
        Outbound::SetImage { context: String::from_str(context), image: String::from_str(image) }
    }
}

/// The three actions a key can be bound to.
#[derive(PartialEq, Eq, Structural, Debug, Clone, Copy)]
pub enum ActionKind {
    /// Join (or leave) a configured voice or stage channel.
    VoiceChannel,
    /// Toggle Discord screen sharing.
    Screenshare,
    /// Play a configured soundboard sound.
    Soundboard,
}

/// The action a key is bound to, read from its action UUID: a UUID that
/// names `screenshare` (in any letter case) is the Screenshare action, one
/// that names `soundboard` the Soundboard action, any other the Voice
/// Channel action.
pub open spec fn action_kind(action_uuid: Seq<char>) -> ActionKind {
    let lower = ascii_lower(action_uuid);
    if has_substring(lower, "screenshare"@) {
        ActionKind::Screenshare
    } else if has_substring(lower, "soundboard"@) {
        ActionKind::Soundboard
    } else {
        ActionKind::VoiceChannel
    }
}

/// The action a key with this action UUID is bound to.
pub fn action_kind_of(action_uuid: &str) -> (k: ActionKind)
    ensures
        k == action_kind(action_uuid@),
{
    let lower = ascii_lower_chars(&chars_of(action_uuid));
    if contains_chars(&lower, &chars_of("screenshare")) {
        ActionKind::Screenshare
    } else if contains_chars(&lower, &chars_of("soundboard")) {
        ActionKind::Soundboard
    } else {
        ActionKind::VoiceChannel
    }
}

/// What a key press asks for.
pub struct KeyDown {
    pub context: String,
    pub action_uuid: String,
    /// The action the key is bound to.
    pub kind: ActionKind,
    /// The key's state when it was pressed.
    pub state: ActionState,
}

/// The start of the text reported when the Discord command of a key press fails.
pub open spec fn command_failed_prefix(kind: ActionKind) -> Seq<char> {
    match kind {
        ActionKind::VoiceChannel => "Voice toggle failed: "@,
        ActionKind::Screenshare => "Screenshare toggle failed: "@,
        ActionKind::Soundboard => "Soundboard sound failed: "@,
    }
}

/// The log line written when the Discord command of a key press succeeds.
pub open spec fn command_succeeded_line(kind: ActionKind) -> Seq<char> {
    match kind {
        ActionKind::VoiceChannel => "Voice toggle succeeded"@,
        ActionKind::Screenshare => "Screenshare toggle succeeded"@,
        ActionKind::Soundboard => "Soundboard sound played"@,
    }
}

fn command_failed_prefix_str(kind: ActionKind) -> (s: &'static str)
    ensures
        s@ == command_failed_prefix(kind),
{
    match kind {
        ActionKind::VoiceChannel => "Voice toggle failed: ",
        ActionKind::Screenshare => "Screenshare toggle failed: ",
        ActionKind::Soundboard => "Soundboard sound failed: ",
    }
}

fn command_succeeded_str(kind: ActionKind) -> (s: &'static str)
    ensures
        s@ == command_succeeded_line(kind),
{
    match kind {
        ActionKind::VoiceChannel => "Voice toggle succeeded",
        ActionKind::Screenshare => "Screenshare toggle succeeded",
        ActionKind::Soundboard => "Soundboard sound played",
    }
}

/// `msgs` are the log lines `texts` for the inspector of `action` on
/// `context`, or nothing when the action is unknown.
pub open spec fn logged(msgs: Seq<Outbound>, action: Seq<char>, context: Seq<char>, texts: Seq<Seq<char>>) -> bool {
    if action.len() == 0 {
        msgs.len() == 0
    } else {
        msgs.len() == texts.len() && forall|i: int| 0 <= i < texts.len() ==> #[trigger] is_log_msg(msgs[i], action, context, texts[i])
    }
}

/// `msgs` are the log lines `line` and `reason`, then the alert sign on
/// `context`: a key press that stops for want of a setting.
pub open spec fn aborted(msgs: Seq<Outbound>, action: Seq<char>, context: Seq<char>, line: Seq<char>, reason: Seq<char>) -> bool {
    &&& msgs.len() >= 1
    &&& logged(msgs.drop_last(), action, context, seq![line, reason])
    &&& is_alert_msg(msgs.last(), context)
}

/// The log line written when a key is pressed.
pub open spec fn key_down_line(state: ActionState) -> Seq<char> {
    "keyDown: guild_id='"@ + state.settings.guild_id@ + "' channel_id='"@ + state.settings.channel_id@ + "' connected="@
        + bool_text(state.connected)
}

/// The log line written when a key's settings are saved.
pub open spec fn save_settings_line(s: VoiceChannelSettings) -> Seq<char> {
    "saveActionSettings: guild_id='"@ + s.guild_id@ + "' guild_icon_url='"@ + s.guild_icon_url@ + "' channel_id='"@
        + s.channel_id@ + "' channel_name='"@ + s.channel_name@ + "'"@
}

/// The action UUID that an error report goes to: the event's when it has a
/// non-empty one, else the one stored for the key, else none (empty).
pub open spec fn report_action(actions: Map<Seq<char>, ActionState>, context: Seq<char>, from_event: Option<Seq<char>>) -> Seq<char> {
    if from_event matches Some(a) && a.len() > 0 {
        from_event->0
    } else if actions.contains_key(context) {
        actions[context].action_uuid@
    } else {
        Seq::empty()
    }
}

/// The work a property inspector request asks for.
pub enum PiWork {
    /// Send these messages.
    Reply(Vec<Outbound>),
    /// Send `persist`; drop the Discord connection when `reset_rpc`; then send `then`.
    SaveCredentials { persist: Outbound, reset_rpc: bool, then: Vec<Outbound> },
    /// Send `store` when there is one; drop the Discord connection when
    /// `reset_rpc`; fetch the servers; then send what
    /// [`PluginState::discord_connected`] gives.
    ConnectDiscord { store: Option<Outbound>, reset_rpc: bool },
    /// Fetch the servers, then send [`PluginState::guilds_loaded`].
    LoadGuilds,
    /// Fetch the voice channels of the server, then send [`PluginState::channels_loaded`].
    LoadChannels { guild_id: String },
    /// Fetch the soundboard sounds of the server, then send [`PluginState::sounds_loaded`].
    LoadSounds { guild_id: String },
    /// Send these messages, then the title [`PluginState::key_title`] gives
    /// for `settings`, then bring the key's icon up to date as planned, then
    /// send [`PluginState::icon_update_log`] of the outcome.
    SaveActionSettings { messages: Vec<Outbound>, settings: VoiceChannelSettings, icon: IconPlan },
}

fn bool_string(b: bool) -> (s: &'static str)
    ensures
        s@ == bool_text(b),
{
    if b {
        "true"
    } else {
        "false"
    }
}

fn push_some(v: &mut Vec<Outbound>, m: Option<Outbound>)
    ensures
        final(v)@ == match m {
            Some(x) => old(v)@.push(x),
            None => old(v)@,
        },
{
    match m {
        Some(x) => v.push(x),
        None => {},
    }
}

fn context_of(message: &Json, missing: &str) -> (r: Result<String, Failure>)
    ensures
        match r {
            Ok(c) => field(*message, "context"@) == Some(c@),
            Err(f) => field(*message, "context"@) is None && f.message@ == missing@ && f.detail@ == missing@,
        },
{
    match message.str_member("context") {
        Some(c) => Ok(c),
        None => Err(Failure::msg(missing)),
    }
}

fn action_of(message: &Json) -> (a: String)
    ensures
        a@ == or_empty(field(*message, "action"@)),
{
    match message.str_member("action") {
        Some(a) => a,
        None => String::new(),
    }
}

impl PluginState {
    /// `willAppear` / `didReceiveSettings`: remembers the key's settings,
    /// not connected; gives the title to set and how to update its icon.
    pub fn handle_action_settings(&mut self, message: &Json, settings: VoiceChannelSettings) -> (r: Result<(String, Outbound, IconPlan), Failure>)
        requires
            title_cut_on_boundary(settings.channel_name@),
        ensures
            field(*message, "context"@) is None ==> (r matches Err(f) && f.message@ == "missing context"@ && f.detail@ == f.message@)
                && final(self).actions@ == old(self).actions@,
            field(*message, "context"@) matches Some(ctx) ==> {
                &&& final(self).actions@.dom() == old(self).actions@.dom().insert(ctx)
                &&& forall|k: Seq<char>| k != ctx && #[trigger] old(self).actions@.contains_key(k) ==> final(self).actions@[k] == old(self).actions@[k]
                &&& final(self).actions@[ctx].action_uuid@ == or_empty(field(*message, "action"@))
                &&& final(self).actions@[ctx].settings == settings
                &&& !final(self).actions@[ctx].connected
                &&& r is Ok
                &&& r->Ok_0.0@ == ctx
                &&& is_title_msg(r->Ok_0.1, ctx, button_title_spec(settings.channel_name@))
                &&& (is_blank(settings.guild_icon_url@) ==> r->Ok_0.2 is NoIcon)
                &&& (!is_blank(settings.guild_icon_url@) && old(self).icon_cache@.contains_key(settings.guild_icon_url@) ==> (r->Ok_0.2 matches IconPlan::Cached(u)
                    && u == old(self).icon_cache@[settings.guild_icon_url@]))
                &&& (!is_blank(settings.guild_icon_url@) && !old(self).icon_cache@.contains_key(settings.guild_icon_url@) ==> (r->Ok_0.2 matches IconPlan::Fetch { url, download_url }
                    && url@ == settings.guild_icon_url@ && download_url@ == icon_download_url(settings.guild_icon_url@)))
            },
            final(self).global_settings == old(self).global_settings,
            final(self).icon_cache@ == old(self).icon_cache@,
            final(self).stream_deck == old(self).stream_deck,
    {
        let context = context_of(message, "missing context")?;
        let action_uuid = action_of(message);
        let title = settings.button_title();
        let icon = self.icon_plan(&settings);
        let ghost old_actions = self.actions@;
        self.actions.insert(context.clone(), ActionState { action_uuid, settings, connected: false });
        assert(self.actions@.dom() =~= old_actions.dom().insert(context@));
        Ok((context.clone(), Outbound::SetTitle { context, title }, icon))
    }

    /// `keyDown`: the key's state (as stored, or from the event's settings
    /// when the key is unknown), the log lines and alert to send, and the
    /// Discord command to run, if any. What the key does follows the action
    /// it is bound to: a Voice Channel key joins its channel, or leaves it
    /// when it joined last; a Screenshare key toggles screen sharing; a
    /// Soundboard key plays its sound. A Voice Channel key without a channel,
    /// or a Soundboard key without a server or a sound, only flashes the
    /// alert sign.
    pub fn key_down(&self, message: &Json, message_settings: VoiceChannelSettings) -> (r: Result<(KeyDown, Vec<Outbound>, Option<RpcCommand>), Failure>)
        ensures
            field(*message, "context"@) is None ==> (r matches Err(f) && f.message@ == "missing context"@ && f.detail@ == f.message@),
            field(*message, "context"@) matches Some(ctx) ==> (r matches Ok((kd, msgs, command)) && {
                let action = or_empty(field(*message, "action"@));
                let line = key_down_line(kd.state);
                let settings = kd.state.settings;
                &&& kd.context@ == ctx
                &&& kd.action_uuid@ == action
                &&& kd.kind == action_kind(action)
                &&& (self.actions@.contains_key(ctx) ==> kd.state == self.actions@[ctx])
                &&& (!self.actions@.contains_key(ctx) ==> kd.state.action_uuid@ == action && kd.state.settings == message_settings
                    && !kd.state.connected)
                &&& match kd.kind {
                    ActionKind::VoiceChannel => if is_blank(settings.channel_id@) {
                        aborted(msgs@, action, ctx, line, "keyDown aborted: no channel selected"@) && command is None
                    } else {
                        &&& logged(msgs@, action, ctx, seq![line, "Attempting SELECT_VOICE_CHANNEL"@])
                        &&& if kd.state.connected {
                            command matches Some(RpcCommand::LeaveVoiceChannel)
                        } else {
                            command matches Some(RpcCommand::SelectVoiceChannel { channel_id: c, force: f })
                                && c@ == settings.channel_id@ && !f
                        }
                    },
                    ActionKind::Screenshare => logged(msgs@, action, ctx, seq![line, "Attempting TOGGLE_SCREENSHARE"@])
                        && command matches Some(RpcCommand::ToggleScreenshare),
                    ActionKind::Soundboard => if is_blank(settings.guild_id@) || is_blank(settings.sound_id@) {
                        aborted(msgs@, action, ctx, line, "keyDown aborted: no sound selected"@) && command is None
                    } else {
                        &&& logged(msgs@, action, ctx, seq![line, "Attempting PLAY_SOUNDBOARD_SOUND"@])
                        &&& command matches Some(RpcCommand::PlaySoundboardSound { guild_id: g, sound_id: sd })
                            && g@ == settings.guild_id@ && sd@ == settings.sound_id@
                    },
                }
            }),
    {
        let context = context_of(message, "missing context")?;
        let action_uuid = action_of(message);
        let kind = action_kind_of(action_uuid.as_str());
        let state = match self.actions.get(context.as_str()) {
            Some(s) => s.clone(),
            None => ActionState { action_uuid: action_uuid.clone(), settings: message_settings, connected: false },
        };
        let mut line = String::from_str("keyDown: guild_id='");
        line.append(state.settings.guild_id.as_str());
        line.append("' channel_id='");
        line.append(state.settings.channel_id.as_str());
        line.append("' connected=");
        line.append(bool_string(state.connected));
        let mut msgs: Vec<Outbound> = Vec::new();
        push_some(&mut msgs, Self::pi_log(action_uuid.as_str(), context.as_str(), line.as_str()));
        let command = match kind {
            ActionKind::VoiceChannel => {
                if is_blank_str(state.settings.channel_id.as_str()) {
                    push_some(&mut msgs, Self::pi_log(action_uuid.as_str(), context.as_str(), "keyDown aborted: no channel selected"));
                    let ghost logs = msgs@;
                    msgs.push(Outbound::ShowAlert { context: context.clone() });
                    assert(msgs@.drop_last() == logs);
                    None
                } else {
                    push_some(&mut msgs, Self::pi_log(action_uuid.as_str(), context.as_str(), "Attempting SELECT_VOICE_CHANNEL"));
                    if state.connected {
                        Some(RpcCommand::LeaveVoiceChannel)
                    } else {
                        Some(RpcCommand::SelectVoiceChannel { channel_id: state.settings.channel_id.clone(), force: false })
                    }
                }
            },
            ActionKind::Screenshare => {
                push_some(&mut msgs, Self::pi_log(action_uuid.as_str(), context.as_str(), "Attempting TOGGLE_SCREENSHARE"));
                Some(RpcCommand::ToggleScreenshare)
            },
            ActionKind::Soundboard => {
                if is_blank_str(state.settings.guild_id.as_str()) || is_blank_str(state.settings.sound_id.as_str()) {
                    push_some(&mut msgs, Self::pi_log(action_uuid.as_str(), context.as_str(), "keyDown aborted: no sound selected"));
                    let ghost logs = msgs@;
                    msgs.push(Outbound::ShowAlert { context: context.clone() });
                    assert(msgs@.drop_last() == logs);
                    None
                } else {
                    push_some(&mut msgs, Self::pi_log(action_uuid.as_str(), context.as_str(), "Attempting PLAY_SOUNDBOARD_SOUND"));
                    Some(RpcCommand::PlaySoundboardSound {
                        guild_id: state.settings.guild_id.clone(),
                        sound_id: state.settings.sound_id.clone(),
                    })
                }
            },
        };
        Ok((KeyDown { context, action_uuid, kind, state }, msgs, command))
    }

    /// Reports an error on the key `context`: the alert sign first, then,
    /// when an action UUID is known, a status line and a log line to its
    /// property inspector (whose failures are ignored).
    pub fn show_action_error(&self, context: &str, action_uuid_from_event: Option<&str>, error_message: &str) -> (r: (Outbound, Vec<Outbound>))
        ensures
            is_alert_msg(r.0, context@),
            ({
                let action = report_action(self.actions@, context@, match action_uuid_from_event {
                    Some(a) => Some(a@),
                    None => None,
                });
                if action.len() == 0 {
                    r.1@.len() == 0
                } else {
                    &&& r.1@.len() == 2
                    &&& is_status_msg(r.1@[0], action, context@, StatusLevel::Error, error_message@)
                    &&& is_log_msg(r.1@[1], action, context@, error_message@)
                }
            }),
    {
        let alert = Outbound::ShowAlert { context: String::from_str(context) };
        let from_event: Option<String> = match action_uuid_from_event {
            Some(a) => if a.is_empty() {
                None
            } else {
                Some(String::from_str(a))
            },
            None => None,
        };
        let resolved = match from_event {
            Some(a) => a,
            None => match self.actions.get(context) {
                Some(s) => s.action_uuid.clone(),
                None => String::new(),
            },
        };
        let mut rest: Vec<Outbound> = Vec::new();
        if !resolved.as_str().is_empty() {
            rest.push(Self::pi_status(resolved.as_str(), context, StatusLevel::Error, error_message));
            push_some(&mut rest, Self::pi_log(resolved.as_str(), context, error_message));
        }
        (alert, rest)
    }

    /// The Discord command of a key press failed: the text to print, and the
    /// error report on the key.
    pub fn key_command_failed(&self, key: &KeyDown, error: &Failure) -> (r: (String, Outbound, Vec<Outbound>))
        ensures
            r.0@ == command_failed_prefix(key.kind) + error.detail@,
            is_alert_msg(r.1, key.context@),
            ({
                let action = report_action(self.actions@, key.context@, Some(key.action_uuid@));
                if action.len() == 0 {
                    r.2@.len() == 0
                } else {
                    &&& r.2@.len() == 2
                    &&& is_status_msg(r.2@[0], action, key.context@, StatusLevel::Error, r.0@)
                    &&& is_log_msg(r.2@[1], action, key.context@, r.0@)
                }
            }),
    {
        let text = concat(command_failed_prefix_str(key.kind), error.detail.as_str());
        let (alert, rest) = self.show_action_error(key.context.as_str(), Some(key.action_uuid.as_str()), text.as_str());
        (text, alert, rest)
    }

    /// The Discord command of a key press succeeded: the log line.
    pub fn key_command_succeeded(key: &KeyDown) -> (m: Option<Outbound>)
        ensures
            key.action_uuid@.len() == 0 ==> m is None,
            key.action_uuid@.len() > 0 ==> (m matches Some(o) && is_log_msg(o, key.action_uuid@, key.context@, command_succeeded_line(key.kind))),
    {
        Self::pi_log(key.action_uuid.as_str(), key.context.as_str(), command_succeeded_str(key.kind))
    }

    /// Records a key press whose Discord command succeeded, and gives the
    /// title to set: a Voice Channel key that is still known now counts as
    /// joined when it was not, and as left when it was; other keys keep
    /// their state.
    pub fn record_key_command(&mut self, key: &KeyDown) -> (m: Outbound)
        requires
            title_cut_on_boundary(key.state.settings.channel_name@),
        ensures
            is_title_msg(m, key.context@, button_title_spec(key.state.settings.channel_name@)),
            key.kind == ActionKind::VoiceChannel && old(self).actions@.contains_key(key.context@) ==> final(self).actions@
                == old(self).actions@.insert(key.context@, ActionState { connected: !key.state.connected, ..old(self).actions@[key.context@] }),
            !(key.kind == ActionKind::VoiceChannel && old(self).actions@.contains_key(key.context@)) ==> final(self).actions@ == old(self).actions@,
            final(self).global_settings == old(self).global_settings,
            final(self).icon_cache@ == old(self).icon_cache@,
            final(self).stream_deck == old(self).stream_deck,
    {
        if key.kind == ActionKind::VoiceChannel {
            let stored = match self.actions.get(key.context.as_str()) {
                Some(s) => Some(s.clone()),
                None => None,
            };
            match stored {
                Some(s) => {
                    let updated = ActionState { action_uuid: s.action_uuid, settings: s.settings, connected: !key.state.connected };
                    self.actions.insert(key.context.clone(), updated);
                },
                None => {},
            }
        }
        Outbound::SetTitle { context: key.context.clone(), title: key.state.settings.button_title() }
    }
}

impl PluginState {
    /// `sendToPlugin`: handles a property inspector request, given the
    /// request read from the payload (or why it could not be read). Gives
    /// the key's context and action UUID, and the work to do.
    pub fn handle_property_inspector_message(&mut self, message: &Json, request: Result<PropertyInspectorRequest, Failure>) -> (r: Result<(String, String, PiWork), Failure>)
        ensures
            field(*message, "context"@) is None ==> (r matches Err(f) && f.message@ == "missing context"@ && f.detail@ == f.message@)
                && *final(self) == *old(self),
            field(*message, "context"@) is Some && request is Err ==> (r matches Err(f) && f.message@ == "invalid property inspector request"@
                && f.detail@ == "invalid property inspector request"@ + ": "@ + request->Err_0.detail@)
                && *final(self) == *old(self),
            field(*message, "context"@) is Some && request is Ok ==> r is Ok && ({
                let ctx = field(*message, "context"@)->0;
                let action = or_empty(field(*message, "action"@));
                let (c, a, work) = r->Ok_0;
                &&& c@ == ctx && a@ == action
                &&& final(self).stream_deck == old(self).stream_deck
                &&& final(self).icon_cache@ == old(self).icon_cache@
                &&& match request->Ok_0 {
                    PropertyInspectorRequest::LoadState => {
                        &&& work matches PiWork::Reply(msgs) && msgs@.len() == 1
                            && is_inspector_msg(msgs@[0], action, ctx, InspectorPayload::GlobalState(old(self).global_settings))
                        &&& *final(self) == *old(self)
                    },
                    PropertyInspectorRequest::SaveCredentials { client_id, client_secret, redirect_uri } => {
                        let changed = credentials_differ(credentials_view(old(self).global_settings), Some(client_id@), Some(client_secret@), Some(redirect_uri@));
                        &&& credentials_view(final(self).global_settings) == merge_credentials(credentials_view(old(self).global_settings),
                            Some(client_id@), Some(client_secret@), Some(redirect_uri@))
                        &&& final(self).actions@ == old(self).actions@
                        &&& work matches PiWork::SaveCredentials { persist, reset_rpc, then }
                            && persist == Outbound::SetGlobalSettings(final(self).global_settings)
                            && reset_rpc == changed
                            && then@.len() == 2
                            && is_status_msg(then@[0], action, ctx, StatusLevel::Success, "Credentials saved."@)
                            && is_inspector_msg(then@[1], action, ctx, InspectorPayload::GlobalState(final(self).global_settings))
                    },
                    PropertyInspectorRequest::ConnectDiscord { client_id, client_secret, redirect_uri } => {
                        &&& final(self).actions@ == old(self).actions@
                        &&& work matches PiWork::ConnectDiscord { store, reset_rpc }
                        &&& if client_id is None && client_secret is None && redirect_uri is None {
                            &&& final(self).global_settings == old(self).global_settings
                            &&& work->store is None
                            &&& !work->ConnectDiscord_reset_rpc
                        } else {
                            &&& credentials_view(final(self).global_settings) == merge_credentials(credentials_view(old(self).global_settings),
                                opt_seq(client_id), opt_seq(client_secret), opt_seq(redirect_uri))
                            &&& work->store == Some(Outbound::SetGlobalSettings(final(self).global_settings))
                            &&& work->ConnectDiscord_reset_rpc == credentials_differ(credentials_view(old(self).global_settings),
                                opt_seq(client_id), opt_seq(client_secret), opt_seq(redirect_uri))
                        }
                    },
                    PropertyInspectorRequest::LoadGuilds => work is LoadGuilds && *final(self) == *old(self),
                    PropertyInspectorRequest::LoadChannels { guild_id } => (work matches PiWork::LoadChannels { guild_id: g }
                        && g@ == guild_id@) && *final(self) == *old(self),
                    PropertyInspectorRequest::LoadSounds { guild_id } => (work matches PiWork::LoadSounds { guild_id: g }
                        && g@ == guild_id@) && *final(self) == *old(self),
                    PropertyInspectorRequest::SaveActionSettings { guild_id, guild_name, guild_icon_url, channel_id, channel_name, sound_id } => {
                        let stored = final(self).actions@[ctx];
                        &&& final(self).global_settings == old(self).global_settings
                        &&& final(self).actions@.dom() == old(self).actions@.dom().insert(ctx)
                        &&& forall|k: Seq<char>| k != ctx && #[trigger] old(self).actions@.contains_key(k) ==> final(self).actions@[k] == old(self).actions@[k]
                        &&& stored.action_uuid@ == (if old(self).actions@.contains_key(ctx) { old(self).actions@[ctx].action_uuid@ } else { Seq::empty() })
                        &&& stored.settings.guild_id == guild_id && stored.settings.guild_name == guild_name
                        &&& stored.settings.guild_icon_url == guild_icon_url && stored.settings.channel_id == channel_id
                        &&& stored.settings.channel_name == channel_name
                        &&& stored.settings.sound_id == sound_id
                        &&& !stored.connected
                        &&& work matches PiWork::SaveActionSettings { messages, settings, icon }
                        &&& work->settings == stored.settings
                        &&& work->messages@.len() >= 1
                        &&& work->messages@[0] matches Outbound::SetSettings { context: sc, settings: ss } && sc@ == ctx && ss == stored.settings
                        &&& logged(work->messages@.drop_first(), action, ctx, seq![save_settings_line(stored.settings)])
                        &&& (is_blank(guild_icon_url@) ==> work->icon is NoIcon)
                        &&& (!is_blank(guild_icon_url@) && old(self).icon_cache@.contains_key(guild_icon_url@) ==> (work->icon matches IconPlan::Cached(u)
                            && u == old(self).icon_cache@[guild_icon_url@]))
                        &&& (!is_blank(guild_icon_url@) && !old(self).icon_cache@.contains_key(guild_icon_url@) ==> (work->icon matches IconPlan::Fetch { url, download_url }
                            && url@ == guild_icon_url@ && download_url@ == icon_download_url(guild_icon_url@)))
                    },
                }
            }),
    {
        let context = context_of(message, "missing context")?;
        let action_uuid = action_of(message);
        let request = match request {
            Ok(q) => q,
            Err(cause) => {
                return Err(Failure::caused_by("invalid property inspector request", &cause));
            },
        };
        let work = match request {
            PropertyInspectorRequest::LoadState => {
                let mut msgs: Vec<Outbound> = Vec::new();
                msgs.push(self.pi_global_state(action_uuid.as_str(), context.as_str()));
                PiWork::Reply(msgs)
            },
            PropertyInspectorRequest::SaveCredentials { client_id, client_secret, redirect_uri } => {
                let (changed, persist) = self.save_credentials(client_id, client_secret, redirect_uri);
                let mut then: Vec<Outbound> = Vec::new();
                then.push(Self::pi_status(action_uuid.as_str(), context.as_str(), StatusLevel::Success, "Credentials saved."));
                then.push(self.pi_global_state(action_uuid.as_str(), context.as_str()));
                PiWork::SaveCredentials { persist, reset_rpc: changed, then }
            },
            PropertyInspectorRequest::ConnectDiscord { client_id, client_secret, redirect_uri } => {
                let (changed, store) = self.update_credentials(client_id, client_secret, redirect_uri);
                PiWork::ConnectDiscord { store, reset_rpc: changed }
            },
            PropertyInspectorRequest::LoadGuilds => PiWork::LoadGuilds,
            PropertyInspectorRequest::LoadChannels { guild_id } => PiWork::LoadChannels { guild_id },
            PropertyInspectorRequest::LoadSounds { guild_id } => PiWork::LoadSounds { guild_id },
            PropertyInspectorRequest::SaveActionSettings { guild_id, guild_name, guild_icon_url, channel_id, channel_name, sound_id } => {
                let previous = match self.actions.get(context.as_str()) {
                    Some(s) => s.action_uuid.clone(),
                    None => String::new(),
                };
                let settings = VoiceChannelSettings { guild_id, guild_name, channel_id, channel_name, guild_icon_url, sound_id };
                let ghost old_actions = self.actions@;
                self.actions.insert(context.clone(), ActionState { action_uuid: previous, settings: settings.clone(), connected: false });
                assert(self.actions@.dom() =~= old_actions.dom().insert(context@));
                let mut line = String::from_str("saveActionSettings: guild_id='");
                line.append(settings.guild_id.as_str());
                line.append("' guild_icon_url='");
                line.append(settings.guild_icon_url.as_str());
                line.append("' channel_id='");
                line.append(settings.channel_id.as_str());
                line.append("' channel_name='");
                line.append(settings.channel_name.as_str());
                line.append("'");
                let mut messages: Vec<Outbound> = Vec::new();
                messages.push(Outbound::SetSettings { context: context.clone(), settings: settings.clone() });
                let ghost first = messages@;
                push_some(&mut messages, Self::pi_log(action_uuid.as_str(), context.as_str(), line.as_str()));
                assert(messages@.drop_first() =~= messages@.subrange(1, messages@.len() as int));
                let icon = self.icon_plan(&settings);
                PiWork::SaveActionSettings { messages, settings, icon }
            },
        };
        Ok((context, action_uuid, work))
    }

    /// The message that sets the title of the key `context` for these settings.
    pub fn key_title(context: &str, settings: &VoiceChannelSettings) -> (m: Outbound)
        requires
            title_cut_on_boundary(settings.channel_name@),
        ensures
            is_title_msg(m, context@, button_title_spec(settings.channel_name@)),
    {
        Outbound::SetTitle { context: String::from_str(context), title: settings.button_title() }
    }

    /// The reply once the servers are fetched for `LoadGuilds`.
    pub fn guilds_loaded(action_uuid: &str, context: &str, guilds: Vec<GuildSummary>) -> (m: Outbound)
        ensures
            is_inspector_msg(m, action_uuid@, context@, InspectorPayload::Guilds(guilds)),
    {
        Self::pi_payload(action_uuid, context, InspectorPayload::Guilds(guilds))
    }

    /// The replies once the servers are fetched for `ConnectDiscord`: the
    /// servers, a success line, and the global state as it now stands.
    pub fn discord_connected(&self, action_uuid: &str, context: &str, guilds: Vec<GuildSummary>) -> (msgs: Vec<Outbound>)
        ensures
            msgs@.len() == 3,
            is_inspector_msg(msgs@[0], action_uuid@, context@, InspectorPayload::Guilds(guilds)),
            is_status_msg(msgs@[1], action_uuid@, context@, StatusLevel::Success, "Discord authorization succeeded."@),
            is_inspector_msg(msgs@[2], action_uuid@, context@, InspectorPayload::GlobalState(self.global_settings)),
    {
        let mut msgs: Vec<Outbound> = Vec::new();
        msgs.push(Self::guilds_loaded(action_uuid, context, guilds));
        msgs.push(Self::pi_status(action_uuid, context, StatusLevel::Success, "Discord authorization succeeded."));
        msgs.push(self.pi_global_state(action_uuid, context));
        msgs
    }

    /// The reply once the channels of `guild_id` are fetched.
    pub fn channels_loaded(action_uuid: &str, context: &str, guild_id: &str, channels: Vec<ChannelSummary>) -> (m: Outbound)
        ensures
            m matches Outbound::ToInspector { action, context: c, payload: InspectorPayload::Channels { guild_id: g, channels: cs } }
                && action@ == action_uuid@ && c@ == context@ && g@ == guild_id@ && cs == channels,
    {
        Self::pi_payload(action_uuid, context, InspectorPayload::Channels { guild_id: String::from_str(guild_id), channels })
    }

    /// The reply once the soundboard sounds of `guild_id` are fetched.
    pub fn sounds_loaded(action_uuid: &str, context: &str, guild_id: &str, sounds: Vec<SoundboardSoundSummary>) -> (m: Outbound)
        ensures
            m matches Outbound::ToInspector { action, context: c, payload: InspectorPayload::Sounds { guild_id: g, sounds: ss } }
                && action@ == action_uuid@ && c@ == context@ && g@ == guild_id@ && ss == sounds,
    {
        Self::pi_payload(action_uuid, context, InspectorPayload::Sounds { guild_id: String::from_str(guild_id), sounds })
    }

    /// The log line on the outcome of an icon update after saving settings:
    /// applied, skipped for want of an icon, or failed.
    pub fn icon_update_log(action_uuid: &str, context: &str, outcome: &Result<bool, Failure>) -> (m: Option<Outbound>)
        ensures
            action_uuid@.len() == 0 ==> m is None,
            action_uuid@.len() > 0 ==> (m matches Some(o) && is_log_msg(o, action_uuid@, context@, match outcome {
                Ok(true) => "guild icon update applied"@,
                Ok(false) => "guild icon update skipped: selected server has no icon URL"@,
                Err(e) => "guild icon update failed: "@ + e.message@,
            })),
    {
        match outcome {
            Ok(true) => Self::pi_log(action_uuid, context, "guild icon update applied"),
            Ok(false) => Self::pi_log(action_uuid, context, "guild icon update skipped: selected server has no icon URL"),
            Err(e) => {
                let text = concat("guild icon update failed: ", e.message.as_str());
                Self::pi_log(action_uuid, context, text.as_str())
            },
        }
    }

    /// The report of a failed property inspector request: a status line with
    /// the failure's message.
    pub fn property_inspector_error(message: &Json, error: &Failure) -> (r: Result<Outbound, Failure>)
        ensures
            field(*message, "context"@) is None ==> (r matches Err(f)
                && f.message@ == "missing context for property inspector error"@ && f.detail@ == f.message@),
            field(*message, "context"@) matches Some(ctx) ==> (r matches Ok(m)
                && is_status_msg(m, or_empty(field(*message, "action"@)), ctx, StatusLevel::Error, error.message@)),
    {
        let context = context_of(message, "missing context for property inspector error")?;
        let action_uuid = action_of(message);
        Ok(Self::pi_status(action_uuid.as_str(), context.as_str(), StatusLevel::Error, error.message.as_str()))
    }
}

/// An icon, once fetched, is taken from the cache for every key that shows
/// it: after [`PluginState::icon_fetched`] records the data URI `uri` for
/// `url`, [`PluginState::icon_plan`] for settings with that icon URL gives
/// `Cached(uri)`, and no new download.
pub proof fn lemma_fetched_icon_is_reused(cache: Map<Seq<char>, String>, url: Seq<char>, uri: String, p: IconPlan)
    requires
        !is_blank(url),
        icon_plan_spec(cache.insert(url, uri), url, p),
    ensures
        p == IconPlan::Cached(uri),
{
    assert(cache.insert(url, uri).contains_key(url));
}

} // verus!
