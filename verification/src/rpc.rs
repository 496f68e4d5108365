//! The Discord RPC client: its commands, the requests it writes, the replies
//! it reads, and the state it keeps between them.
//!
//! The socket itself belongs to the surrounding program, which writes the
//! frames this module builds and hands it every frame it reads.

use vstd::prelude::*;
use crate::decimal::signed_decimal;
use crate::failure::Failure;
use crate::frame::{CLOSE, FRAME, PING};
use crate::json::{Json, as_i64_spec, as_str_spec, get_spec, get2_spec, entry, text_entry, is_obj, jkey, jval, is_text, text_at, str_eq};
use crate::registry::Registry;
use crate::models::{ChannelSummary, GuildSummary, SoundboardSoundSummary, clone_opt, is_voice_kind, normalized_icon_url_spec, opt_view};
use crate::json::{value_text, value_to_string};
use crate::text::{is_blank, is_blank_str};
use crate::text::concat;

verus! {

/// A lower-case hexadecimal digit.
pub open spec fn is_lower_hex(c: char) -> bool {
    ('0' <= c <= '9') || ('a' <= c <= 'f')
}

/// The hyphenated lower-case text of a version-4 UUID: 36 characters, `-`
/// at indices 8, 13, 18 and 23, the version digit `4` at index 14, and
/// hexadecimal digits elsewhere.
pub open spec fn is_v4_uuid_text(s: Seq<char>) -> bool {
    &&& s.len() == 36
    &&& s[8] == '-' && s[13] == '-' && s[18] == '-' && s[23] == '-'
    &&& s[14] == '4'
    &&& forall|i: int| 0 <= i < 36 && i != 8 && i != 13 && i != 18 && i != 23 ==> is_lower_hex(#[trigger] s[i])
}

/// `uuid::Uuid::new_v4().to_string()`: a random version-4 UUID in its
/// hyphenated lower-case form. The form is stated; the value is random.
#[verifier::external_body]
fn new_nonce() -> (s: String)
    ensures
        is_v4_uuid_text(s@),
{
    uuid::Uuid::new_v4().to_string()
}

/// The OAuth scopes that the plugin asks Discord for.
pub open spec fn oauth_scopes_spec() -> Seq<Seq<char>> {
    seq!["rpc"@, "identify"@, "guilds"@, "rpc.voice.write"@, "rpc.screenshare.write"@]
}

/// `j` is an array of the strings `ss`.
pub open spec fn is_text_array(j: Json, ss: Seq<Seq<char>>) -> bool {
    j is Array && crate::json::array_items(j).len() == ss.len() && forall|i: int|
        0 <= i < ss.len() ==> #[trigger] is_text(crate::json::array_items(j)[i], ss[i])
}

/// The scopes, as a JSON array of strings.
pub fn oauth_scopes_json() -> (j: Json)
    ensures
        is_text_array(j, oauth_scopes_spec()),
{
    let mut items: Vec<Json> = Vec::new();
    items.push(Json::string("rpc"));
    items.push(Json::string("identify"));
    items.push(Json::string("guilds"));
    items.push(Json::string("rpc.voice.write"));
    items.push(Json::string("rpc.screenshare.write"));
    let j = Json::Array(items);
    assert(crate::json::array_items(j) == items@);
    j
}

/// A command that the plugin sends to the Discord client.
pub enum RpcCommand {
    Authorize { client_id: String },
    Authenticate { access_token: String },
    GetGuilds,
    GetChannels { guild_id: String },
    GetSoundboardSounds { guild_id: String },
    /// Join a voice channel; `force` moves the user out of another call.
    SelectVoiceChannel { channel_id: String, force: bool },
    /// Leave the current voice channel.
    LeaveVoiceChannel,
    ToggleScreenshare,
    PlaySoundboardSound { guild_id: String, sound_id: String },
}

impl RpcCommand {
    /// The command's name on the wire.
    pub open spec fn name_spec(&self) -> Seq<char> {
        match self {
            RpcCommand::Authorize { .. } => "AUTHORIZE"@,
            RpcCommand::Authenticate { .. } => "AUTHENTICATE"@,
            RpcCommand::GetGuilds => "GET_GUILDS"@,
            RpcCommand::GetChannels { .. } => "GET_CHANNELS"@,
            RpcCommand::GetSoundboardSounds { .. } => "GET_SOUNDBOARD_SOUNDS"@,
            RpcCommand::SelectVoiceChannel { .. } => "SELECT_VOICE_CHANNEL"@,
            RpcCommand::LeaveVoiceChannel => "SELECT_VOICE_CHANNEL"@,
            RpcCommand::ToggleScreenshare => "TOGGLE_SCREENSHARE"@,
            RpcCommand::PlaySoundboardSound { .. } => "PLAY_SOUNDBOARD_SOUND"@,
        }
    }

    pub fn name(&self) -> (s: &'static str)
        ensures
            s@ == self.name_spec(),
    {
        match self {
            RpcCommand::Authorize { .. } => "AUTHORIZE",
            RpcCommand::Authenticate { .. } => "AUTHENTICATE",
            RpcCommand::GetGuilds => "GET_GUILDS",
            RpcCommand::GetChannels { .. } => "GET_CHANNELS",
            RpcCommand::GetSoundboardSounds { .. } => "GET_SOUNDBOARD_SOUNDS",
            RpcCommand::SelectVoiceChannel { .. } => "SELECT_VOICE_CHANNEL",
            RpcCommand::LeaveVoiceChannel => "SELECT_VOICE_CHANNEL",
            RpcCommand::ToggleScreenshare => "TOGGLE_SCREENSHARE",
            RpcCommand::PlaySoundboardSound { .. } => "PLAY_SOUNDBOARD_SOUND",
        }
    }

    /// The arguments that go with the command.
    pub open spec fn args_spec(&self, j: Json) -> bool {
        match self {
            RpcCommand::Authorize { client_id } => is_obj(j, 2) && text_at(j, 0, "client_id"@, client_id@)
                && jkey(j, 1) == "scopes"@ && is_text_array(jval(j, 1), oauth_scopes_spec()),
            RpcCommand::Authenticate { access_token } => is_obj(j, 1) && text_at(j, 0, "access_token"@, access_token@),
            RpcCommand::GetGuilds => is_obj(j, 0),
            RpcCommand::GetChannels { guild_id } => is_obj(j, 1) && text_at(j, 0, "guild_id"@, guild_id@),
            RpcCommand::GetSoundboardSounds { guild_id } => is_obj(j, 1) && text_at(j, 0, "guild_id"@, guild_id@),
            RpcCommand::SelectVoiceChannel { channel_id, force } => if *force {
                is_obj(j, 4) && text_at(j, 0, "channel_id"@, channel_id@)
                    && jkey(j, 1) == "force"@ && jval(j, 1) == Json::Bool(true)
                    && jkey(j, 2) == "navigate"@ && jval(j, 2) == Json::Bool(true)
                    && jkey(j, 3) == "timeout"@ && jval(j, 3) == Json::UInt(30)
            } else {
                is_obj(j, 3) && text_at(j, 0, "channel_id"@, channel_id@)
                    && jkey(j, 1) == "navigate"@ && jval(j, 1) == Json::Bool(true)
                    && jkey(j, 2) == "timeout"@ && jval(j, 2) == Json::UInt(30)
            },
            RpcCommand::LeaveVoiceChannel => is_obj(j, 3)
                && jkey(j, 0) == "channel_id"@ && jval(j, 0) == Json::Null
                && jkey(j, 1) == "navigate"@ && jval(j, 1) == Json::Bool(false)
                && jkey(j, 2) == "timeout"@ && jval(j, 2) == Json::UInt(30),
            RpcCommand::ToggleScreenshare => is_obj(j, 0),
            RpcCommand::PlaySoundboardSound { guild_id, sound_id } => is_obj(j, 2)
                && text_at(j, 0, "guild_id"@, guild_id@) && text_at(j, 1, "sound_id"@, sound_id@),
        }
    }

    pub fn args(&self) -> (j: Json)
        ensures
            self.args_spec(j),
    {
        let mut es: Vec<(String, Json)> = Vec::new();
        match self {
            RpcCommand::Authorize { client_id } => {
                es.push(text_entry("client_id", client_id.as_str()));
                es.push(entry("scopes", oauth_scopes_json()));
            },
            RpcCommand::Authenticate { access_token } => {
                es.push(text_entry("access_token", access_token.as_str()));
            },
            RpcCommand::GetGuilds => {},
            RpcCommand::GetChannels { guild_id } => {
                es.push(text_entry("guild_id", guild_id.as_str()));
            },
            RpcCommand::GetSoundboardSounds { guild_id } => {
                es.push(text_entry("guild_id", guild_id.as_str()));
            },
            RpcCommand::SelectVoiceChannel { channel_id, force } => {
                es.push(text_entry("channel_id", channel_id.as_str()));
                if *force {
                    es.push(entry("force", Json::Bool(true)));
                }
                es.push(entry("navigate", Json::Bool(true)));
                es.push(entry("timeout", Json::UInt(30)));
            },
            RpcCommand::LeaveVoiceChannel => {
                es.push(entry("channel_id", Json::Null));
                es.push(entry("navigate", Json::Bool(false)));
                es.push(entry("timeout", Json::UInt(30)));
            },
            RpcCommand::ToggleScreenshare => {},
            RpcCommand::PlaySoundboardSound { guild_id, sound_id } => {
                es.push(text_entry("guild_id", guild_id.as_str()));
                es.push(text_entry("sound_id", sound_id.as_str()));
            },
        }
        Json::Object(es)
    }

    /// The request body for this command under `nonce`.
    pub open spec fn request_spec(&self, nonce: Seq<char>, j: Json) -> bool {
        is_obj(j, 3) && text_at(j, 0, "cmd"@, self.name_spec())
            && jkey(j, 1) == "args"@ && self.args_spec(jval(j, 1))
            && text_at(j, 2, "nonce"@, nonce)
    }

    pub fn request(&self, nonce: &str) -> (j: Json)
        ensures
            self.request_spec(nonce@, j),
    {
        let mut es: Vec<(String, Json)> = Vec::new();
        es.push(text_entry("cmd", self.name()));
        es.push(entry("args", self.args()));
        es.push(text_entry("nonce", nonce));
        Json::Object(es)
    }
}

/// The handshake that opens a connection for the application `client_id`.
pub open spec fn handshake_spec(client_id: Seq<char>, j: Json) -> bool {
    is_obj(j, 2) && jkey(j, 0) == "v"@ && jval(j, 0) == Json::UInt(1) && text_at(j, 1, "client_id"@, client_id)
}

pub fn handshake(client_id: &str) -> (j: Json)
    ensures
        handshake_spec(client_id@, j),
{
    let mut es: Vec<(String, Json)> = Vec::new();
    es.push(entry("v", Json::UInt(1)));
    es.push(text_entry("client_id", client_id));
    Json::Object(es)
}

/// An empty object, the body of `PONG` and `CLOSE` frames.
pub fn empty_object() -> (j: Json)
    ensures
        is_obj(j, 0),
{
    Json::Object(Vec::new())
}

/// What to do with a frame read while waiting for `READY`.
pub enum HandshakeStep {
    /// The client is ready.
    Ready,
    /// Answer with a `PONG` frame, then keep reading.
    Pong,
    /// The client closed the socket.
    Closed(Failure),
    /// Keep reading.
    Wait,
}

/// `payload.evt` is the string `s`.
pub open spec fn evt_is(payload: Json, s: Seq<char>) -> bool {
    as_str_spec(get_spec(payload, "evt"@)) == Some(s)
}

/// Decides what a frame read during the handshake means.
pub fn handshake_step(opcode: u32, payload: &Json) -> (r: HandshakeStep)
    ensures
        opcode == FRAME && evt_is(*payload, "READY"@) ==> r is Ready,
        opcode == FRAME && !evt_is(*payload, "READY"@) ==> r is Wait,
        opcode == PING ==> r is Pong,
        opcode == CLOSE ==> (r matches HandshakeStep::Closed(f)
            && f.message@ == "Discord RPC socket closed during handshake"@
            && f.detail@ == f.message@),
        opcode != FRAME && opcode != PING && opcode != CLOSE ==> r is Wait,
{
    if opcode == FRAME {
        match payload.get("evt") {
            Some(Json::Str(e)) => {
                if str_eq(e.as_str(), "READY") {
                    HandshakeStep::Ready
                } else {
                    HandshakeStep::Wait
                }
            },
            _ => HandshakeStep::Wait,
        }
    } else if opcode == PING {
        HandshakeStep::Pong
    } else if opcode == CLOSE {
        HandshakeStep::Closed(Failure::msg("Discord RPC socket closed during handshake"))
    } else {
        HandshakeStep::Wait
    }
}

/// What to do with a frame read while waiting for the reply to a command.
pub enum ReplyStep {
    /// This frame is the reply.
    Reply,
    /// The reply reports an error.
    Failed(Failure),
    /// Answer with a `PONG` frame, then keep reading.
    Pong,
    /// The client closed the socket.
    Closed(Failure),
    /// Not the reply; keep reading.
    Skip,
}

/// The code of a Discord error reply, at `data.code`; 0 when there is none.
pub open spec fn rpc_error_code(payload: Json) -> int {
    match as_i64_spec(get2_spec(payload, "data"@, "code"@)) {
        Some(c) => c,
        None => 0,
    }
}

/// The text of a Discord error reply, at `data.message`.
pub open spec fn rpc_error_message(payload: Json) -> Seq<char> {
    match as_str_spec(get2_spec(payload, "data"@, "message"@)) {
        Some(m) => m,
        None => "Discord RPC error"@,
    }
}

/// The message of a Discord error reply.
pub open spec fn rpc_error_text(payload: Json) -> Seq<char> {
    "Discord RPC error "@ + signed_decimal(rpc_error_code(payload)) + ": "@ + rpc_error_message(payload)
}

/// `payload.cmd` or `payload.evt` is `"ERROR"`.
pub open spec fn is_error_reply(payload: Json) -> bool {
    as_str_spec(get_spec(payload, "cmd"@)) == Some("ERROR"@) || evt_is(payload, "ERROR"@)
}

/// Decides what a frame read while waiting for the reply to `command`,
/// sent under `nonce`, means.
pub fn reply_step(nonce: &str, command: &str, opcode: u32, payload: &Json) -> (r: ReplyStep)
    ensures
        opcode == FRAME && as_str_spec(get_spec(*payload, "nonce"@)) != Some(nonce@) ==> r is Skip,
        opcode == FRAME && as_str_spec(get_spec(*payload, "nonce"@)) == Some(nonce@) ==> if is_error_reply(*payload) {
            (r matches ReplyStep::Failed(f) && f.message@ == rpc_error_text(*payload) && f.detail@ == f.message@)
        } else {
            r is Reply
        },
        opcode == FRAME && as_str_spec(get_spec(*payload, "nonce"@)) == Some(nonce@)
            && as_str_spec(get_spec(*payload, "cmd"@)) != Some("ERROR"@)
            && as_str_spec(get_spec(*payload, "evt"@)) != Some("ERROR"@) ==> r is Reply,
        r is Failed ==> opcode == FRAME && (as_str_spec(get_spec(*payload, "cmd"@)) == Some("ERROR"@)
            || as_str_spec(get_spec(*payload, "evt"@)) == Some("ERROR"@)),
        opcode == PING ==> r is Pong,
        opcode == CLOSE ==> (r matches ReplyStep::Closed(f)
            && f.message@ == "Discord RPC socket closed while waiting for "@ + command@
            && f.detail@ == f.message@),
        opcode != FRAME && opcode != PING && opcode != CLOSE ==> r is Skip,
{
    if opcode == FRAME {
        let same = match payload.get("nonce") {
            Some(Json::Str(n)) => str_eq(n.as_str(), nonce),
            _ => false,
        };
        if !same {
            return ReplyStep::Skip;
        }
        let cmd_error = match payload.get("cmd") {
            Some(Json::Str(c)) => str_eq(c.as_str(), "ERROR"),
            _ => false,
        };
        let evt_error = match payload.get("evt") {
            Some(Json::Str(e)) => str_eq(e.as_str(), "ERROR"),
            _ => false,
        };
        if cmd_error || evt_error {
            let message: String = match payload.get2("data", "message") {
                Some(Json::Str(m)) => m.clone(),
                _ => String::from_str("Discord RPC error"),
            };
            let code: i64 = match payload.get2("data", "code") {
                Some(c) => match c.as_i64() {
                    Some(v) => v,
                    None => 0,
                },
                None => 0,
            };
            let mut text = String::from_str("Discord RPC error ");
            let digits = crate::decimal::i64_to_decimal(code);
            text.append(digits.as_str());
            text.append(": ");
            text.append(message.as_str());
            return ReplyStep::Failed(Failure::new(text));
        }
        ReplyStep::Reply
    } else if opcode == PING {
        ReplyStep::Pong
    } else if opcode == CLOSE {
        ReplyStep::Closed(Failure::new(concat("Discord RPC socket closed while waiting for ", command)))
    } else {
        ReplyStep::Skip
    }
}

/// A frame that answers a command is a failure exactly when it is marked as
/// one, by the string `"ERROR"` in its `cmd` or in its `evt`; the rest of
/// it (its `data`, a `data.code` among it) has no say. So two answers with
/// the same `cmd` and `evt` are both failures or both replies.
pub proof fn lemma_error_reply_only_when_marked(p: Json, q: Json)
    ensures
        is_error_reply(p) <==> (as_str_spec(get_spec(p, "cmd"@)) == Some("ERROR"@)
            || as_str_spec(get_spec(p, "evt"@)) == Some("ERROR"@)),
        get_spec(p, "cmd"@) == get_spec(q, "cmd"@) && get_spec(p, "evt"@) == get_spec(q, "evt"@)
            ==> is_error_reply(p) == is_error_reply(q),
{
}

/// The failure when no reply comes in time.
pub fn timeout_failure(command: &str) -> (f: Failure)
    ensures
        f.message@ == "Discord RPC request timed out for command "@ + command@,
        f.detail@ == f.message@,
{
    Failure::new(concat("Discord RPC request timed out for command ", command))
}


/// The state the client keeps about its connection to the Discord client.
pub struct DiscordRpcClient {
    pub connected: bool,
    pub authenticated: bool,
    pub client_id: String,
    pub access_token: Option<String>,
    pub granted_scopes: Vec<String>,
    /// The commands sent and not yet answered, by nonce: empty between
    /// commands, since [`Self::begin_command`] starts from an idle client and
    /// [`Self::finish_command`] removes what it added.
    pub pending_requests: Registry<String>,
}

impl DiscordRpcClient {
    /// The commands sent and not yet answered, by nonce.
    pub open spec fn pending(&self) -> Map<Seq<char>, String> {
        self.pending_requests@
    }

    /// No command is awaiting its reply.
    pub open spec fn is_idle(&self) -> bool {
        self.pending() == Map::<Seq<char>, String>::empty()
    }

    /// Whether no command is awaiting its reply.
    pub fn idle(&self) -> (b: bool)
        ensures
            b == self.is_idle(),
    {
        self.pending_requests.is_empty()
    }

    /// The state once the Discord client has answered the handshake with `READY`.
    pub fn ready(client_id: &str) -> (c: Self)
        ensures
            c.connected,
            !c.authenticated,
            c.client_id@ == client_id@,
            c.access_token is None,
            c.granted_scopes@.len() == 0,
            c.is_idle(),
    {
        DiscordRpcClient {
            connected: true,
            authenticated: false,
            client_id: String::from_str(client_id),
            access_token: None,
            granted_scopes: Vec::new(),
            pending_requests: Registry::new(),
        }
    }

    /// Records `command` as sent under a fresh nonce, and gives that nonce and
    /// the request body to write. One command is sent at a time: the client
    /// is idle before, and the command is the only one pending after.
    pub fn begin_command(&mut self, command: &RpcCommand) -> (r: (String, Json))
        requires
            old(self).is_idle(),
        ensures
            is_v4_uuid_text(r.0@),
            command.request_spec(r.0@, r.1),
            !old(self).pending().contains_key(r.0@),
            final(self).pending().contains_key(r.0@),
            final(self).pending()[r.0@]@ == command.name_spec(),
            final(self).pending() == old(self).pending().insert(r.0@, final(self).pending()[r.0@]),
            final(self).connected == old(self).connected,
            final(self).authenticated == old(self).authenticated,
            final(self).client_id == old(self).client_id,
            final(self).access_token == old(self).access_token,
            final(self).granted_scopes == old(self).granted_scopes,
    {
        let nonce = new_nonce();
        let request = command.request(nonce.as_str());
        self.pending_requests.insert(nonce.clone(), String::from_str(command.name()));
        (nonce, request)
    }

    /// Forgets the command sent under `nonce`, answered or not.
    pub fn finish_command(&mut self, nonce: &str)
        ensures
            final(self).pending() == old(self).pending().remove(nonce@),
            final(self).connected == old(self).connected,
            final(self).authenticated == old(self).authenticated,
            final(self).client_id == old(self).client_id,
            final(self).access_token == old(self).access_token,
            final(self).granted_scopes == old(self).granted_scopes,
    {
        let _ = self.pending_requests.remove(nonce);
    }

    /// Records a successful `AUTHENTICATE` with `access_token`.
    pub fn mark_authenticated(&mut self, access_token: String, scopes: Vec<String>)
        ensures
            final(self).authenticated,
            final(self).access_token matches Some(t) && t@ == access_token@,
            final(self).granted_scopes@ == scopes@,
            final(self).connected == old(self).connected,
            final(self).client_id == old(self).client_id,
            final(self).pending() == old(self).pending(),
    {
        self.authenticated = true;
        self.access_token = Some(access_token);
        self.granted_scopes = scopes;
    }

    /// The state once the socket has been closed.
    pub fn close(&mut self)
        ensures
            !final(self).connected,
            !final(self).authenticated,
            final(self).is_idle(),
            final(self).client_id == old(self).client_id,
            final(self).access_token == old(self).access_token,
            final(self).granted_scopes == old(self).granted_scopes,
    {
        self.connected = false;
        self.authenticated = false;
        self.pending_requests.clear();
    }

    /// Whether a new connection must be opened before a command
    /// (`reconnect_if_needed`).
    pub fn needs_reconnect(&self) -> (b: bool)
        ensures
            b == !self.connected,
    {
        !self.connected
    }

    /// The token to authenticate a new connection with, if there is one.
    pub fn saved_token(&self) -> (t: Option<String>)
        ensures
            t == self.access_token,
    {
        match &self.access_token {
            Some(t) => Some(t.clone()),
            None => None,
        }
    }
}

/// A command leaves no trace among the pending requests: from an idle
/// client, [`DiscordRpcClient::begin_command`] adds a nonce that was not
/// pending and [`DiscordRpcClient::finish_command`] removes it, so the client
/// is idle again, with the table it started with.
pub proof fn lemma_command_leaves_no_trace(
    before: DiscordRpcClient,
    during: DiscordRpcClient,
    after: DiscordRpcClient,
    nonce: Seq<char>,
)
    requires
        before.is_idle(),
        !before.pending().contains_key(nonce),
        during.pending() == before.pending().insert(nonce, during.pending()[nonce]),
        after.pending() == during.pending().remove(nonce),
    ensures
        after.pending() == before.pending(),
        after.is_idle(),
{
    assert(after.pending() =~= before.pending());
}

/// The text items of an array, in order, skipping the other items.
pub open spec fn text_items(items: Seq<Json>) -> Seq<Seq<char>>
    decreases items.len(),
{
    if items.len() == 0 {
        Seq::empty()
    } else {
        let rest = text_items(items.drop_last());
        match as_str_spec(Some(items.last())) {
            Some(s) => rest.push(s),
            None => rest,
        }
    }
}

/// The view of a list of strings.
pub open spec fn texts_view(v: Seq<String>) -> Seq<Seq<char>> {
    v.map_values(|s: String| s@)
}

/// The code in the reply to `AUTHORIZE`, at `data.code`.
pub fn authorization_code(response: &Json) -> (r: Result<String, Failure>)
    ensures
        match r {
            Ok(code) => as_str_spec(get2_spec(*response, "data"@, "code"@)) == Some(code@),
            Err(f) => as_str_spec(get2_spec(*response, "data"@, "code"@)) is None
                && f.message@ == "Discord did not return an authorization code"@ && f.detail@ == f.message@,
        },
{
    match response.get2("data", "code") {
        Some(Json::Str(code)) => Ok(code.clone()),
        _ => Err(Failure::msg("Discord did not return an authorization code")),
    }
}

/// The scopes in the reply to `AUTHENTICATE`: the strings of the array at
/// `data.scopes`.
pub fn granted_scopes(response: &Json) -> (r: Result<Vec<String>, Failure>)
    ensures
        match r {
            Ok(scopes) => get2_spec(*response, "data"@, "scopes"@) matches Some(Json::Array(items))
                && texts_view(scopes@) == text_items(items@),
            Err(f) => !(get2_spec(*response, "data"@, "scopes"@) matches Some(Json::Array(_)))
                && f.message@ == "Discord did not return granted scopes during authentication"@
                && f.detail@ == f.message@,
        },
{
    match response.get2("data", "scopes") {
        Some(Json::Array(items)) => {
            let mut scopes: Vec<String> = Vec::new();
            let mut i: usize = 0;
            while i < items.len()
                invariant
                    i <= items@.len(),
                    texts_view(scopes@) == text_items(items@.take(i as int)),
                decreases items@.len() - i,
            {
                assert(items@.take(i + 1).drop_last() =~= items@.take(i as int));
                assert(items@.take(i + 1).last() == items@[i as int]);
                match &items[i] {
                    Json::Str(s) => {
                        scopes.push(s.clone());
                        assert(texts_view(scopes@) =~= texts_view(scopes@.drop_last()).push(s@));
                    },
                    _ => {},
                }
                i = i + 1;
            }
            assert(items@.take(items@.len() as int) =~= items@);
            Ok(scopes)
        },
        _ => Err(Failure::msg("Discord did not return granted scopes during authentication")),
    }
}

/// Whether `scope` is among `scopes`.
pub fn has_scope(scopes: &Vec<String>, scope: &str) -> (b: bool)
    ensures
        b == texts_view(scopes@).contains(scope@),
{
    let mut i: usize = 0;
    while i < scopes.len()
        invariant
            i <= scopes@.len(),
            forall|j: int| 0 <= j < i ==> scopes@[j]@ != scope@,
        decreases scopes@.len() - i,
    {
        if str_eq(scopes[i].as_str(), scope) {
            assert(texts_view(scopes@)[i as int] == scope@);
            return true;
        }
        i = i + 1;
    }
    assert(!texts_view(scopes@).contains(scope@)) by {
        if texts_view(scopes@).contains(scope@) {
            let j = choose|j: int| 0 <= j < texts_view(scopes@).len() && texts_view(scopes@)[j] == scope@;
            assert(scopes@[j]@ == scope@);
        }
    }
    false
}

/// Screen sharing needs the `rpc.screenshare.write` scope.
pub fn require_screenshare_scope(scopes: &Vec<String>) -> (r: Result<(), Failure>)
    ensures
        r is Ok <==> texts_view(scopes@).contains("rpc.screenshare.write"@),
        r matches Err(f) ==> f.message@ == "Discord authorization did not grant the rpc.screenshare.write scope required for screenshare toggling"@
            && f.detail@ == f.message@,
{
    if has_scope(scopes, "rpc.screenshare.write") {
        Ok(())
    } else {
        Err(Failure::msg("Discord authorization did not grant the rpc.screenshare.write scope required for screenshare toggling"))
    }
}

/// Joining voice channels needs the `rpc.voice.write` scope.
pub fn require_voice_scope(scopes: &Vec<String>) -> (r: Result<(), Failure>)
    ensures
        r is Ok <==> texts_view(scopes@).contains("rpc.voice.write"@),
        r matches Err(f) ==> f.message@ == "Discord authorization did not grant the rpc.voice.write scope required to join voice channels"@
            && f.detail@ == f.message@,
{
    if has_scope(scopes, "rpc.voice.write") {
        Ok(())
    } else {
        Err(Failure::msg("Discord authorization did not grant the rpc.voice.write scope required to join voice channels"))
    }
}

/// The failure reported when `AUTHORIZE` fails with `cause`.
pub fn authorization_failure(cause: &Failure) -> (f: Failure)
    ensures
        f.message@ == "Discord authorization failed. Make sure your Discord app includes your user in the RPC tester allowlist and only requests approved scopes (rpc, identify, guilds). Original error: "@ + cause.message@,
        f.detail@ == f.message@,
{
    Failure::new(concat(
        "Discord authorization failed. Make sure your Discord app includes your user in the RPC tester allowlist and only requests approved scopes (rpc, identify, guilds). Original error: ",
        cause.message.as_str(),
    ))
}

/// Joining again with `force` is needed exactly when Discord answered with
/// error code 5003: the failure reads `Discord RPC error 5003: ...` (see
/// [`reply_step`]), so another code that begins with 5003 does not count.
pub fn needs_forced_join(error: &Failure) -> (b: bool)
    ensures
        b == crate::text::has_prefix(error.message@, "Discord RPC error 5003: "@),
{
    crate::text::starts_with_str(error.message.as_str(), "Discord RPC error 5003: ")
}

/// What follows the first `SELECT_VOICE_CHANNEL` for `channel_id`, sent
/// without `force`: nothing more when it succeeded; the same join with
/// `force` when Discord refused it with error 5003; otherwise its failure,
/// unchanged.
pub fn after_join(channel_id: &str, outcome: Result<(), Failure>) -> (r: Result<Option<RpcCommand>, Failure>)
    ensures
        match outcome {
            Ok(_) => r == Ok::<Option<RpcCommand>, Failure>(None),
            Err(e) => if crate::text::has_prefix(e.message@, "Discord RPC error 5003: "@) {
                r matches Ok(Some(RpcCommand::SelectVoiceChannel { channel_id: c, force: f })) && c@ == channel_id@ && f
            } else {
                r == Err::<Option<RpcCommand>, Failure>(e)
            },
        },
{
    match outcome {
        Ok(()) => Ok(None),
        Err(e) => {
            if needs_forced_join(&e) {
                Ok(Some(RpcCommand::SelectVoiceChannel { channel_id: String::from_str(channel_id), force: true }))
            } else {
                Err(e)
            }
        },
    }
}

/// A join that Discord refuses is retried with `force` exactly when the
/// refusal's code is 5003: the failure that [`reply_step`] makes of an
/// error reply calls for a forced join ([`needs_forced_join`]) if and only
/// if the reply's code is 5003, whatever its message.
pub proof fn lemma_forced_join_iff_code_5003(payload: Json)
    ensures
        crate::text::has_prefix(rpc_error_text(payload), "Discord RPC error 5003: "@) <==> rpc_error_code(payload) == 5003,
{
    reveal_strlit("Discord RPC error 5003: ");
    reveal_strlit("Discord RPC error ");
    reveal_strlit("5003: ");
    let p = "Discord RPC error "@;
    let rest = signed_decimal(rpc_error_code(payload)) + ": "@ + rpc_error_message(payload);
    let t = "5003: "@;
    crate::decimal::lemma_code_5003_prefix(rpc_error_code(payload), rpc_error_message(payload));
    assert("Discord RPC error 5003: "@ =~= p + t);
    assert(rpc_error_text(payload) =~= p + rest);
    let w = p + rest;
    if crate::text::has_prefix(rest, t) {
        assert(w.subrange(0, (p.len() + t.len()) as int) =~= p + rest.subrange(0, t.len() as int));
    }
    if crate::text::has_prefix(w, p + t) {
        assert(rest.subrange(0, t.len() as int) =~= w.subrange(p.len() as int, (p.len() + t.len()) as int));
        assert(w.subrange(p.len() as int, (p.len() + t.len()) as int) =~= (p + t).subrange(p.len() as int, (p.len() + t.len()) as int));
        assert((p + t).subrange(p.len() as int, (p.len() + t.len()) as int) =~= t);
    }
}

/// Where the authorization code is exchanged for an access token.
pub fn token_endpoint() -> (s: &'static str)
    ensures
        s@ == "https://discord.com/api/oauth2/token"@,
{
    "https://discord.com/api/oauth2/token"
}

/// The form posted to exchange an authorization code.
pub fn token_exchange_form(client_id: &str, client_secret: &str, redirect_uri: &str, code: &str) -> (form: Vec<(String, String)>)
    ensures
        form@.len() == 5,
        form@[0].0@ == "client_id"@ && form@[0].1@ == client_id@,
        form@[1].0@ == "client_secret"@ && form@[1].1@ == client_secret@,
        form@[2].0@ == "grant_type"@ && form@[2].1@ == "authorization_code"@,
        form@[3].0@ == "redirect_uri"@ && form@[3].1@ == redirect_uri@,
        form@[4].0@ == "code"@ && form@[4].1@ == code@,
{
    let mut form: Vec<(String, String)> = Vec::new();
    form.push((String::from_str("client_id"), String::from_str(client_id)));
    form.push((String::from_str("client_secret"), String::from_str(client_secret)));
    form.push((String::from_str("grant_type"), String::from_str("authorization_code")));
    form.push((String::from_str("redirect_uri"), String::from_str(redirect_uri)));
    form.push((String::from_str("code"), String::from_str(code)));
    form
}


/// The servers with their icon URL filled in.
pub fn guilds_with_icons(guilds: &Vec<GuildSummary>) -> (r: Vec<GuildSummary>)
    ensures
        r@.len() == guilds@.len(),
        forall|i: int| 0 <= i < r@.len() ==> {
            &&& #[trigger] r@[i].id == guilds@[i].id
            &&& r@[i].name == guilds@[i].name
            &&& r@[i].icon == guilds@[i].icon
            &&& opt_view(r@[i].icon_url) == normalized_icon_url_spec(guilds@[i])
        },
{
    let mut r: Vec<GuildSummary> = Vec::new();
    let mut i: usize = 0;
    while i < guilds.len()
        invariant
            i <= guilds@.len(),
            r@.len() == i,
            forall|k: int| 0 <= k < i ==> {
                &&& #[trigger] r@[k].id == guilds@[k].id
                &&& r@[k].name == guilds@[k].name
                &&& r@[k].icon == guilds@[k].icon
                &&& opt_view(r@[k].icon_url) == normalized_icon_url_spec(guilds@[k])
            },
        decreases guilds@.len() - i,
    {
        let g = &guilds[i];
        let item = GuildSummary { id: g.id.clone(), name: g.name.clone(), icon_url: g.normalized_icon_url(), icon: clone_opt(&g.icon) };
        assert(item.id == guilds@[i as int].id && item.name == guilds@[i as int].name && item.icon == guilds@[i as int].icon
            && opt_view(item.icon_url) == normalized_icon_url_spec(guilds@[i as int]));
        let ghost before = r@;
        r.push(item);
        assert forall|k: int| 0 <= k < i + 1 implies {
            &&& #[trigger] r@[k].id == guilds@[k].id
            &&& r@[k].name == guilds@[k].name
            &&& r@[k].icon == guilds@[k].icon
            &&& opt_view(r@[k].icon_url) == normalized_icon_url_spec(guilds@[k])
        } by {
            if k < i {
                assert(r@[k] == before[k]);
            } else {
                assert(r@[k] == item);
            }
        }
        i = i + 1;
    }
    r
}

/// The voice and stage channels among `s`, in order.
pub open spec fn voice_only(s: Seq<ChannelSummary>) -> Seq<ChannelSummary>
    decreases s.len(),
{
    if s.len() == 0 {
        Seq::empty()
    } else if is_voice_kind(s.last().kind as int) {
        voice_only(s.drop_last()).push(s.last())
    } else {
        voice_only(s.drop_last())
    }
}

/// The channels kept are exactly the voice (type 2) and stage (type 13)
/// channels of the list, in their order: the list filtered by type.
pub proof fn lemma_voice_only_is_type_filter(s: Seq<ChannelSummary>)
    ensures
        voice_only(s) == s.filter(|c: ChannelSummary| c.kind == 2 || c.kind == 13),
    decreases s.len(),
{
    reveal(Seq::filter);
    let f = |c: ChannelSummary| c.kind == 2 || c.kind == 13;
    if s.len() > 0 {
        lemma_voice_only_is_type_filter(s.drop_last());
        assert(s.filter(f) == (if f(s.last()) {
            s.drop_last().filter(f).push(s.last())
        } else {
            s.drop_last().filter(f)
        }));
        assert(f(s.last()) == is_voice_kind(s.last().kind as int));
    } else {
        assert(s.filter(f) == s);
    }
}

/// Every channel that [`voice_channels`] keeps is a voice or stage channel
/// of the list it was given.
pub proof fn lemma_voice_only_members(s: Seq<ChannelSummary>)
    ensures
        forall|i: int| 0 <= i < voice_only(s).len() ==> is_voice_kind(#[trigger] voice_only(s)[i].kind as int) && s.contains(voice_only(s)[i]),
    decreases s.len(),
{
    if s.len() > 0 {
        lemma_voice_only_members(s.drop_last());
        let r = voice_only(s);
        assert forall|i: int| 0 <= i < r.len() implies is_voice_kind(#[trigger] r[i].kind as int) && s.contains(r[i]) by {
            let p = voice_only(s.drop_last());
            if i < p.len() {
                assert(r[i] == p[i]);
                assert(is_voice_kind(p[i].kind as int));
                assert(s.drop_last().contains(p[i]));
                let j = choose|j: int| 0 <= j < s.drop_last().len() && s.drop_last()[j] == p[i];
                assert(s[j] == p[i]);
            } else {
                assert(r[i] == s.last());
                assert(s[s.len() - 1] == s.last());
            }
        }
    }
}

/// The voice and stage channels of a server (`get_channels` keeps no others).
pub fn voice_channels(channels: &Vec<ChannelSummary>) -> (r: Vec<ChannelSummary>)
    ensures
        r@ == voice_only(channels@),
        r@ == channels@.filter(|c: ChannelSummary| c.kind == 2 || c.kind == 13),
{
    proof { lemma_voice_only_is_type_filter(channels@); }
    let mut r: Vec<ChannelSummary> = Vec::new();
    let mut i: usize = 0;
    while i < channels.len()
        invariant
            i <= channels@.len(),
            r@ == voice_only(channels@.take(i as int)),
        decreases channels@.len() - i,
    {
        let ghost t = channels@.take(i + 1);
        assert(t.drop_last() =~= channels@.take(i as int));
        assert(t.last() == channels@[i as int]);
        if channels[i].is_voice_like() {
            r.push(channels[i].clone());
        }
        i = i + 1;
    }
    assert(channels@.take(channels@.len() as int) =~= channels@);
    r
}

/// `a` when present, else `b` (`Option::or_else`).
pub open spec fn first_some(a: Option<Json>, b: Option<Json>) -> Option<Json> {
    if a is Some {
        a
    } else {
        b
    }
}

/// The text of an optional value: as [`value_text`], empty when absent.
pub open spec fn opt_text(o: Option<Json>) -> Seq<char> {
    match o {
        Some(v) => value_text(v),
        None => Seq::empty(),
    }
}

/// Where a sound's ID is read: `sound_id`, `id`, `soundId`, then `sound.sound_id`, `sound.id`.
pub open spec fn sound_id_source(raw: Json) -> Option<Json> {
    first_some(get_spec(raw, "sound_id"@), first_some(get_spec(raw, "id"@), first_some(get_spec(raw, "soundId"@),
        first_some(get2_spec(raw, "sound"@, "sound_id"@), get2_spec(raw, "sound"@, "id"@)))))
}

/// Where a sound's server is read: `guild_id`, `guildId`, then `guild.id`.
pub open spec fn sound_guild_source(raw: Json) -> Option<Json> {
    first_some(get_spec(raw, "guild_id"@), first_some(get_spec(raw, "guildId"@), get2_spec(raw, "guild"@, "id"@)))
}

/// Where a sound's name is read: `name`, `sound_name`, `soundName`, then `sound.name`.
pub open spec fn sound_name_source(raw: Json) -> Option<Json> {
    first_some(get_spec(raw, "name"@), first_some(get_spec(raw, "sound_name"@), first_some(get_spec(raw, "soundName"@),
        get2_spec(raw, "sound"@, "name"@))))
}

/// A sound as (server ID, server name, sound ID, sound name).
pub open spec fn sound_view(s: SoundboardSoundSummary) -> (Seq<char>, Seq<char>, Seq<char>, Seq<char>) {
    (s.guild_id@, s.guild_name@, s.sound_id@, s.sound_name@)
}

/// The sound described by `raw`, if it has an ID; its server defaults to
/// `guild_id`.
pub open spec fn sound_of(raw: Json, guild_id: Seq<char>) -> Option<(Seq<char>, Seq<char>, Seq<char>, Seq<char>)> {
    let sid = opt_text(sound_id_source(raw));
    if sid.len() == 0 {
        None
    } else {
        let parsed = opt_text(sound_guild_source(raw));
        let gid = if is_blank(parsed) {
            guild_id
        } else {
            parsed
        };
        let name = match as_str_spec(sound_name_source(raw)) {
            Some(n) => n,
            None => Seq::empty(),
        };
        Some((gid, Seq::empty(), sid, name))
    }
}

/// The sounds described by `items`, in order.
pub open spec fn sounds_of(items: Seq<Json>, guild_id: Seq<char>) -> Seq<(Seq<char>, Seq<char>, Seq<char>, Seq<char>)>
    decreases items.len(),
{
    if items.len() == 0 {
        Seq::empty()
    } else {
        let rest = sounds_of(items.drop_last(), guild_id);
        match sound_of(items.last(), guild_id) {
            Some(s) => rest.push(s),
            None => rest,
        }
    }
}

/// The list of sound descriptions in a reply: `data` itself when it is an
/// array, else the array under the first of `sounds`, `soundboard_sounds`,
/// `items` that `data` has.
pub open spec fn sound_items(response: Json) -> Seq<Json> {
    match get_spec(response, "data"@) {
        Some(Json::Array(items)) => items@,
        Some(data) => match first_some(get_spec(data, "sounds"@), first_some(get_spec(data, "soundboard_sounds"@), get_spec(data, "items"@))) {
            Some(Json::Array(items)) => items@,
            _ => Seq::empty(),
        },
        None => Seq::empty(),
    }
}

/// Where the sounds of a `GET_SOUNDBOARD_SOUNDS` reply are listed: `data`
/// itself when it is an array; else the array under `data.sounds`; else,
/// when `data` has no `sounds`, the array under `data.soundboard_sounds`;
/// else, when it has neither, the array under `data.items`; and no sounds
/// when there is no `data`.
pub proof fn lemma_sound_list_sources(response: Json)
    ensures
        match get_spec(response, "data"@) {
            None => sound_items(response).len() == 0,
            Some(Json::Array(a)) => sound_items(response) == a@,
            Some(d) => match (get_spec(d, "sounds"@), get_spec(d, "soundboard_sounds"@), get_spec(d, "items"@)) {
                (Some(Json::Array(a)), _, _) => sound_items(response) == a@,
                (None, Some(Json::Array(a)), _) => sound_items(response) == a@,
                (None, None, Some(Json::Array(a))) => sound_items(response) == a@,
                _ => sound_items(response).len() == 0,
            },
        },
{
}

fn first_present<'a>(a: Option<&'a Json>, b: Option<&'a Json>) -> (r: Option<&'a Json>)
    ensures
        r == (if a is Some { a } else { b }),
{
    match a {
        Some(x) => Some(x),
        None => b,
    }
}

fn text_of(o: Option<&Json>) -> (s: String)
    ensures
        s@ == match o {
            Some(v) => value_text(*v),
            None => Seq::<char>::empty(),
        },
{
    match o {
        Some(v) => value_to_string(v),
        None => String::new(),
    }
}

/// The sound described by one item of the reply.
pub fn sound_from(raw: &Json, guild_id: &str) -> (r: Option<SoundboardSoundSummary>)
    ensures
        match r {
            Some(s) => sound_of(*raw, guild_id@) == Some(sound_view(s)),
            None => sound_of(*raw, guild_id@) is None,
        },
{
    let id_src = first_present(raw.get("sound_id"), first_present(raw.get("id"), first_present(raw.get("soundId"),
        first_present(raw.get2("sound", "sound_id"), raw.get2("sound", "id")))));
    let sound_id = text_of(id_src);
    if sound_id.as_str().is_empty() {
        return None;
    }
    let guild_src = first_present(raw.get("guild_id"), first_present(raw.get("guildId"), raw.get2("guild", "id")));
    let parsed = text_of(guild_src);
    let resolved = if is_blank_str(parsed.as_str()) {
        String::from_str(guild_id)
    } else {
        parsed
    };
    let name_src = first_present(raw.get("name"), first_present(raw.get("sound_name"), first_present(raw.get("soundName"),
        raw.get2("sound", "name"))));
    let sound_name = match name_src {
        Some(Json::Str(n)) => n.clone(),
        _ => String::new(),
    };
    Some(SoundboardSoundSummary { guild_id: resolved, guild_name: String::new(), sound_id, sound_name })
}

/// The sounds in the reply to `GET_SOUNDBOARD_SOUNDS` for the server `guild_id`.
pub fn soundboard_sounds(response: &Json, guild_id: &str) -> (r: Vec<SoundboardSoundSummary>)
    ensures
        r@.map_values(|s: SoundboardSoundSummary| sound_view(s)) == sounds_of(sound_items(*response), guild_id@),
{
    let empty: Vec<Json> = Vec::new();
    let items: &Vec<Json> = match response.get("data") {
        Some(Json::Array(a)) => a,
        Some(data) => match first_present(data.get("sounds"), first_present(data.get("soundboard_sounds"), data.get("items"))) {
            Some(Json::Array(a)) => a,
            _ => &empty,
        },
        None => &empty,
    };
    assert(items@ == sound_items(*response));
    let mut r: Vec<SoundboardSoundSummary> = Vec::new();
    let mut i: usize = 0;
    while i < items.len()
        invariant
            i <= items@.len(),
            r@.map_values(|s: SoundboardSoundSummary| sound_view(s)) == sounds_of(items@.take(i as int), guild_id@),
        decreases items@.len() - i,
    {
        let ghost t = items@.take(i + 1);
        assert(t.drop_last() =~= items@.take(i as int));
        assert(t.last() == items@[i as int]);
        let ghost before = r@;
        match sound_from(&items[i], guild_id) {
            Some(s) => {
                r.push(s);
                assert(r@.map_values(|s: SoundboardSoundSummary| sound_view(s)) =~= before.map_values(|s: SoundboardSoundSummary| sound_view(s)).push(sound_view(r@.last())));
            },
            None => {},
        }
        i = i + 1;
    }
    assert(items@.take(items@.len() as int) =~= items@);
    r
}


/// Outside work that the authorization flow asks for next.
pub enum AuthStep {
    /// Open a new connection to the Discord client (the handshake).
    Connect,
    /// Send `AUTHENTICATE` with this token on the open connection.
    Authenticate(String),
    /// Send `AUTHORIZE` on the open connection.
    Authorize,
    /// Exchange this authorization code for an access token.
    ExchangeCode(String),
    /// The open connection is authenticated with this token and these scopes.
    Done { access_token: String, scopes: Vec<String> },
    /// The flow failed.
    Fail(Failure),
}

/// The outcome of the work an [`AuthStep`] asked for.
pub enum AuthEvent {
    Connected,
    ConnectFailed(Failure),
    Authenticated(Vec<String>),
    AuthenticateFailed(Failure),
    Authorized(String),
    AuthorizeFailed(Failure),
    Exchanged(String),
    ExchangeFailed(Failure),
}

/// Where the authorization flow stands.
pub enum AuthStage {
    /// Connecting in order to try the saved token.
    CachedConnect(String),
    /// Trying the saved token.
    CachedAuthenticate(String),
    /// Connecting in order to authorize anew.
    FreshConnect,
    /// Waiting for the user to approve the authorization.
    FreshAuthorize,
    /// Exchanging the authorization code.
    FreshExchange,
    /// Authenticating with the new token.
    FreshAuthenticate(String),
    /// The flow has ended.
    Finished,
}

/// `connect_authorized`: authenticate with a saved token when it still grants
/// `rpc.voice.write`, and otherwise authorize anew, exchange the code for a
/// token, and authenticate with it.
pub struct AuthFlow {
    pub stage: AuthStage,
}

/// The event answers the step that the stage is waiting for.
pub open spec fn auth_event_fits(stage: AuthStage, event: AuthEvent) -> bool {
    match stage {
        AuthStage::CachedConnect(_) | AuthStage::FreshConnect => event is Connected || event is ConnectFailed,
        AuthStage::CachedAuthenticate(_) | AuthStage::FreshAuthenticate(_) => event is Authenticated || event is AuthenticateFailed,
        AuthStage::FreshAuthorize => event is Authorized || event is AuthorizeFailed,
        AuthStage::FreshExchange => event is Exchanged || event is ExchangeFailed,
        AuthStage::Finished => false,
    }
}

/// The step `step` asks for the stage and the event, and the stage after it.
pub open spec fn auth_transition(stage: AuthStage, event: AuthEvent, next: AuthStage, step: AuthStep) -> bool {
    match (stage, event) {
        (AuthStage::CachedConnect(t), AuthEvent::Connected) => next == AuthStage::CachedAuthenticate(t)
            && (step matches AuthStep::Authenticate(u) && u@ == t@),
        (AuthStage::CachedAuthenticate(t), AuthEvent::Authenticated(scopes)) => if texts_view(scopes@).contains("rpc.voice.write"@) {
            next is Finished && (step matches AuthStep::Done { access_token, scopes: s } && access_token@ == t@ && s@ == scopes@)
        } else {
            next is FreshConnect && step is Connect
        },
        (AuthStage::CachedAuthenticate(_), AuthEvent::AuthenticateFailed(_)) => next is FreshConnect && step is Connect,
        (AuthStage::FreshConnect, AuthEvent::Connected) => next is FreshAuthorize && step is Authorize,
        (AuthStage::FreshAuthorize, AuthEvent::Authorized(code)) => next is FreshExchange
            && (step matches AuthStep::ExchangeCode(c) && c@ == code@),
        (AuthStage::FreshAuthorize, AuthEvent::AuthorizeFailed(e)) => next is Finished
            && (step matches AuthStep::Fail(f) && f.message@ == "Discord authorization failed. Make sure your Discord app includes your user in the RPC tester allowlist and only requests approved scopes (rpc, identify, guilds). Original error: "@ + e.message@
            && f.detail@ == f.message@),
        (AuthStage::FreshExchange, AuthEvent::Exchanged(t)) => next == AuthStage::FreshAuthenticate(t)
            && (step matches AuthStep::Authenticate(u) && u@ == t@),
        (AuthStage::FreshAuthenticate(t), AuthEvent::Authenticated(scopes)) => if texts_view(scopes@).contains("rpc.voice.write"@) {
            next is Finished && (step matches AuthStep::Done { access_token, scopes: s } && access_token@ == t@ && s@ == scopes@)
        } else {
            next is Finished && (step matches AuthStep::Fail(f)
                && f.message@ == "Discord authorization did not grant the rpc.voice.write scope required to join voice channels"@
                && f.detail@ == f.message@)
        },
        (_, AuthEvent::ConnectFailed(e)) => next is Finished && step == AuthStep::Fail(e),
        (_, AuthEvent::AuthenticateFailed(e)) => next is Finished && step == AuthStep::Fail(e),
        (_, AuthEvent::ExchangeFailed(e)) => next is Finished && step == AuthStep::Fail(e),
        _ => false,
    }
}

impl AuthFlow {
    /// Starts the flow: with a saved token, connect to try it; without one,
    /// connect to authorize.
    pub fn start(cached_access_token: Option<&str>) -> (r: (AuthFlow, AuthStep))
        ensures
            r.1 is Connect,
            match cached_access_token {
                Some(t) => r.0.stage matches AuthStage::CachedConnect(u) && u@ == t@,
                None => r.0.stage is FreshConnect,
            },
    {
        match cached_access_token {
            Some(t) => (AuthFlow { stage: AuthStage::CachedConnect(String::from_str(t)) }, AuthStep::Connect),
            None => (AuthFlow { stage: AuthStage::FreshConnect }, AuthStep::Connect),
        }
    }

    /// Takes the outcome of the last step and gives the next one.
    pub fn step(&mut self, event: AuthEvent) -> (step: AuthStep)
        requires
            auth_event_fits(old(self).stage, event),
        ensures
            auth_transition(old(self).stage, event, final(self).stage, step),
    {
        let mut stage = AuthStage::Finished;
        std::mem::swap(&mut stage, &mut self.stage);
        match stage {
            AuthStage::CachedConnect(t) => match event {
                AuthEvent::Connected => {
                    let u = t.clone();
                    self.stage = AuthStage::CachedAuthenticate(t);
                    AuthStep::Authenticate(u)
                },
                AuthEvent::ConnectFailed(e) => AuthStep::Fail(e),
                _ => AuthStep::Connect,
            },
            AuthStage::CachedAuthenticate(t) => match event {
                AuthEvent::Authenticated(scopes) => {
                    if has_scope(&scopes, "rpc.voice.write") {
                        AuthStep::Done { access_token: t, scopes }
                    } else {
                        self.stage = AuthStage::FreshConnect;
                        AuthStep::Connect
                    }
                },
                AuthEvent::AuthenticateFailed(_) => {
                    self.stage = AuthStage::FreshConnect;
                    AuthStep::Connect
                },
                _ => AuthStep::Connect,
            },
            AuthStage::FreshConnect => match event {
                AuthEvent::Connected => {
                    self.stage = AuthStage::FreshAuthorize;
                    AuthStep::Authorize
                },
                AuthEvent::ConnectFailed(e) => AuthStep::Fail(e),
                _ => AuthStep::Connect,
            },
            AuthStage::FreshAuthorize => match event {
                AuthEvent::Authorized(code) => {
                    self.stage = AuthStage::FreshExchange;
                    AuthStep::ExchangeCode(code)
                },
                AuthEvent::AuthorizeFailed(e) => AuthStep::Fail(authorization_failure(&e)),
                _ => AuthStep::Connect,
            },
            AuthStage::FreshExchange => match event {
                AuthEvent::Exchanged(t) => {
                    let u = t.clone();
                    self.stage = AuthStage::FreshAuthenticate(t);
                    AuthStep::Authenticate(u)
                },
                AuthEvent::ExchangeFailed(e) => AuthStep::Fail(e),
                _ => AuthStep::Connect,
            },
            AuthStage::FreshAuthenticate(t) => match event {
                AuthEvent::Authenticated(scopes) => {
                    match require_voice_scope(&scopes) {
                        Ok(()) => AuthStep::Done { access_token: t, scopes },
                        Err(f) => AuthStep::Fail(f),
                    }
                },
                AuthEvent::AuthenticateFailed(e) => AuthStep::Fail(e),
                _ => AuthStep::Connect,
            },
            AuthStage::Finished => AuthStep::Connect,
        }
    }
}


/// A saved token that still grants `rpc.voice.write` is used as it is: the
/// flow ends there, without asking the user to authorize again.
pub proof fn lemma_saved_token_is_reused(t: String, scopes: Vec<String>, next: AuthStage, step: AuthStep)
    requires
        auth_transition(AuthStage::CachedAuthenticate(t), AuthEvent::Authenticated(scopes), next, step),
        texts_view(scopes@).contains("rpc.voice.write"@),
    ensures
        next is Finished,
        step matches AuthStep::Done { access_token, .. } && access_token@ == t@,
{
}

/// The flow asks the user to authorize only after a connection opened for
/// that purpose: when there was no saved token, or the saved one was refused
/// or lacked `rpc.voice.write`.
pub proof fn lemma_authorize_only_when_fresh(stage: AuthStage, event: AuthEvent, next: AuthStage, step: AuthStep)
    requires
        auth_transition(stage, event, next, step),
        step is Authorize,
    ensures
        stage is FreshConnect,
        event is Connected,
{
}

/// The name of the `index`-th Discord IPC socket (`discord-ipc-0` to `discord-ipc-9`).
pub fn ipc_socket_name(index: u8) -> (s: String)
    requires
        index < 10,
    ensures
        s@ == "discord-ipc-"@ + crate::decimal::decimal(index as nat),
{
    let mut s = String::from_str("discord-ipc-");
    crate::decimal::push_decimal(&mut s, index as u64);
    s
}

/// The path of the `index`-th Discord IPC named pipe on Windows.
pub fn ipc_pipe_name(index: u8) -> (s: String)
    requires
        index < 10,
    ensures
        s@ == "\\\\.\\pipe\\"@ + "discord-ipc-"@ + crate::decimal::decimal(index as nat),
{
    let name = ipc_socket_name(index);
    concat("\\\\.\\pipe\\", name.as_str())
}

} // verus!
