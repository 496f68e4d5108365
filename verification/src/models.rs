//! The settings and summaries that the plugin keeps and exchanges.

use vstd::prelude::*;
use crate::json::{Json, as_str_spec, get_spec, member, object_entries};
use crate::text::{chars_of, lemma_prefix_fitting_fits, lemma_replace_keeps_utf8_len, is_blank, is_blank_str, longest_prefix_within, prefix_fitting, replace_char, replace_char_str, trim, trim_bounds, utf8_len, vec_range};

verus! {

/// The Discord OAuth configuration shared by every action of the plugin.
pub struct GlobalSettings {
    pub client_id: String,
    pub client_secret: String,
    pub redirect_uri: String,
    pub access_token: String,
}

/// The settings of one button: its server, the voice channel a Voice
/// Channel button joins, and the sound a Soundboard button plays.
pub struct VoiceChannelSettings {
    pub guild_id: String,
    pub guild_name: String,
    pub channel_id: String,
    pub channel_name: String,
    pub guild_icon_url: String,
    pub sound_id: String,
}

/// A Discord server as the property inspector lists it.
pub struct GuildSummary {
    pub id: String,
    pub name: String,
    pub icon_url: Option<String>,
    pub icon: Option<String>,
}

/// A channel of a Discord server.
pub struct ChannelSummary {
    pub id: String,
    pub name: String,
    pub kind: i64,
}

/// A soundboard sound of a Discord server.
pub struct SoundboardSoundSummary {
    pub guild_id: String,
    pub guild_name: String,
    pub sound_id: String,
    pub sound_name: String,
}

/// The view of an optional string.
pub open spec fn opt_view(o: Option<String>) -> Option<Seq<char>> {
    match o {
        Some(s) => Some(s@),
        None => None,
    }
}

/// A string member of an object.
pub open spec fn str_entry(key: Seq<char>, value: Seq<char>, e: (String, Json)) -> bool {
    e.0@ == key && as_str_spec(Some(e.1)) == Some(value)
}

/// A member whose value is a string or `null`.
pub open spec fn opt_str_entry(key: Seq<char>, value: Option<Seq<char>>, e: (String, Json)) -> bool {
    e.0@ == key && match value {
        Some(v) => as_str_spec(Some(e.1)) == Some(v),
        None => e.1 is Null,
    }
}

/// A copy of an optional string.
pub fn clone_opt(o: &Option<String>) -> (r: Option<String>)
    ensures
        r == *o,
{
    match o {
        Some(s) => Some(s.clone()),
        None => None,
    }
}

impl Clone for GuildSummary {
    fn clone(&self) -> (r: Self)
        ensures
            r == *self,
    {
        GuildSummary { id: self.id.clone(), name: self.name.clone(), icon_url: clone_opt(&self.icon_url), icon: clone_opt(&self.icon) }
    }
}

impl Clone for ChannelSummary {
    fn clone(&self) -> (r: Self)
        ensures
            r == *self,
    {
        ChannelSummary { id: self.id.clone(), name: self.name.clone(), kind: self.kind }
    }
}

impl Clone for SoundboardSoundSummary {
    fn clone(&self) -> (r: Self)
        ensures
            r == *self,
    {
        SoundboardSoundSummary {
            guild_id: self.guild_id.clone(),
            guild_name: self.guild_name.clone(),
            sound_id: self.sound_id.clone(),
            sound_name: self.sound_name.clone(),
        }
    }
}

/// A member holding `s`.
pub fn str_member(key: &str, s: &String) -> (e: (String, Json))
    ensures
        str_entry(key@, s@, e),
{
    (String::from_str(key), Json::Str(s.clone()))
}

/// A member holding the string `s`, or `null`.
pub fn opt_str_member(key: &str, s: &Option<String>) -> (e: (String, Json))
    ensures
        opt_str_entry(key@, opt_view(*s), e),
{
    match s {
        Some(t) => (String::from_str(key), Json::Str(t.clone())),
        None => (String::from_str(key), Json::Null),
    }
}

/// The JSON number of an `i64`.
pub open spec fn int_json(n: int, j: Json) -> bool {
    if n >= 0 {
        j == Json::UInt(n as u64)
    } else {
        j == Json::NegInt(n as i64)
    }
}

pub fn i64_json(n: i64) -> (j: Json)
    ensures
        int_json(n as int, j),
{
    if n >= 0 {
        Json::UInt(n as u64)
    } else {
        Json::NegInt(n)
    }
}

impl Clone for GlobalSettings {
    fn clone(&self) -> (r: Self)
        ensures
            r == *self,
    {
        GlobalSettings {
            client_id: self.client_id.clone(),
            client_secret: self.client_secret.clone(),
            redirect_uri: self.redirect_uri.clone(),
            access_token: self.access_token.clone(),
        }
    }
}

impl Default for GlobalSettings {
    fn default() -> (r: Self)
        ensures
            r.client_id@.len() == 0,
            r.client_secret@.len() == 0,
            r.redirect_uri@.len() == 0,
            r.access_token@.len() == 0,
    {
        GlobalSettings {
            client_id: String::new(),
            client_secret: String::new(),
            redirect_uri: String::new(),
            access_token: String::new(),
        }
    }
}

impl GlobalSettings {
    /// Both the client ID and the client secret are filled in.
    pub open spec fn has_credentials_spec(&self) -> bool {
        !is_blank(self.client_id@) && !is_blank(self.client_secret@)
    }

    /// Whether both the client ID and the client secret hold more than white space.
    pub fn has_credentials(&self) -> (b: bool)
        ensures
            b == self.has_credentials_spec(),
    {
        !is_blank_str(self.client_id.as_str()) && !is_blank_str(self.client_secret.as_str())
    }

    /// Whether the redirect URI holds more than white space.
    pub fn has_redirect_uri(&self) -> (b: bool)
        ensures
            b == !is_blank(self.redirect_uri@),
    {
        !is_blank_str(self.redirect_uri.as_str())
    }

    /// The access token without surrounding white space, unless nothing is left.
    pub fn access_token_if_present(&self) -> (r: Option<&str>)
        ensures
            match r {
                Some(t) => !is_blank(self.access_token@) && t@ == trim(self.access_token@),
                None => is_blank(self.access_token@),
            },
    {
        let v = chars_of(self.access_token.as_str());
        let (a, b) = trim_bounds(&v);
        if a == b {
            None
        } else {
            Some(self.access_token.as_str().substring_char(a, b))
        }
    }

    /// Whether the access token is not empty (the `isAuthorized` flag).
    pub fn is_authorized(&self) -> (b: bool)
        ensures
            b == (self.access_token@.len() > 0),
    {
        !self.access_token.as_str().is_empty()
    }

    /// The settings as the Stream Deck host stores them.
    pub open spec fn json_spec(&self, j: Json) -> bool {
        j is Object && object_entries(j).len() == 4
            && str_entry("clientId"@, self.client_id@, object_entries(j)[0])
            && str_entry("clientSecret"@, self.client_secret@, object_entries(j)[1])
            && str_entry("redirectUri"@, self.redirect_uri@, object_entries(j)[2])
            && str_entry("accessToken"@, self.access_token@, object_entries(j)[3])
    }

    pub fn to_json(&self) -> (j: Json)
        ensures
            self.json_spec(j),
    {
        let mut es: Vec<(String, Json)> = Vec::new();
        es.push(str_member("clientId", &self.client_id));
        es.push(str_member("clientSecret", &self.client_secret));
        es.push(str_member("redirectUri", &self.redirect_uri));
        es.push(str_member("accessToken", &self.access_token));
        Json::Object(es)
    }
}

/// The button title for a channel name: the name trimmed, cut to its
/// longest prefix of at most 18 UTF-8 bytes, with each space turned into a
/// line break; `"Voice\nChannel"` when the trimmed name is empty.
pub open spec fn button_title_spec(name: Seq<char>) -> Seq<char> {
    let t = trim(name);
    if t.len() == 0 {
        "Voice\nChannel"@
    } else {
        replace_char(t.take(prefix_fitting(t, 18, 0) as int), ' ', '\n')
    }
}

/// Every key title takes at most 18 bytes in UTF-8 and holds no space.
pub proof fn lemma_button_title_fits(name: Seq<char>)
    ensures
        utf8_len(button_title_spec(name)) <= 18,
        !button_title_spec(name).contains(' '),
{
    let t = trim(name);
    if t.len() == 0 {
        reveal_strlit("Voice\nChannel");
        assert(utf8_len("Voice\nChannel"@) == 13) by {
            reveal_with_fuel(utf8_len, 14);
        }
        if "Voice\nChannel"@.contains(' ') {
            let i = choose|i: int| 0 <= i < "Voice\nChannel"@.len() && "Voice\nChannel"@[i] == ' ';
            assert(false);
        }
    } else {
        assert(t.take(0) =~= Seq::<char>::empty());
        lemma_prefix_fitting_fits(t, 18, 0);
        let cut = t.take(prefix_fitting(t, 18, 0) as int);
        lemma_replace_keeps_utf8_len(cut, ' ', '\n');
        let r = replace_char(cut, ' ', '\n');
        if r.contains(' ') {
            let i = choose|i: int| 0 <= i < r.len() && r[i] == ' ';
            assert(false);
        }
    }
}

/// Cutting the trimmed name to 18 bytes falls between two characters
/// (otherwise `String::truncate` panics).
pub open spec fn title_cut_on_boundary(name: Seq<char>) -> bool {
    let t = trim(name);
    prefix_fitting(t, 18, 0) < t.len() ==> utf8_len(t.take(prefix_fitting(t, 18, 0) as int)) == 18
}

/// Whether a title can be made of the channel name `name` (see
/// [`title_cut_on_boundary`]).
pub fn title_fits(name: &str) -> (b: bool)
    ensures
        b == title_cut_on_boundary(name@),
{
    let v = chars_of(name);
    let (a, b) = trim_bounds(&v);
    let t = vec_range(&v, a, b);
    let (k, bytes) = longest_prefix_within(&t, 18);
    k >= t.len() || bytes == 18
}

impl Clone for VoiceChannelSettings {
    fn clone(&self) -> (r: Self)
        ensures
            r == *self,
    {
        VoiceChannelSettings {
            guild_id: self.guild_id.clone(),
            guild_name: self.guild_name.clone(),
            channel_id: self.channel_id.clone(),
            channel_name: self.channel_name.clone(),
            guild_icon_url: self.guild_icon_url.clone(),
            sound_id: self.sound_id.clone(),
        }
    }
}

impl Default for VoiceChannelSettings {
    fn default() -> (r: Self)
        ensures
            r.guild_id@.len() == 0,
            r.guild_name@.len() == 0,
            r.channel_id@.len() == 0,
            r.channel_name@.len() == 0,
            r.guild_icon_url@.len() == 0,
            r.sound_id@.len() == 0,
    {
        VoiceChannelSettings {
            guild_id: String::new(),
            guild_name: String::new(),
            channel_id: String::new(),
            channel_name: String::new(),
            guild_icon_url: String::new(),
            sound_id: String::new(),
        }
    }
}

impl VoiceChannelSettings {
    /// Whether [`Self::button_title`] can cut the channel name at 18 bytes.
    pub fn title_fits_boundary(&self) -> (b: bool)
        ensures
            b == title_cut_on_boundary(self.channel_name@),
    {
        title_fits(self.channel_name.as_str())
    }

    /// The title shown on the key.
    pub fn button_title(&self) -> (title: String)
        requires
            title_cut_on_boundary(self.channel_name@),
        ensures
            title@ == button_title_spec(self.channel_name@),
    {
        let v = chars_of(self.channel_name.as_str());
        let (a, b) = trim_bounds(&v);
        if a == b {
            return String::from_str("Voice\nChannel");
        }
        let t = vec_range(&v, a, b);
        let (k, _bytes) = longest_prefix_within(&t, 18);
        let cut = vec_range(&t, 0, k);
        assert(cut@ =~= t@.take(k as int));
        replace_char_str(&cut, ' ', '\n')
    }

    /// The settings as the Stream Deck host stores them for a key.
    pub open spec fn json_spec(&self, j: Json) -> bool {
        j is Object && object_entries(j).len() == 6
            && str_entry("guildId"@, self.guild_id@, object_entries(j)[0])
            && str_entry("guildName"@, self.guild_name@, object_entries(j)[1])
            && str_entry("channelId"@, self.channel_id@, object_entries(j)[2])
            && str_entry("channelName"@, self.channel_name@, object_entries(j)[3])
            && str_entry("guildIconUrl"@, self.guild_icon_url@, object_entries(j)[4])
            && str_entry("soundId"@, self.sound_id@, object_entries(j)[5])
    }

    pub fn to_json(&self) -> (j: Json)
        ensures
            self.json_spec(j),
    {
        let mut es: Vec<(String, Json)> = Vec::new();
        es.push(str_member("guildId", &self.guild_id));
        es.push(str_member("guildName", &self.guild_name));
        es.push(str_member("channelId", &self.channel_id));
        es.push(str_member("channelName", &self.channel_name));
        es.push(str_member("guildIconUrl", &self.guild_icon_url));
        es.push(str_member("soundId", &self.sound_id));
        Json::Object(es)
    }
}

/// The icon URL of a server: the given URL when it is not empty, else the
/// Discord CDN URL built from the server ID and the icon hash when the hash
/// is not empty, else none.
pub open spec fn normalized_icon_url_spec(g: GuildSummary) -> Option<Seq<char>> {
    if g.icon_url matches Some(u) && u@.len() > 0 {
        Some(g.icon_url->0@)
    } else if g.icon matches Some(h) && h@.len() > 0 {
        Some("https://cdn.discordapp.com/icons/"@ + g.id@ + "/"@ + g.icon->0@ + ".png?size=128"@)
    } else {
        None
    }
}

impl GuildSummary {
    /// The URL of this server's icon, if it has one.
    pub fn normalized_icon_url(&self) -> (r: Option<String>)
        ensures
            opt_view(r) == normalized_icon_url_spec(*self),
    {
        if let Some(url) = &self.icon_url {
            if !url.as_str().is_empty() {
                return Some(url.clone());
            }
        }
        match &self.icon {
            Some(hash) => {
                if hash.as_str().is_empty() {
                    None
                } else {
                    let mut s = String::from_str("https://cdn.discordapp.com/icons/");
                    s.append(self.id.as_str());
                    s.append("/");
                    s.append(hash.as_str());
                    s.append(".png?size=128");
                    Some(s)
                }
            },
            None => None,
        }
    }

    /// The server as the property inspector receives it.
    pub open spec fn json_spec(&self, j: Json) -> bool {
        j is Object && object_entries(j).len() == 4
            && str_entry("id"@, self.id@, object_entries(j)[0])
            && str_entry("name"@, self.name@, object_entries(j)[1])
            && opt_str_entry("iconUrl"@, opt_view(self.icon_url), object_entries(j)[2])
            && opt_str_entry("icon"@, opt_view(self.icon), object_entries(j)[3])
    }

    pub fn to_json(&self) -> (j: Json)
        ensures
            self.json_spec(j),
    {
        let mut es: Vec<(String, Json)> = Vec::new();
        es.push(str_member("id", &self.id));
        es.push(str_member("name", &self.name));
        es.push(opt_str_member("iconUrl", &self.icon_url));
        es.push(opt_str_member("icon", &self.icon));
        Json::Object(es)
    }
}

impl SoundboardSoundSummary {
    /// The sound as the property inspector receives it.
    pub open spec fn json_spec(&self, j: Json) -> bool {
        j is Object && object_entries(j).len() == 4
            && str_entry("guildId"@, self.guild_id@, object_entries(j)[0])
            && str_entry("guildName"@, self.guild_name@, object_entries(j)[1])
            && str_entry("soundId"@, self.sound_id@, object_entries(j)[2])
            && str_entry("soundName"@, self.sound_name@, object_entries(j)[3])
    }

    pub fn to_json(&self) -> (j: Json)
        ensures
            self.json_spec(j),
    {
        let mut es: Vec<(String, Json)> = Vec::new();
        es.push(str_member("guildId", &self.guild_id));
        es.push(str_member("guildName", &self.guild_name));
        es.push(str_member("soundId", &self.sound_id));
        es.push(str_member("soundName", &self.sound_name));
        Json::Object(es)
    }
}

/// The JSON of a server sent to the property inspector holds its ID and
/// name, `iconUrl` holds the icon URL (the string when there is one, `null`
/// otherwise), and `icon` the icon hash the same way.
pub proof fn lemma_guild_json_members(g: GuildSummary, j: Json)
    requires
        g.json_spec(j),
    ensures
        as_str_spec(get_spec(j, "id"@)) == Some(g.id@),
        as_str_spec(get_spec(j, "name"@)) == Some(g.name@),
        as_str_spec(get_spec(j, "iconUrl"@)) == opt_view(g.icon_url),
        g.icon_url is None ==> get_spec(j, "iconUrl"@) == Some(Json::Null),
        as_str_spec(get_spec(j, "icon"@)) == opt_view(g.icon),
        g.icon is None ==> get_spec(j, "icon"@) == Some(Json::Null),
{
    reveal_strlit("id");
    reveal_strlit("name");
    reveal_strlit("iconUrl");
    reveal_strlit("icon");
    let es = object_entries(j);
    assert("id"@.len() == 2 && "name"@.len() == 4 && "iconUrl"@.len() == 7 && "icon"@.len() == 4);
    assert("name"@[0] != "icon"@[0]);
    assert("id"@ != "name"@ && "id"@ != "iconUrl"@ && "id"@ != "icon"@);
    assert("name"@ != "iconUrl"@ && "name"@ != "icon"@ && "iconUrl"@ != "icon"@);
    assert(es.drop_first()[0] == es[1]);
    assert(es.drop_first().drop_first()[0] == es[2]);
    assert(es.drop_first().drop_first().drop_first()[0] == es[3]);
    reveal_with_fuel(member, 5);
}

/// Voice (2) and stage (13) channels.
pub open spec fn is_voice_kind(kind: int) -> bool {
    kind == 2 || kind == 13
}

impl ChannelSummary {
    /// Whether the channel is a voice or a stage channel.
    pub fn is_voice_like(&self) -> (b: bool)
        ensures
            b == is_voice_kind(self.kind as int),
            b <==> (self.kind == 2 || self.kind == 13),
    {
        self.kind == 2 || self.kind == 13
    }

    /// The channel as the property inspector receives it.
    pub open spec fn json_spec(&self, j: Json) -> bool {
        j is Object && object_entries(j).len() == 3
            && str_entry("id"@, self.id@, object_entries(j)[0])
            && str_entry("name"@, self.name@, object_entries(j)[1])
            && object_entries(j)[2].0@ == "type"@ && int_json(self.kind as int, object_entries(j)[2].1)
    }

    pub fn to_json(&self) -> (j: Json)
        ensures
            self.json_spec(j),
    {
        let mut es: Vec<(String, Json)> = Vec::new();
        es.push(str_member("id", &self.id));
        es.push(str_member("name", &self.name));
        es.push((String::from_str("type"), i64_json(self.kind)));
        Json::Object(es)
    }
}

} // verus!
