//! The Minecraft and Hypixel side of the bot: names, accounts, guilds, and
//! the rules by which members get their roles and nicknames.
use vstd::prelude::*;
pub mod runs;
pub mod tasks;
pub mod update_laws;
pub mod updates;

use crate::database::DatabaseError;
use crate::text::{append_str, chars_of, owned, utf8_len};

verus! {

/// A Hypixel guild as the API answers for it.
pub struct GuildResponse {
    pub success: bool,
    pub guild: Option<HypixelGuild>,
}

/// The members of a Hypixel guild.
pub struct HypixelGuild {
    pub members: Vec<HypixelGuildMember>,
}

/// A member of a Hypixel guild: the account's UUID and its rank.
pub struct HypixelGuildMember {
    pub uuid: String,
    pub rank: String,
}

/// A Minecraft account: its UUID and its name.
pub struct UserIdResponse {
    pub id: String,
    pub name: String,
}

/// A Hypixel player as the API answers for it.
pub struct LinkedDiscordResponse {
    pub success: bool,
    pub player: Option<LinkedDiscordResponsePlayer>,
}

/// The part of a Hypixel player that the bot reads.
pub struct LinkedDiscordResponsePlayer {
    pub social_media: Option<LinkedDiscordResponsePlayerSocialMedia>,
}

/// A Hypixel player's social media.
pub struct LinkedDiscordResponsePlayerSocialMedia {
    pub links: Option<LinkedDiscordResponsePlayerSocialMediaLinks>,
}

/// A Hypixel player's social media links.
pub struct LinkedDiscordResponsePlayerSocialMediaLinks {
    pub discord: Option<String>,
}

/// Why looking up a Minecraft account failed.
#[derive(Debug)]
pub enum MinecraftUserRequestError {
    /// The status code was neither 200 nor 404.
    BadStatusCode(u16),
    /// The request failed, with what the HTTP client said.
    Reqwest(String),
    /// No account has that name.
    UserNotFound,
    /// The name holds characters that no Minecraft name holds.
    InvalidName,
}

/// Why looking up the Discord account linked on Hypixel failed.
#[derive(Debug)]
pub enum LinkedDiscordRequestError {
    /// The status code was not 200.
    BadStatusCode(u16),
    /// The request failed, with what the HTTP client said.
    Reqwest(String),
    /// Hypixel knows no such player.
    UserNotFound,
    /// The player has no Discord account linked.
    UserNotLinked,
}

/// Why looking up a Hypixel guild failed.
#[derive(Debug)]
pub enum GuildRequestError {
    /// The status code was not 200.
    BadStatusCode(u16),
    /// The request failed, with what the HTTP client said.
    Reqwest(String),
    /// Hypixel knows no such guild.
    GuildNotFound,
}

/// Why fetching the members of the Discord guild failed.
#[derive(Debug)]
pub enum GetGuildMembersError {
    /// The answer could not be read, with what was wrong.
    ModelError(String),
    /// The request failed, with what the HTTP client said.
    HttpError(String),
    /// The guild has too many members.
    TooManyMembers,
}

/// Why computing the role updates failed.
#[derive(Debug)]
pub enum UpdateRolesError {
    GuildRequest(GuildRequestError),
    Database(DatabaseError),
    GetGuildMembers(GetGuildMembersError),
    /// The stored link of this user lacks its name or UUID.
    InvalidDbUser(i64),
}

/// Why updating the members failed.
#[derive(Debug)]
pub enum UpdateUsersError {
    UpdateRoles(UpdateRolesError),
    /// Editing a member failed, with what Discord said.
    UpdateMember(String),
}

/// Why refreshing the stored names failed.
#[derive(Debug)]
pub enum UpdateIgnsError {
    Database(DatabaseError),
    GetGuildMembers(GetGuildMembersError),
    /// The stored link of this user lacks its UUID.
    InvalidDbUser(i64),
    MinecraftUserRequestError(MinecraftUserRequestError),
}

/// Whether `c` is an ASCII letter or digit.
pub open spec fn is_ascii_alnum(c: char) -> bool {
    ('0' <= c <= '9') || ('a' <= c <= 'z') || ('A' <= c <= 'Z')
}

/// A name that may be asked for: ASCII letters, digits and underscores only,
/// and at most 16 bytes.
pub open spec fn valid_username(name: Seq<char>) -> bool {
    (forall|i: int| 0 <= i < name.len() ==> is_ascii_alnum(#[trigger] name[i]) || name[i] == '_')
        && utf8_len(name) <= 16
}

/// A UUID that may be asked for: ASCII letters and digits only, and at most
/// 36 bytes.
pub open spec fn valid_uuid(uuid: Seq<char>) -> bool {
    (forall|i: int| 0 <= i < uuid.len() ==> is_ascii_alnum(#[trigger] uuid[i])) && utf8_len(uuid) <= 36
}

fn ascii_alnum(c: char) -> (b: bool)
    ensures
        b == is_ascii_alnum(c),
{
    ('0' <= c && c <= '9') || ('a' <= c && c <= 'z') || ('A' <= c && c <= 'Z')
}

/// Whether `name` may be asked for as a Minecraft name.
pub fn is_valid_username(name: &str) -> (b: bool)
    ensures
        b == valid_username(name@),
{
    let cs = chars_of(name);
    let mut i: usize = 0;
    while i < cs.len()
        invariant
            cs@ == name@,
            i <= cs@.len(),
            forall|j: int| 0 <= j < i ==> is_ascii_alnum(#[trigger] name@[j]) || name@[j] == '_',
        decreases cs@.len() - i,
    {
        if !(ascii_alnum(cs[i]) || cs[i] == '_') {
            return false;
        }
        i = i + 1;
    }
    name.as_bytes().len() <= 16
}

/// Whether `uuid` may be asked for as a Minecraft UUID.
pub fn is_valid_uuid(uuid: &str) -> (b: bool)
    ensures
        b == valid_uuid(uuid@),
{
    let cs = chars_of(uuid);
    let mut i: usize = 0;
    while i < cs.len()
        invariant
            cs@ == uuid@,
            i <= cs@.len(),
            forall|j: int| 0 <= j < i ==> is_ascii_alnum(#[trigger] uuid@[j]),
        decreases cs@.len() - i,
    {
        if !ascii_alnum(cs[i]) {
            return false;
        }
        i = i + 1;
    }
    uuid.as_bytes().len() <= 36
}

/// The address at which Mojang answers for the account named `name`.
pub fn user_id_url(name: &str) -> (u: String)
    ensures
        u@ == "https://api.mojang.com/users/profiles/minecraft/"@ + name@,
{
    let mut u = owned("https://api.mojang.com/users/profiles/minecraft/");
    append_str(&mut u, name);
    u
}

/// The address at which Mojang answers for the account with UUID `uuid`.
pub fn user_ign_url(uuid: &str) -> (u: String)
    ensures
        u@ == "https://api.minecraftservices.com/minecraft/profile/lookup/"@ + uuid@,
{
    let mut u = owned("https://api.minecraftservices.com/minecraft/profile/lookup/");
    append_str(&mut u, uuid);
    u
}

/// The address at which Hypixel answers for the player with UUID `uuid`.
pub fn player_url(uuid: &str) -> (u: String)
    ensures
        u@ == "https://api.hypixel.net/v2/player?uuid="@ + uuid@,
{
    let mut u = owned("https://api.hypixel.net/v2/player?uuid=");
    append_str(&mut u, uuid);
    u
}

/// The address at which Hypixel answers for the guild named `name`.
pub fn guild_url(name: &str) -> (u: String)
    ensures
        u@ == "https://api.hypixel.net/v2/guild?name="@ + name@,
{
    let mut u = owned("https://api.hypixel.net/v2/guild?name=");
    append_str(&mut u, name);
    u
}

/// What a Mojang status code means: 200 is an answer, 404 no such account,
/// anything else an error.
pub fn profile_status(status: u16) -> (r: Result<(), MinecraftUserRequestError>)
    ensures
        status == 200 <==> r is Ok,
        status == 404 <==> r matches Err(MinecraftUserRequestError::UserNotFound),
        (status != 200 && status != 404) <==> (r matches Err(MinecraftUserRequestError::BadStatusCode(c)) && c == status),
{
    if status == 404 {
        Err(MinecraftUserRequestError::UserNotFound)
    } else if status == 200 {
        Ok(())
    } else {
        Err(MinecraftUserRequestError::BadStatusCode(status))
    }
}

/// The Discord account that a Hypixel player answer names, if any.
pub open spec fn discord_in(r: LinkedDiscordResponse) -> Option<Seq<char>> {
    match r.player {
        Some(p) => match p.social_media {
            Some(sm) => match sm.links {
                Some(l) => l.discord.deep_view(),
                None => None,
            },
            None => None,
        },
        None => None,
    }
}

/// Reads a Hypixel player answer: an unsuccessful answer is an unknown
/// player, else the linked Discord account, if there is one.
pub fn linked_discord_from_response(parsed: LinkedDiscordResponse) -> (r: Result<String, LinkedDiscordRequestError>)
    ensures
        !parsed.success <==> r matches Err(LinkedDiscordRequestError::UserNotFound),
        parsed.success && discord_in(parsed) is None <==> r matches Err(LinkedDiscordRequestError::UserNotLinked),
        r matches Ok(d) ==> parsed.success && discord_in(parsed) == Some(d@),
        r is Ok || r matches Err(LinkedDiscordRequestError::UserNotFound) || r matches Err(LinkedDiscordRequestError::UserNotLinked),
{
    if !parsed.success {
        return Err(LinkedDiscordRequestError::UserNotFound);
    }
    let discord = match parsed.player {
        Some(p) => match p.social_media {
            Some(sm) => match sm.links {
                Some(l) => l.discord,
                None => None,
            },
            None => None,
        },
        None => None,
    };
    match discord {
        Some(d) => Ok(d),
        None => Err(LinkedDiscordRequestError::UserNotLinked),
    }
}

/// Reads a Hypixel guild answer: the guild, unless the answer is
/// unsuccessful or names no guild.
pub fn guild_from_response(parsed: GuildResponse) -> (r: Result<HypixelGuild, GuildRequestError>)
    ensures
        (parsed.success && parsed.guild is Some) <==> r is Ok,
        r matches Ok(g) ==> parsed.guild == Some(g),
        r matches Err(e) ==> e is GuildNotFound,
{
    if !parsed.success {
        return Err(GuildRequestError::GuildNotFound);
    }
    match parsed.guild {
        Some(g) => Ok(g),
        None => Err(GuildRequestError::GuildNotFound),
    }
}


/// Whether `c` is an ASCII letter, from `a` to `z` or `A` to `Z`, or an
/// ASCII digit, from `0` to `9`.
pub open spec fn letter_or_digit(c: char) -> bool {
    ('a' <= c && c <= 'z') || ('A' <= c && c <= 'Z') || ('0' <= c && c <= '9')
}

proof fn lemma_ascii_utf8_len(s: Seq<char>)
    requires
        forall|i: int| 0 <= i < s.len() ==> (#[trigger] s[i] as u32) < 0x80,
    ensures
        utf8_len(s) == s.len(),
    decreases s.len(),
{
    if s.len() > 0 {
        assert(forall|i: int| 0 <= i < s.drop_first().len() ==> #[trigger] s.drop_first()[i] == s[i + 1]);
        lemma_ascii_utf8_len(s.drop_first());
        assert(vstd::utf8::has_width_1_encoding(s[0] as u32));
    }
}

/// A name may be asked for exactly when it has at most 16 characters, each
/// an ASCII letter, an ASCII digit or an underscore.
pub proof fn law_valid_username_chars(name: Seq<char>)
    ensures
        valid_username(name) <==> (name.len() <= 16 && forall|i: int|
            0 <= i < name.len() ==> letter_or_digit(#[trigger] name[i]) || name[i] == '_'),
{
    if forall|i: int| 0 <= i < name.len() ==> letter_or_digit(#[trigger] name[i]) || name[i] == '_' {
        assert forall|i: int| 0 <= i < name.len() implies (#[trigger] name[i] as u32) < 0x80 by {
            assert(letter_or_digit(name[i]) || name[i] == '_');
        }
        lemma_ascii_utf8_len(name);
    }
    if valid_username(name) {
        assert forall|i: int| 0 <= i < name.len() implies letter_or_digit(#[trigger] name[i]) || name[i] == '_' by {
            assert(is_ascii_alnum(name[i]) || name[i] == '_');
        }
        assert forall|i: int| 0 <= i < name.len() implies (#[trigger] name[i] as u32) < 0x80 by {
            assert(is_ascii_alnum(name[i]) || name[i] == '_');
        }
        lemma_ascii_utf8_len(name);
    }
}

/// A UUID may be asked for exactly when it has at most 36 characters, each
/// an ASCII letter or an ASCII digit.
pub proof fn law_valid_uuid_chars(uuid: Seq<char>)
    ensures
        valid_uuid(uuid) <==> (uuid.len() <= 36 && forall|i: int|
            0 <= i < uuid.len() ==> letter_or_digit(#[trigger] uuid[i])),
{
    if forall|i: int| 0 <= i < uuid.len() ==> letter_or_digit(#[trigger] uuid[i]) {
        assert forall|i: int| 0 <= i < uuid.len() implies (#[trigger] uuid[i] as u32) < 0x80 by {
            assert(letter_or_digit(uuid[i]));
        }
        lemma_ascii_utf8_len(uuid);
    }
    if valid_uuid(uuid) {
        assert forall|i: int| 0 <= i < uuid.len() implies letter_or_digit(#[trigger] uuid[i]) by {
            assert(is_ascii_alnum(uuid[i]));
        }
        assert forall|i: int| 0 <= i < uuid.len() implies (#[trigger] uuid[i] as u32) < 0x80 by {
            assert(is_ascii_alnum(uuid[i]));
        }
        lemma_ascii_utf8_len(uuid);
    }
}

} // verus!
