//! `link`: link a Discord user to a Minecraft account, once Hypixel confirms
//! that the account names the user's Discord username.
use vstd::prelude::*;
use crate::commands::args::{
    ign_user_legacy, ign_user_slash, option_index, parse_ign_user_legacy, parse_ign_user_slash,
    CommandOption,
};
use crate::commands::{
    check_other_user, plain_embed, CommandData, CommandError, CommandErrorView,
    CommandResponseBuilder, MissingRequirement, ResponseView,
};
use crate::minecraft::{LinkedDiscordRequestError, MinecraftUserRequestError, UserIdResponse};
use crate::database::DatabaseError;
use crate::models::User;
use crate::text::{append_str, decimal, owned, signed_decimal, text_eq, write_i64};

verus! {

/// How the command is used.
pub const USAGE: &'static str = "link => Link an user to an IGN.\nSyntax: link <ign> [user]\nDetails:\n- <ign max: 16 min: 2>\n  The IGN to link to.\n- [user]\n  The Discord user to link. Requires staff.";

/// Seconds a user waits between two uses.
pub const COOLDOWN_SECS: u64 = 2;

/// The arguments of `link`.
pub struct Command {
    pub ign: String,
    pub user: Option<u64>,
}

/// Reads the words of a legacy `link`.
pub fn parse_arguments_legacy(args: Vec<String>) -> (r: Result<Command, CommandError>)
    ensures
        match r {
            Ok(c) => ign_user_legacy(args@.map_values(|a: String| a@)) == Ok::<(Seq<char>, Option<u64>), CommandErrorView>((c.ign@, c.user)),
            Err(e) => ign_user_legacy(args@.map_values(|a: String| a@)) == Err::<(Seq<char>, Option<u64>), CommandErrorView>(e@),
        },
{
    match parse_ign_user_legacy(args) {
        Ok((ign, user)) => Ok(Command { ign, user }),
        Err(e) => Err(e),
    }
}

/// Reads the options of a slash `link`.
pub fn parse_arguments_slash(opts: &[CommandOption]) -> (r: Result<Command, CommandError>)
    requires
        option_index(opts@, "ign"@) is Some,
    ensures
        match r {
            Ok(c) => ign_user_slash(opts@) == Ok::<(Seq<char>, Option<u64>), CommandErrorView>((c.ign@, c.user)),
            Err(e) => ign_user_slash(opts@) == Err::<(Seq<char>, Option<u64>), CommandErrorView>(e@),
        },
{
    match parse_ign_user_slash(opts) {
        Ok((ign, user)) => Ok(Command { ign, user }),
        Err(e) => Err(e),
    }
}

/// Only the bot's owners may link someone else.
pub fn check_requirements(cmd: &CommandData, args: &Command) -> (r: Result<(), MissingRequirement>)
    requires
        args.user is Some ==> cmd.author_of() is Some,
    ensures
        r is Ok <==> (args.user is None || args.user == cmd.author_of() || crate::commands::is_owner(cmd.author_of()->0)),
        r matches Err(m) ==> m matches MissingRequirement::General(t) && t@ == "You don't have the required permission to link someone else."@,
{
    check_other_user(cmd, args.user, "You don't have the required permission to link someone else.")
}

/// "The user id you provided is too high."
pub open spec fn too_high_text() -> Seq<char> {
    "The user id you provided is too high."@
}

/// "This command cannot be used outside of the guild."
pub open spec fn outside_guild_text() -> Seq<char> {
    "This command cannot be used outside of the guild."@
}

/// The text shown where a stored link lacks its name or UUID.
pub open spec fn broken_text() -> Seq<char> {
    "Your linking status seems to be broken. Please use `unlink` and notify staff."@
}

/// The id of a Discord user as the database stores it, if it fits.
pub fn user_id_to_i64(user: u64) -> (r: Result<i64, CommandError>)
    ensures
        user <= i64::MAX ==> r == Ok::<i64, CommandError>(user as i64),
        user > i64::MAX ==> (r matches Err(e) && e@ == CommandErrorView::InvalidArgs(too_high_text())),
{
    if user > 9223372036854775807u64 {
        Err(CommandError::InvalidArgs(owned("The user id you provided is too high.")))
    } else {
        Ok(user as i64)
    }
}

/// The user a command is about where it names one, else its author.
pub open spec fn target_of(cmd: CommandData, user: Option<u64>) -> Option<u64> {
    match user {
        Some(u) => Some(u),
        None => cmd.author_of(),
    }
}

/// Whom a command is about: the user named, else its author, together with
/// the id under which the database stores that user. A command without an
/// author is an unexpected error, and an id that the database cannot store
/// an invalid argument.
pub fn target_user(cmd: &CommandData, user: Option<u64>) -> (r: Result<(u64, i64), CommandError>)
    ensures
        target_of(*cmd, user) is None ==> (r matches Err(e) && e@ == CommandErrorView::Generic),
        target_of(*cmd, user) matches Some(u) ==> if u <= i64::MAX {
            r == Ok::<(u64, i64), CommandError>((u, u as i64))
        } else {
            r matches Err(e) && e@ == CommandErrorView::InvalidArgs(too_high_text())
        },
{
    let target = match user {
        Some(u) => u,
        None => match cmd.author_id() {
            Some(a) => a,
            None => {
                return Err(CommandError::Generic);
            },
        },
    };
    match user_id_to_i64(target) {
        Ok(id) => Ok((target, id)),
        Err(e) => Err(e),
    }
}

/// Who is to be linked: the Discord user, the id the database stores, the
/// guild, and the user's name where the user links themself.
pub struct LinkTarget {
    pub user: u64,
    pub user_id: i64,
    pub guild_id: u64,
    pub own_name: Option<String>,
}

/// Whom a `link` is about: the user named, else its author. The author's
/// own name is known where they link themself; the name of anyone else is
/// looked up.
pub fn resolve_target(cmd: &CommandData, args: &Command) -> (r: Result<LinkTarget, CommandError>)
    requires
        cmd matches CommandData::ChatInput { author_id, user_name, .. } ==> (author_id is Some && (args.user is None || args.user == author_id) ==> user_name is Some),
    ensures
        cmd.author_of() is None ==> (r matches Err(e) && e@ == CommandErrorView::Generic),
        cmd.author_of() matches Some(a) ==> {
            let target = match args.user {
                Some(u) => u,
                None => a,
            };
            if target > i64::MAX {
                r matches Err(e) && e@ == CommandErrorView::InvalidArgs(too_high_text())
            } else if cmd.guild_of() is None {
                r matches Err(e) && e@ == CommandErrorView::Specific(outside_guild_text())
            } else {
                r matches Ok(t) && t.user == target && t.user_id == target as i64 && Some(t.guild_id) == cmd.guild_of()
                    && (target == a <==> t.own_name is Some)
                    && (t.own_name matches Some(n) ==> match cmd {
                        CommandData::Legacy { author_name, .. } => n@ == author_name@,
                        CommandData::ChatInput { user_name, .. } => user_name.deep_view() == Some(n@),
                    })
            }
        },
{
    let sender = match cmd.author_id() {
        Some(s) => s,
        None => {
            return Err(CommandError::Generic);
        },
    };
    let target = match args.user {
        Some(u) => u,
        None => sender,
    };
    let user_id = match user_id_to_i64(target) {
        Ok(id) => id,
        Err(e) => {
            return Err(e);
        },
    };
    let guild_id = match cmd.guild_id() {
        Some(g) => g,
        None => {
            return Err(CommandError::Specific(owned("This command cannot be used outside of the guild.")));
        },
    };
    let own_name = if sender == target {
        match cmd {
            CommandData::ChatInput { user_name, .. } => match user_name {
                Some(n) => Some(n.clone()),
                None => None,
            },
            CommandData::Legacy { author_name, .. } => Some(author_name.clone()),
        }
    } else {
        None
    };
    Ok(LinkTarget { user: target, user_id, guild_id, own_name })
}

/// "An user with id `...` doesn't seem to exist."
pub fn unknown_user_error(user_id: i64) -> (e: CommandError)
    ensures
        e@ == CommandErrorView::Specific("An user with id `"@ + signed_decimal(user_id as int) + "` doesn't seem to exist."@),
{
    let mut m = owned("An user with id `");
    write_i64(&mut m, user_id);
    append_str(&mut m, "` doesn't seem to exist.");
    CommandError::Specific(m)
}

/// The text that shows how to link a Discord account on Hypixel.
pub open spec fn steps_text() -> Seq<char> {
    "**1.** Log on Hypixel and go to a lobby using `/lobby`. Ensure you are in the `ALL` chat by running `/chat a`.\n**2.** Run the `/profile` command and click on the `Social Media` item (third row, fourth column).\n**3.** Left click on the `Discord` item and type your Discord username in chat (it won't send it).\n**4.** Close the menu that Hypixel re-opened.\n**5.** Come back here and run the `link` command again."@
}

/// The text shown where the user is linked already to `ign`, ending with `tail`.
pub open spec fn already_linked_text_with(user_id: i64, ign: Seq<char>, tail: Seq<char>) -> Seq<char> {
    "The user <@"@ + signed_decimal(user_id as int) + "> (`"@ + signed_decimal(user_id as int)
        + "`) is already linked to `"@ + ign + tail
}

/// The text shown where the user is linked already.
pub open spec fn already_linked_text(user_id: i64, ign: Seq<char>) -> Seq<char> {
    already_linked_text_with(
        user_id,
        ign,
        "`. You can unlink with `unlink`. Unlinking is required to link to a different IGN."@,
    )
}

/// The text shown where a name holds characters no Minecraft name holds.
pub open spec fn invalid_name_text() -> Seq<char> {
    "The name you provided contains characters that are not valid in a Minecraft username."@
}

/// The text shown where no Minecraft account has the name.
pub open spec fn no_such_account_text(ign: Seq<char>) -> Seq<char> {
    "There doesn't seem to exist a Minecraft user with the name `"@ + ign + "`."@
}

/// The text shown where Hypixel knows no such player.
pub open spec fn never_played_text(name: Seq<char>, id: Seq<char>) -> Seq<char> {
    "The Minecraft user `"@ + name + "` (`"@ + id + "`) seems to have never played on Hypixel."@
}

/// The text shown where the player has no Discord account linked on Hypixel.
pub open spec fn not_linked_text(name: Seq<char>, id: Seq<char>) -> Seq<char> {
    "The Hypixel player `"@ + name + "` (`"@ + id
        + "`) doesn't have their Discord account linked on the Hypixel server.\n\n> **Steps to link:**\n"@
        + steps_text()
}

/// The text shown where the account linked on Hypixel is another one.
pub open spec fn mismatch_text(username: Seq<char>, linked: Seq<char>) -> Seq<char> {
    "The username linked on Hypixel and your current Discord username don't seem to match.\n**Your Username:** `"@
        + username + "`\n**Username linked on Hypixel:** `"@ + linked
        + "`\n\n> **Please update the username on Hypixel:**\n"@ + steps_text()
}

/// The text shown where the verified role could not be given.
pub open spec fn role_failed_text() -> Seq<char> {
    "Failed to add the Verified role to the user. Please contact staff."@
}

/// The text shown once the link is made.
pub open spec fn linked_text(user_id: i64, name: Seq<char>, id: Seq<char>) -> Seq<char> {
    "Linked user <@"@ + signed_decimal(user_id as int) + "> (`"@ + signed_decimal(user_id as int)
        + "`) to IGN `"@ + name + "` (`"@ + id + "`)!"@
}

/// The error that a failed account lookup becomes.
pub open spec fn account_error(e: MinecraftUserRequestError, ign: Seq<char>) -> CommandErrorView {
    match e {
        MinecraftUserRequestError::InvalidName => CommandErrorView::Specific(invalid_name_text()),
        MinecraftUserRequestError::UserNotFound => CommandErrorView::Specific(no_such_account_text(ign)),
        _ => CommandErrorView::Generic,
    }
}

/// The error that a failed account lookup becomes.
pub fn map_account_error(e: MinecraftUserRequestError, ign: &str) -> (r: CommandError)
    ensures
        r@ == account_error(e, ign@),
{
    match e {
        MinecraftUserRequestError::InvalidName => CommandError::Specific(
            owned("The name you provided contains characters that are not valid in a Minecraft username."),
        ),
        MinecraftUserRequestError::UserNotFound => {
            let mut m = owned("There doesn't seem to exist a Minecraft user with the name `");
            append_str(&mut m, ign);
            append_str(&mut m, "`.");
            CommandError::Specific(m)
        },
        _ => CommandError::Generic,
    }
}

/// The error that a failed Hypixel lookup becomes.
pub open spec fn discord_error(e: LinkedDiscordRequestError, name: Seq<char>, id: Seq<char>) -> CommandErrorView {
    match e {
        LinkedDiscordRequestError::UserNotFound => CommandErrorView::Specific(never_played_text(name, id)),
        LinkedDiscordRequestError::UserNotLinked => CommandErrorView::Specific(not_linked_text(name, id)),
        _ => CommandErrorView::Generic,
    }
}

fn push_steps(m: &mut String)
    ensures
        final(m)@ == old(m)@ + steps_text(),
{
    append_str(m, "**1.** Log on Hypixel and go to a lobby using `/lobby`. Ensure you are in the `ALL` chat by running `/chat a`.\n**2.** Run the `/profile` command and click on the `Social Media` item (third row, fourth column).\n**3.** Left click on the `Discord` item and type your Discord username in chat (it won't send it).\n**4.** Close the menu that Hypixel re-opened.\n**5.** Come back here and run the `link` command again.");
}

/// The error that a failed Hypixel lookup becomes.
pub fn map_discord_error(e: LinkedDiscordRequestError, name: &str, id: &str) -> (r: CommandError)
    ensures
        r@ == discord_error(e, name@, id@),
{
    match e {
        LinkedDiscordRequestError::UserNotFound => {
            let mut m = owned("The Minecraft user `");
            append_str(&mut m, name);
            append_str(&mut m, "` (`");
            append_str(&mut m, id);
            append_str(&mut m, "`) seems to have never played on Hypixel.");
            CommandError::Specific(m)
        },
        LinkedDiscordRequestError::UserNotLinked => {
            let mut m = owned("The Hypixel player `");
            append_str(&mut m, name);
            append_str(&mut m, "` (`");
            append_str(&mut m, id);
            append_str(&mut m, "`) doesn't have their Discord account linked on the Hypixel server.\n\n> **Steps to link:**\n");
            push_steps(&mut m);
            CommandError::Specific(m)
        },
        _ => CommandError::Generic,
    }
}

/// The error for a user who is linked already, where the link is complete.
pub fn already_linked_error(user_id: i64, user: &User, text_tail: &str) -> (r: CommandError)
    ensures
        user.ign is None ==> r@ == CommandErrorView::Specific(broken_text()),
        user.ign matches Some(ign) ==> r@ == CommandErrorView::Specific(
            already_linked_text_with(user_id, ign@, text_tail@),
        ),
{
    match &user.ign {
        None => CommandError::Specific(owned("Your linking status seems to be broken. Please use `unlink` and notify staff.")),
        Some(ign) => {
            let mut m = owned("The user <@");
            write_i64(&mut m, user_id);
            append_str(&mut m, "> (`");
            write_i64(&mut m, user_id);
            append_str(&mut m, "`) is already linked to `");
            append_str(&mut m, ign.as_str());
            append_str(&mut m, text_tail);
            CommandError::Specific(m)
        },
    }
}

/// Where a link in progress stands.
pub enum LinkStage {
    /// Waiting for the user's stored link.
    AwaitLinked,
    /// Waiting for the Minecraft account of the name given.
    AwaitAccount,
    /// Waiting for the Discord account linked on Hypixel.
    AwaitDiscord,
    /// Waiting for the link to be stored.
    AwaitInsert,
    /// Waiting for the verified role to be given.
    AwaitRole,
    /// Finished.
    Finished,
}

/// What the link asks for next.
pub enum LinkAction {
    /// Look up the stored link of this user.
    FetchLinked(i64),
    /// Look up the Minecraft account with this name.
    FetchAccount(String),
    /// Look up the Discord account linked on Hypixel to this UUID.
    FetchDiscord(String),
    /// Store this link.
    Insert { user_id: i64, ign: String, uuid: String },
    /// Give this user the verified role in this guild.
    AddRole { guild_id: u64, user: u64 },
    /// Finished, with the answer.
    Finish(Result<CommandResponseBuilder, CommandError>),
}

/// What came back from the last action.
pub enum LinkEvent {
    /// The stored link of the user, if any.
    Linked(Result<Option<User>, DatabaseError>),
    /// The Minecraft account looked up.
    Account(Result<UserIdResponse, MinecraftUserRequestError>),
    /// The Discord account linked on Hypixel.
    Discord(Result<String, LinkedDiscordRequestError>),
    /// How many rows were stored.
    Inserted(Result<usize, DatabaseError>),
    /// Whether the role was given.
    RoleAdded(bool),
}

/// A link in progress.
pub struct LinkFlow {
    pub user: u64,
    pub user_id: i64,
    pub guild_id: u64,
    pub ign_input: String,
    pub username: String,
    /// The Minecraft account's name, once known.
    pub name: String,
    /// The Minecraft account's UUID, once known.
    pub uuid: String,
    /// The Discord account that Hypixel names for the account, once known.
    pub linked_discord: String,
    pub stage: LinkStage,
}

impl LinkFlow {
    /// What every link in progress keeps: it stores a link, and gives the
    /// role, only once Hypixel has named the user's Discord username for the
    /// account.
    pub open spec fn wf(&self) -> bool {
        (self.stage is AwaitInsert || self.stage is AwaitRole) ==> self.linked_discord@ == self.username@
    }

    /// Whether `ev` is what the current stage waits for.
    pub open spec fn expects(&self, ev: LinkEvent) -> bool {
        match self.stage {
            LinkStage::AwaitLinked => ev is Linked,
            LinkStage::AwaitAccount => ev is Account,
            LinkStage::AwaitDiscord => ev is Discord,
            LinkStage::AwaitInsert => ev is Inserted,
            LinkStage::AwaitRole => ev is RoleAdded,
            LinkStage::Finished => false,
        }
    }

    /// Starts linking `user` in `guild_id` to the account named `ign_input`,
    /// where the user's Discord username is `username`. A user id that the
    /// database cannot store ends it at once.
    pub fn start(user: u64, guild_id: u64, ign_input: String, username: String) -> (r: (LinkFlow, LinkAction))
        ensures
            r.0.wf(),
            r.0.user == user,
            r.0.guild_id == guild_id,
            r.0.ign_input@ == ign_input@,
            r.0.username@ == username@,
            user > i64::MAX ==> r.0.stage is Finished && (r.1 matches LinkAction::Finish(Err(e)) && e@ == CommandErrorView::InvalidArgs(too_high_text())),
            user <= i64::MAX ==> r.0.stage is AwaitLinked && r.0.user_id == user as i64 && r.1 == LinkAction::FetchLinked(user as i64),
    {
        let (user_id, stage, action) = match user_id_to_i64(user) {
            Ok(id) => (id, LinkStage::AwaitLinked, LinkAction::FetchLinked(id)),
            Err(e) => (0, LinkStage::Finished, LinkAction::Finish(Err(e))),
        };
        (
            LinkFlow {
                user,
                user_id,
                guild_id,
                ign_input,
                username,
                name: String::new(),
                uuid: String::new(),
                linked_discord: String::new(),
                stage,
            },
            action,
        )
    }

    /// Takes in what the last action gave back, and says what comes next.
    pub fn step(&mut self, ev: LinkEvent) -> (a: LinkAction)
        requires
            old(self).wf(),
            old(self).expects(ev),
        ensures
            final(self).wf(),
            final(self).user == old(self).user,
            final(self).user_id == old(self).user_id,
            final(self).guild_id == old(self).guild_id,
            final(self).username@ == old(self).username@,
            final(self).ign_input@ == old(self).ign_input@,
            match ev {
                LinkEvent::Linked(Err(_)) => final(self).stage is Finished
                    && (a matches LinkAction::Finish(Err(e)) && e@ == CommandErrorView::Generic),
                LinkEvent::Linked(Ok(None)) => final(self).stage is AwaitAccount
                    && (a matches LinkAction::FetchAccount(n) && n@ == old(self).ign_input@),
                LinkEvent::Linked(Ok(Some(u))) => final(self).stage is Finished
                    && (a matches LinkAction::Finish(Err(e)) && e@ == (match u.ign {
                        None => CommandErrorView::Specific(broken_text()),
                        Some(ign) => CommandErrorView::Specific(already_linked_text(old(self).user_id, ign@)),
                    })),
                LinkEvent::Account(Err(err)) => final(self).stage is Finished
                    && (a matches LinkAction::Finish(Err(e)) && e@ == account_error(err, old(self).ign_input@)),
                LinkEvent::Account(Ok(acc)) => final(self).stage is AwaitDiscord
                    && final(self).name@ == acc.name@ && final(self).uuid@ == acc.id@
                    && (a matches LinkAction::FetchDiscord(u) && u@ == acc.id@),
                LinkEvent::Discord(Err(err)) => final(self).stage is Finished
                    && (a matches LinkAction::Finish(Err(e)) && e@ == discord_error(err, old(self).name@, old(self).uuid@)),
                LinkEvent::Discord(Ok(d)) => if d@ == old(self).username@ {
                    final(self).stage is AwaitInsert && final(self).linked_discord@ == d@
                        && final(self).name@ == old(self).name@ && final(self).uuid@ == old(self).uuid@
                        && (a matches LinkAction::Insert { user_id, ign, uuid }
                        && user_id == old(self).user_id && ign@ == old(self).name@ && uuid@ == old(self).uuid@)
                } else {
                    final(self).stage is Finished
                        && (a matches LinkAction::Finish(Err(e)) && e@ == CommandErrorView::Specific(mismatch_text(old(self).username@, d@)))
                },
                LinkEvent::Inserted(n) => if n == Ok::<usize, DatabaseError>(1usize) {
                    final(self).stage is AwaitRole && final(self).name@ == old(self).name@ && final(self).uuid@ == old(self).uuid@
                        && a == (LinkAction::AddRole { guild_id: old(self).guild_id, user: old(self).user })
                } else {
                    final(self).stage is Finished && (a matches LinkAction::Finish(Err(e)) && e@ == CommandErrorView::Generic)
                },
                LinkEvent::RoleAdded(ok) => final(self).stage is Finished && (if ok {
                    a matches LinkAction::Finish(Ok(b)) && b@ == (ResponseView {
                        embeds: Some(seq![plain_embed(None, Some(linked_text(old(self).user_id, old(self).name@, old(self).uuid@)))]),
                        content: None,
                        components: None,
                        flags: None,
                    })
                } else {
                    a matches LinkAction::Finish(Err(e)) && e@ == CommandErrorView::Specific(role_failed_text())
                }),
            },
    {
        match ev {
            LinkEvent::Linked(Err(_)) => {
                self.stage = LinkStage::Finished;
                LinkAction::Finish(Err(CommandError::Generic))
            },
            LinkEvent::Linked(Ok(None)) => {
                self.stage = LinkStage::AwaitAccount;
                LinkAction::FetchAccount(self.ign_input.clone())
            },
            LinkEvent::Linked(Ok(Some(u))) => {
                self.stage = LinkStage::Finished;
                LinkAction::Finish(Err(already_linked_error(self.user_id, &u, "`. You can unlink with `unlink`. Unlinking is required to link to a different IGN.")))
            },
            LinkEvent::Account(Err(err)) => {
                self.stage = LinkStage::Finished;
                LinkAction::Finish(Err(map_account_error(err, self.ign_input.as_str())))
            },
            LinkEvent::Account(Ok(acc)) => {
                let UserIdResponse { id, name } = acc;
                self.stage = LinkStage::AwaitDiscord;
                self.name = name;
                let u = id.clone();
                self.uuid = id;
                LinkAction::FetchDiscord(u)
            },
            LinkEvent::Discord(Err(err)) => {
                self.stage = LinkStage::Finished;
                LinkAction::Finish(Err(map_discord_error(err, self.name.as_str(), self.uuid.as_str())))
            },
            LinkEvent::Discord(Ok(d)) => {
                if text_eq(self.username.as_str(), d.as_str()) {
                    self.stage = LinkStage::AwaitInsert;
                    self.linked_discord = d;
                    LinkAction::Insert { user_id: self.user_id, ign: self.name.clone(), uuid: self.uuid.clone() }
                } else {
                    self.stage = LinkStage::Finished;
                    let mut m = owned("The username linked on Hypixel and your current Discord username don't seem to match.\n**Your Username:** `");
                    append_str(&mut m, self.username.as_str());
                    append_str(&mut m, "`\n**Username linked on Hypixel:** `");
                    append_str(&mut m, d.as_str());
                    append_str(&mut m, "`\n\n> **Please update the username on Hypixel:**\n");
                    push_steps(&mut m);
                    LinkAction::Finish(Err(CommandError::Specific(m)))
                }
            },
            LinkEvent::Inserted(n) => {
                if matches!(n, Ok(1usize)) {
                    self.stage = LinkStage::AwaitRole;
                    LinkAction::AddRole { guild_id: self.guild_id, user: self.user }
                } else {
                    self.stage = LinkStage::Finished;
                    LinkAction::Finish(Err(CommandError::Generic))
                }
            },
            LinkEvent::RoleAdded(ok) => {
                self.stage = LinkStage::Finished;
                if ok {
                    let mut m = owned("Linked user <@");
                    write_i64(&mut m, self.user_id);
                    append_str(&mut m, "> (`");
                    write_i64(&mut m, self.user_id);
                    append_str(&mut m, "`) to IGN `");
                    append_str(&mut m, self.name.as_str());
                    append_str(&mut m, "` (`");
                    append_str(&mut m, self.uuid.as_str());
                    append_str(&mut m, "`)!");
                    LinkAction::Finish(Ok(CommandResponseBuilder::new().ed(m)))
                } else {
                    LinkAction::Finish(Err(CommandError::Specific(owned("Failed to add the Verified role to the user. Please contact staff."))))
                }
            },
        }
    }
}

} // verus!
