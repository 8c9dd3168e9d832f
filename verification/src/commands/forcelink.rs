//! `forcelink`: link a Discord user to a Minecraft account without asking
//! Hypixel; for the bot's owners only.
use vstd::prelude::*;
use crate::commands::args::{
    ign_user_legacy, ign_user_slash, option_index, parse_ign_user_legacy, parse_ign_user_slash,
    CommandOption,
};
use crate::commands::link::{
    account_error, already_linked_error, already_linked_text_with, broken_text, map_account_error,
    outside_guild_text, role_failed_text, target_of, target_user, too_high_text, LinkAction,
    LinkEvent,
};
use crate::commands::{
    check_owner, is_owner, plain_embed, CommandData, CommandError, CommandErrorView,
    CommandResponseBuilder, MissingRequirement, ResponseView,
};
use crate::database::DatabaseError;
use crate::minecraft::UserIdResponse;
use crate::text::{append_str, owned, signed_decimal, write_i64};

verus! {

/// How the command is used.
pub const USAGE: &'static str = "forcelink => Force link an user to an IGN.\nSyntax: forcelink <ign> [user]\nDetails:\n- <ign max: 16 min: 2>\n  The IGN of the user to force link.\n- [user]\n  The Discord user to force link.";

/// Seconds a user waits between two uses.
pub const COOLDOWN_SECS: u64 = 2;

/// The arguments of `forcelink`.
pub struct Command {
    pub ign: String,
    pub user: Option<u64>,
}

/// Reads the words of a legacy `forcelink`.
pub fn parse_arguments_legacy(args: Vec<String>) -> (r: Result<Command, CommandError>)
    ensures
        match r {
            Ok(c) => ign_user_legacy(args@.map_values(|a: String| a@)) == Ok::<(Seq<char>, Option<u64>), CommandErrorView>((c.ign@, c.user)),
            Err(e) => ign_user_legacy(args@.map_values(|a: String| a@)) == Err::<(Seq<char>, Option<u64>), CommandErrorView>(e@),
        },
{
    match parse_ign_user_legacy(args) {
        Ok((ign, user)) => Ok(Command { ign, user }),
        Err(e) => Err(e),
    }
}

/// Reads the options of a slash `forcelink`.
pub fn parse_arguments_slash(opts: &[CommandOption]) -> (r: Result<Command, CommandError>)
    requires
        option_index(opts@, "ign"@) is Some,
    ensures
        match r {
            Ok(c) => ign_user_slash(opts@) == Ok::<(Seq<char>, Option<u64>), CommandErrorView>((c.ign@, c.user)),
            Err(e) => ign_user_slash(opts@) == Err::<(Seq<char>, Option<u64>), CommandErrorView>(e@),
        },
{
    match parse_ign_user_slash(opts) {
        Ok((ign, user)) => Ok(Command { ign, user }),
        Err(e) => Err(e),
    }
}

/// Only the bot's owners may force a link.
pub fn check_gen_requirements(cmd: &CommandData) -> (r: Result<(), MissingRequirement>)
    requires
        cmd.author_of() is Some,
    ensures
        r is Ok <==> is_owner(cmd.author_of()->0),
        r matches Err(m) ==> m is BotOwnerOnly,
{
    check_owner(cmd)
}

/// What follows the name of a user who is linked already.
pub open spec fn already_linked_tail() -> Seq<char> {
    "`. You can unlink them using `unlink <user>`."@
}

/// The text shown once the link is forced.
pub open spec fn forcelinked_text(user_id: i64, name: Seq<char>, id: Seq<char>) -> Seq<char> {
    "Forcefully linked user <@"@ + signed_decimal(user_id as int) + "> (`"@
        + signed_decimal(user_id as int) + "`) to IGN `"@ + name + "` (`"@ + id + "`)."@
}

/// Where a forced link stands.
pub enum ForceLinkStage {
    /// Waiting for the user's stored link.
    AwaitLinked,
    /// Waiting for the Minecraft account of the name given.
    AwaitAccount,
    /// Waiting for the link to be stored.
    AwaitInsert,
    /// Waiting for the verified role to be given.
    AwaitRole,
    /// Finished.
    Finished,
}

/// A forced link in progress.
pub struct ForceLinkFlow {
    pub user: u64,
    pub user_id: i64,
    pub guild_id: u64,
    pub ign_input: String,
    /// The Minecraft account's name, once known.
    pub name: String,
    /// The Minecraft account's UUID, once known.
    pub uuid: String,
    pub stage: ForceLinkStage,
}

/// A forced link that ended at once with `e`.
fn finished_with(e: CommandError) -> (r: (ForceLinkFlow, LinkAction))
    ensures
        r.0.stage is Finished,
        r.1 == LinkAction::Finish(Err(e)),
{
    (
        ForceLinkFlow {
            user: 0,
            user_id: 0,
            guild_id: 0,
            ign_input: String::new(),
            name: String::new(),
            uuid: String::new(),
            stage: ForceLinkStage::Finished,
        },
        LinkAction::Finish(Err(e)),
    )
}

impl ForceLinkFlow {
    /// Whether `ev` is what the current stage waits for.
    pub open spec fn expects(&self, ev: LinkEvent) -> bool {
        match self.stage {
            ForceLinkStage::AwaitLinked => ev is Linked,
            ForceLinkStage::AwaitAccount => ev is Account,
            ForceLinkStage::AwaitInsert => ev is Inserted,
            ForceLinkStage::AwaitRole => ev is RoleAdded,
            ForceLinkStage::Finished => false,
        }
    }

    /// Starts forcing the link that `cmd` asks for: the user named, else
    /// the author, to the account named in `args`. It ends at once without
    /// a user, with an id the database cannot store, or outside a guild.
    pub fn start(cmd: &CommandData, args: Command) -> (r: (ForceLinkFlow, LinkAction))
        ensures
            target_of(*cmd, args.user) is None ==> r.0.stage is Finished
                && (r.1 matches LinkAction::Finish(Err(e)) && e@ == CommandErrorView::Generic),
            target_of(*cmd, args.user) matches Some(u) ==> if u > i64::MAX {
                r.0.stage is Finished
                    && (r.1 matches LinkAction::Finish(Err(e)) && e@ == CommandErrorView::InvalidArgs(too_high_text()))
            } else if cmd.guild_of() is None {
                r.0.stage is Finished
                    && (r.1 matches LinkAction::Finish(Err(e)) && e@ == CommandErrorView::Specific(outside_guild_text()))
            } else {
                &&& r.0.stage is AwaitLinked
                &&& r.0.user == u
                &&& r.0.user_id == u as i64
                &&& Some(r.0.guild_id) == cmd.guild_of()
                &&& r.0.ign_input@ == args.ign@
                &&& r.1 == LinkAction::FetchLinked(u as i64)
            },
    {
        let Command { ign, user } = args;
        let (target, user_id) = match target_user(cmd, user) {
            Ok(t) => t,
            Err(e) => {
                return finished_with(e);
            },
        };
        let guild_id = match cmd.guild_id() {
            Some(g) => g,
            None => {
                return finished_with(
                    CommandError::Specific(owned("This command cannot be used outside of the guild.")),
                );
            },
        };
        (
            ForceLinkFlow {
                user: target,
                user_id,
                guild_id,
                ign_input: ign,
                name: String::new(),
                uuid: String::new(),
                stage: ForceLinkStage::AwaitLinked,
            },
            LinkAction::FetchLinked(user_id),
        )
    }

    /// Takes in what the last action gave back, and says what comes next.
    pub fn step(&mut self, ev: LinkEvent) -> (a: LinkAction)
        requires
            old(self).expects(ev),
        ensures
            final(self).user == old(self).user,
            final(self).user_id == old(self).user_id,
            final(self).guild_id == old(self).guild_id,
            final(self).ign_input@ == old(self).ign_input@,
            match ev {
                LinkEvent::Linked(Err(_)) => final(self).stage is Finished
                    && (a matches LinkAction::Finish(Err(e)) && e@ == CommandErrorView::Generic),
                LinkEvent::Linked(Ok(None)) => final(self).stage is AwaitAccount
                    && (a matches LinkAction::FetchAccount(n) && n@ == old(self).ign_input@),
                LinkEvent::Linked(Ok(Some(u))) => final(self).stage is Finished
                    && (a matches LinkAction::Finish(Err(e)) && e@ == (match u.ign {
                        None => CommandErrorView::Specific(broken_text()),
                        Some(ign) => CommandErrorView::Specific(
                            already_linked_text_with(old(self).user_id, ign@, already_linked_tail()),
                        ),
                    })),
                LinkEvent::Account(Err(err)) => final(self).stage is Finished
                    && (a matches LinkAction::Finish(Err(e)) && e@ == account_error(err, old(self).ign_input@)),
                LinkEvent::Account(Ok(acc)) => {
                    &&& final(self).stage is AwaitInsert
                    &&& final(self).name@ == acc.name@
                    &&& final(self).uuid@ == acc.id@
                    &&& a matches LinkAction::Insert { user_id, ign, uuid }
                    &&& user_id == old(self).user_id
                    &&& ign@ == acc.name@
                    &&& uuid@ == acc.id@
                },
                LinkEvent::Inserted(n) => if n == Ok::<usize, DatabaseError>(1usize) {
                    final(self).stage is AwaitRole && final(self).name@ == old(self).name@
                        && final(self).uuid@ == old(self).uuid@
                        && a == (LinkAction::AddRole { guild_id: old(self).guild_id, user: old(self).user })
                } else {
                    final(self).stage is Finished
                        && (a matches LinkAction::Finish(Err(e)) && e@ == CommandErrorView::Generic)
                },
                LinkEvent::RoleAdded(ok) => final(self).stage is Finished && (if ok {
                    a matches LinkAction::Finish(Ok(b)) && b@ == (ResponseView {
                        embeds: Some(seq![plain_embed(None, Some(forcelinked_text(old(self).user_id, old(self).name@, old(self).uuid@)))]),
                        content: None,
                        components: None,
                        flags: None,
                    })
                } else {
                    a matches LinkAction::Finish(Err(e)) && e@ == CommandErrorView::Specific(role_failed_text())
                }),
                LinkEvent::Discord(_) => false,
            },
    {
        match ev {
            LinkEvent::Linked(Err(_)) => {
                self.stage = ForceLinkStage::Finished;
                LinkAction::Finish(Err(CommandError::Generic))
            },
            LinkEvent::Linked(Ok(None)) => {
                self.stage = ForceLinkStage::AwaitAccount;
                LinkAction::FetchAccount(self.ign_input.clone())
            },
            LinkEvent::Linked(Ok(Some(u))) => {
                self.stage = ForceLinkStage::Finished;
                LinkAction::Finish(Err(already_linked_error(self.user_id, &u, "`. You can unlink them using `unlink <user>`.")))
            },
            LinkEvent::Account(Err(err)) => {
                self.stage = ForceLinkStage::Finished;
                LinkAction::Finish(Err(map_account_error(err, self.ign_input.as_str())))
            },
            LinkEvent::Account(Ok(acc)) => {
                let UserIdResponse { id, name } = acc;
                self.stage = ForceLinkStage::AwaitInsert;
                let n = name.clone();
                let u = id.clone();
                self.name = name;
                self.uuid = id;
                LinkAction::Insert { user_id: self.user_id, ign: n, uuid: u }
            },
            LinkEvent::Inserted(n) => {
                if matches!(n, Ok(1usize)) {
                    self.stage = ForceLinkStage::AwaitRole;
                    LinkAction::AddRole { guild_id: self.guild_id, user: self.user }
                } else {
                    self.stage = ForceLinkStage::Finished;
                    LinkAction::Finish(Err(CommandError::Generic))
                }
            },
            LinkEvent::RoleAdded(ok) => {
                self.stage = ForceLinkStage::Finished;
                if ok {
                    let mut m = owned("Forcefully linked user <@");
                    write_i64(&mut m, self.user_id);
                    append_str(&mut m, "> (`");
                    write_i64(&mut m, self.user_id);
                    append_str(&mut m, "`) to IGN `");
                    append_str(&mut m, self.name.as_str());
                    append_str(&mut m, "` (`");
                    append_str(&mut m, self.uuid.as_str());
                    append_str(&mut m, "`).");
                    LinkAction::Finish(Ok(CommandResponseBuilder::new().ed(m)))
                } else {
                    LinkAction::Finish(Err(CommandError::Specific(owned("Failed to add the Verified role to the user. Please contact staff."))))
                }
            },
            LinkEvent::Discord(_) => LinkAction::Finish(Err(CommandError::Generic)),
        }
    }
}

} // verus!
