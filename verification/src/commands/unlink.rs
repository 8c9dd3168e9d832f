//! `unlink`: remove the link of a Discord user, and its verified role.
use vstd::prelude::*;
use crate::commands::args::{parse_user_legacy, parse_user_slash, user_legacy, user_slash, CommandOption};
use crate::commands::link::{outside_guild_text, target_of, target_user, too_high_text};
use crate::commands::{
    check_other_user, is_owner, plain_embed, CommandData, CommandError, CommandErrorView,
    CommandResponseBuilder, MissingRequirement, ResponseView,
};
use crate::database::DatabaseError;
use crate::models::User;
use crate::text::{append_str, owned, signed_decimal, write_i64};

verus! {

/// How the command is used.
pub const USAGE: &'static str = "unlink => Unlink your IGN from your user.\nSyntax: unlink [user]\nDetails:\n- [user]\n  The Discord user to unlink. Requires staff.";

/// Seconds a user waits between two uses.
pub const COOLDOWN_SECS: u64 = 2;

/// The arguments of `unlink`.
pub struct Command {
    pub user: Option<u64>,
}

/// Reads the words of a legacy `unlink`.
pub fn parse_arguments_legacy(args: Vec<String>) -> (r: Result<Command, CommandError>)
    ensures
        match r {
            Ok(c) => user_legacy(args@.map_values(|a: String| a@)) == Ok::<Option<u64>, CommandErrorView>(c.user),
            Err(e) => user_legacy(args@.map_values(|a: String| a@)) == Err::<Option<u64>, CommandErrorView>(e@),
        },
{
    match parse_user_legacy(args) {
        Ok(user) => Ok(Command { user }),
        Err(e) => Err(e),
    }
}

/// Reads the options of a slash `unlink`.
pub fn parse_arguments_slash(opts: &[CommandOption]) -> (r: Result<Command, CommandError>)
    ensures
        match r {
            Ok(c) => user_slash(opts@) == Ok::<Option<u64>, CommandErrorView>(c.user),
            Err(e) => user_slash(opts@) == Err::<Option<u64>, CommandErrorView>(e@),
        },
{
    match parse_user_slash(opts) {
        Ok(user) => Ok(Command { user }),
        Err(e) => Err(e),
    }
}

/// Only the bot's owners may unlink someone else.
pub fn check_requirements(cmd: &CommandData, args: &Command) -> (r: Result<(), MissingRequirement>)
    requires
        args.user is Some ==> cmd.author_of() is Some,
    ensures
        r is Ok <==> (args.user is None || args.user == cmd.author_of() || is_owner(cmd.author_of()->0)),
        r matches Err(m) ==> m matches MissingRequirement::General(t)
            && t@ == "You don't have the required permission to unlink someone else."@,
{
    check_other_user(cmd, args.user, "You don't have the required permission to unlink someone else.")
}

/// The text shown to a user who is not linked.
pub open spec fn not_linked_text() -> Seq<char> {
    "You are not linked! Run `link` to link your IGN to your user. This command is to unlink someone who is already linked."@
}

/// The text shown where the verified role could not be taken away.
pub open spec fn role_removal_failed_text() -> Seq<char> {
    "Failed to remove the Verified role from the user. Please contact staff."@
}

/// The text shown once the link is removed.
pub open spec fn unlinked_text(user_id: i64) -> Seq<char> {
    "<@"@ + signed_decimal(user_id as int) + "> (`"@ + signed_decimal(user_id as int)
        + "`) has been successfully unlinked!"@
}

/// Where an unlink stands.
pub enum UnlinkStage {
    /// Waiting for the user's stored link.
    AwaitLinked,
    /// Waiting for the link to be deleted.
    AwaitDelete,
    /// Waiting for the verified role to be taken away.
    AwaitRole,
    /// Finished.
    Finished,
}

/// What the unlink asks for next.
pub enum UnlinkAction {
    /// Look up the stored link of this user.
    FetchLinked(i64),
    /// Delete the stored link of this user.
    Delete(i64),
    /// Take the verified role from this user in this guild.
    RemoveRole { guild_id: u64, user: u64 },
    /// Finished, with the answer.
    Finish(Result<CommandResponseBuilder, CommandError>),
}

/// What came back from the last action.
pub enum UnlinkEvent {
    /// The stored link of the user, if any.
    Linked(Result<Option<User>, DatabaseError>),
    /// How many rows were deleted.
    Deleted(Result<usize, DatabaseError>),
    /// Whether the role was taken away.
    RoleRemoved(bool),
}

/// An unlink in progress.
pub struct UnlinkFlow {
    pub user: u64,
    pub user_id: i64,
    pub guild_id: u64,
    pub stage: UnlinkStage,
}

/// An unlink that ended at once with `e`.
fn finished_with(e: CommandError) -> (r: (UnlinkFlow, UnlinkAction))
    ensures
        r.0.stage is Finished,
        r.1 == UnlinkAction::Finish(Err(e)),
{
    (UnlinkFlow { user: 0, user_id: 0, guild_id: 0, stage: UnlinkStage::Finished }, UnlinkAction::Finish(Err(e)))
}

impl UnlinkFlow {
    /// Whether `ev` is what the current stage waits for.
    pub open spec fn expects(&self, ev: UnlinkEvent) -> bool {
        match self.stage {
            UnlinkStage::AwaitLinked => ev is Linked,
            UnlinkStage::AwaitDelete => ev is Deleted,
            UnlinkStage::AwaitRole => ev is RoleRemoved,
            UnlinkStage::Finished => false,
        }
    }

    /// Starts the unlink that `cmd` asks for: of the user named, else of the
    /// author. It ends at once without a user, with an id the database
    /// cannot store, or outside a guild.
    pub fn start(cmd: &CommandData, args: Command) -> (r: (UnlinkFlow, UnlinkAction))
        ensures
            target_of(*cmd, args.user) is None ==> r.0.stage is Finished
                && (r.1 matches UnlinkAction::Finish(Err(e)) && e@ == CommandErrorView::Generic),
            target_of(*cmd, args.user) matches Some(u) ==> if u > i64::MAX {
                r.0.stage is Finished
                    && (r.1 matches UnlinkAction::Finish(Err(e)) && e@ == CommandErrorView::InvalidArgs(too_high_text()))
            } else if cmd.guild_of() is None {
                r.0.stage is Finished
                    && (r.1 matches UnlinkAction::Finish(Err(e)) && e@ == CommandErrorView::Specific(outside_guild_text()))
            } else {
                &&& r.0.stage is AwaitLinked
                &&& r.0.user == u
                &&& r.0.user_id == u as i64
                &&& Some(r.0.guild_id) == cmd.guild_of()
                &&& r.1 == UnlinkAction::FetchLinked(u as i64)
            },
    {
        let (target, user_id) = match target_user(cmd, args.user) {
            Ok(t) => t,
            Err(e) => {
                return finished_with(e);
            },
        };
        let guild_id = match cmd.guild_id() {
            Some(g) => g,
            None => {
                return finished_with(
                    CommandError::Specific(owned("This command cannot be used outside of the guild.")),
                );
            },
        };
        (
            UnlinkFlow { user: target, user_id, guild_id, stage: UnlinkStage::AwaitLinked },
            UnlinkAction::FetchLinked(user_id),
        )
    }

    /// Takes in what the last action gave back, and says what comes next.
    pub fn step(&mut self, ev: UnlinkEvent) -> (a: UnlinkAction)
        requires
            old(self).expects(ev),
        ensures
            final(self).user == old(self).user,
            final(self).user_id == old(self).user_id,
            final(self).guild_id == old(self).guild_id,
            match ev {
                UnlinkEvent::Linked(Err(_)) => final(self).stage is Finished
                    && (a matches UnlinkAction::Finish(Err(e)) && e@ == CommandErrorView::Generic),
                UnlinkEvent::Linked(Ok(None)) => final(self).stage is Finished
                    && (a matches UnlinkAction::Finish(Err(e)) && e@ == CommandErrorView::Specific(not_linked_text())),
                UnlinkEvent::Linked(Ok(Some(_))) => final(self).stage is AwaitDelete
                    && a == UnlinkAction::Delete(old(self).user_id),
                UnlinkEvent::Deleted(n) => if n == Ok::<usize, DatabaseError>(1usize) {
                    final(self).stage is AwaitRole
                        && a == (UnlinkAction::RemoveRole { guild_id: old(self).guild_id, user: old(self).user })
                } else {
                    final(self).stage is Finished
                        && (a matches UnlinkAction::Finish(Err(e)) && e@ == CommandErrorView::Generic)
                },
                UnlinkEvent::RoleRemoved(ok) => final(self).stage is Finished && (if ok {
                    a matches UnlinkAction::Finish(Ok(b)) && b@ == (ResponseView {
                        embeds: Some(seq![plain_embed(None, Some(unlinked_text(old(self).user_id)))]),
                        content: None,
                        components: None,
                        flags: None,
                    })
                } else {
                    a matches UnlinkAction::Finish(Err(e)) && e@ == CommandErrorView::Specific(role_removal_failed_text())
                }),
            },
    {
        match ev {
            UnlinkEvent::Linked(Err(_)) => {
                self.stage = UnlinkStage::Finished;
                UnlinkAction::Finish(Err(CommandError::Generic))
            },
            UnlinkEvent::Linked(Ok(None)) => {
                self.stage = UnlinkStage::Finished;
                UnlinkAction::Finish(Err(CommandError::Specific(owned("You are not linked! Run `link` to link your IGN to your user. This command is to unlink someone who is already linked."))))
            },
            UnlinkEvent::Linked(Ok(Some(_))) => {
                self.stage = UnlinkStage::AwaitDelete;
                UnlinkAction::Delete(self.user_id)
            },
            UnlinkEvent::Deleted(n) => {
                if matches!(n, Ok(1usize)) {
                    self.stage = UnlinkStage::AwaitRole;
                    UnlinkAction::RemoveRole { guild_id: self.guild_id, user: self.user }
                } else {
                    self.stage = UnlinkStage::Finished;
                    UnlinkAction::Finish(Err(CommandError::Generic))
                }
            },
            UnlinkEvent::RoleRemoved(ok) => {
                self.stage = UnlinkStage::Finished;
                if ok {
                    let mut m = owned("<@");
                    write_i64(&mut m, self.user_id);
                    append_str(&mut m, "> (`");
                    write_i64(&mut m, self.user_id);
                    append_str(&mut m, "`) has been successfully unlinked!");
                    UnlinkAction::Finish(Ok(CommandResponseBuilder::new().ed(m)))
                } else {
                    UnlinkAction::Finish(Err(CommandError::Specific(owned("Failed to remove the Verified role from the user. Please contact staff."))))
                }
            },
        }
    }
}

} // verus!
