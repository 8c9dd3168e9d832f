//! `linked`: show the Minecraft account a Discord user is linked to.
use vstd::prelude::*;
use crate::commands::args::{parse_user_legacy, parse_user_slash, user_legacy, user_slash, CommandOption};
use crate::commands::link::broken_text;
use crate::commands::{
    check_other_user, is_owner, plain_embed, CommandData, CommandError, CommandErrorView,
    CommandResponseBuilder, MissingRequirement, ResponseView,
};
use crate::database::DatabaseError;
use crate::models::User;
use crate::text::{append_str, owned, signed_decimal, write_i64};

verus! {

/// How the command is used.
pub const USAGE: &'static str = "linked => Get information on the linking status of an user.\nSyntax: linked [user]\nDetails:\n- [user]\n  The Discord user.";

/// Seconds a user waits between two uses.
pub const COOLDOWN_SECS: u64 = 2;

/// The arguments of `linked`.
pub struct Command {
    pub user: Option<u64>,
}

/// Reads the words of a legacy `linked`.
pub fn parse_arguments_legacy(args: Vec<String>) -> (r: Result<Command, CommandError>)
    ensures
        match r {
            Ok(c) => user_legacy(args@.map_values(|a: String| a@)) == Ok::<Option<u64>, CommandErrorView>(c.user),
            Err(e) => user_legacy(args@.map_values(|a: String| a@)) == Err::<Option<u64>, CommandErrorView>(e@),
        },
{
    match parse_user_legacy(args) {
        Ok(user) => Ok(Command { user }),
        Err(e) => Err(e),
    }
}

/// Reads the options of a slash `linked`.
pub fn parse_arguments_slash(opts: &[CommandOption]) -> (r: Result<Command, CommandError>)
    ensures
        match r {
            Ok(c) => user_slash(opts@) == Ok::<Option<u64>, CommandErrorView>(c.user),
            Err(e) => user_slash(opts@) == Err::<Option<u64>, CommandErrorView>(e@),
        },
{
    match parse_user_slash(opts) {
        Ok(user) => Ok(Command { user }),
        Err(e) => Err(e),
    }
}

/// Only the bot's owners may look at someone else.
pub fn check_requirements(cmd: &CommandData, args: &Command) -> (r: Result<(), MissingRequirement>)
    requires
        args.user is Some ==> cmd.author_of() is Some,
    ensures
        r is Ok <==> (args.user is None || args.user == cmd.author_of() || is_owner(cmd.author_of()->0)),
        r matches Err(m) ==> m matches MissingRequirement::General(t)
            && t@ == "You don't have the required permission to check someone else's linking status."@,
{
    check_other_user(cmd, args.user, "You don't have the required permission to check someone else's linking status.")
}

/// The text that shows a user's link; `-` stands for what is not linked.
pub open spec fn status_text(user_id: i64, ign: Seq<char>, uuid: Seq<char>) -> Seq<char> {
    "**User:** <@"@ + signed_decimal(user_id as int) + "> (`"@ + signed_decimal(user_id as int)
        + "`)\n**IGN:** "@ + ign + "\n**UUID:** "@ + uuid
}

/// What `linked` answers for the user with database id `user_id`, given
/// what the database holds for it: the account's name and UUID, or dashes
/// where the user is not linked. A link without its name or UUID is broken,
/// and a failed query an unexpected error.
pub fn linked_reply(user_id: i64, linked: Result<Option<User>, DatabaseError>) -> (r: Result<CommandResponseBuilder, CommandError>)
    ensures
        linked is Err ==> (r matches Err(e) && e@ == CommandErrorView::Generic),
        linked == Ok::<Option<User>, DatabaseError>(None) ==> (r matches Ok(b) && b@ == (ResponseView {
            embeds: Some(seq![plain_embed(None, Some(status_text(user_id, "-"@, "-"@)))]),
            content: None,
            components: None,
            flags: None,
        })),
        linked matches Ok(Some(u)) ==> match (u.ign, u.uuid) {
            (Some(ign), Some(uuid)) => r matches Ok(b) && b@ == (ResponseView {
                embeds: Some(seq![plain_embed(None, Some(status_text(user_id, "`"@ + ign@ + "`"@, "`"@ + uuid@ + "`"@)))]),
                content: None,
                components: None,
                flags: None,
            }),
            _ => r matches Err(e) && e@ == CommandErrorView::Specific(broken_text()),
        },
{
    let user = match linked {
        Err(_) => {
            return Err(CommandError::Generic);
        },
        Ok(u) => u,
    };
    let mut m = owned("**User:** <@");
    write_i64(&mut m, user_id);
    append_str(&mut m, "> (`");
    write_i64(&mut m, user_id);
    append_str(&mut m, "`)\n**IGN:** ");
    match user {
        None => {
            append_str(&mut m, "-");
            append_str(&mut m, "\n**UUID:** ");
            append_str(&mut m, "-");
            proof {
                assert(m@ =~= status_text(user_id, "-"@, "-"@));
            }
        },
        Some(u) => {
            let (ign, uuid) = match (u.ign, u.uuid) {
                (Some(ign), Some(uuid)) => (ign, uuid),
                _ => {
                    return Err(CommandError::Specific(owned("Your linking status seems to be broken. Please use `unlink` and notify staff.")));
                },
            };
            append_str(&mut m, "`");
            append_str(&mut m, ign.as_str());
            append_str(&mut m, "`");
            append_str(&mut m, "\n**UUID:** ");
            append_str(&mut m, "`");
            append_str(&mut m, uuid.as_str());
            append_str(&mut m, "`");
            proof {
                assert(m@ =~= status_text(user_id, "`"@ + ign@ + "`"@, "`"@ + uuid@ + "`"@));
            }
        },
    }
    Ok(CommandResponseBuilder::new().ed(m))
}

} // verus!
