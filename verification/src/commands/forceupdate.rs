//! `forceupdate`: update the members at once, with the update loop paused
//! meanwhile; for the bot's owners only. The bot does not register it.
use vstd::prelude::*;
use crate::commands::{
    check_owner, embeds_response, is_owner, plain_embed, CommandData, CommandResponseBuilder,
    MissingRequirement,
};
use crate::minecraft::tasks::users_failed_text;
use crate::text::owned;

verus! {

/// How the command is used.
pub const USAGE: &'static str = "forceupdate => Forces an update\nSyntax: forceupdate";

/// Seconds a user waits between two uses.
pub const COOLDOWN_SECS: u64 = 30;

/// Only the bot's owners may force an update.
pub fn check_gen_requirements(cmd: &CommandData) -> (r: Result<(), MissingRequirement>)
    requires
        cmd.author_of() is Some,
    ensures
        r is Ok <==> is_owner(cmd.author_of()->0),
        r matches Err(m) ==> m is BotOwnerOnly,
{
    check_owner(cmd)
}

/// The text that tells the loop is paused during the update.
pub open spec fn paused_note_text() -> Seq<char> {
    "**Note:** Update loop has been turned off. It will be turned back on after the update is complete."@
}

/// The answer sent once the loop is paused and before the update runs.
pub fn started_reply() -> (b: CommandResponseBuilder)
    ensures
        b@ == embeds_response(seq![plain_embed(Some("Starting forced update!"@), Some(paused_note_text()))]),
{
    CommandResponseBuilder::new().etd(
        owned("Starting forced update!"),
        owned("**Note:** Update loop has been turned off. It will be turned back on after the update is complete."),
    )
}

/// The notice for the staff after the update: none where it worked.
pub fn update_notice(ok: bool) -> (r: Option<String>)
    ensures
        ok <==> r is None,
        r matches Some(t) ==> t@ == users_failed_text(),
{
    if ok {
        None
    } else {
        Some(owned("there was an error in the update loop while updating members."))
    }
}

} // verus!
