//! `sendverification`: post the message with which members verify; for the
//! bot's owners only.
use vstd::prelude::*;
use crate::commands::{
    check_owner, embeds_response, is_owner, plain_embed, ActionRow, CommandData, Component,
    CommandResponseBuilder, MissingRequirement, ResponseView,
};
use crate::text::owned;

verus! {

/// How the command is used.
pub const USAGE: &'static str = "sendverification => Send the verification message.\nSyntax: sendverification";

/// Seconds a user waits between two uses.
pub const COOLDOWN_SECS: u64 = 3;

/// Only the bot's owners may post the message.
pub fn check_gen_requirements(cmd: &CommandData) -> (r: Result<(), MissingRequirement>)
    requires
        cmd.author_of() is Some,
    ensures
        r is Ok <==> is_owner(cmd.author_of()->0),
        r matches Err(m) ==> m is BotOwnerOnly,
{
    check_owner(cmd)
}

/// The title of the verification message.
pub open spec fn verification_title() -> Seq<char> {
    "DaySleepers | Hypixel Verification"@
}

/// The text of the verification message.
pub open spec fn verification_text() -> Seq<char> {
    "**Welcome to DaySleepers!**\n\nClick the button below and then insert your username to verify. If there are any issues, feel free to message one of the staff members."@
}

/// Whether `rows` is a single row holding a single button with the given
/// id and label.
pub open spec fn single_button(rows: Seq<ActionRow>, custom_id: Seq<char>, label: Seq<char>) -> bool {
    &&& rows.len() == 1
    &&& rows[0].components@.len() == 1
    &&& rows[0].components@[0] matches Component::Button { custom_id: id, label: l }
    &&& id@ == custom_id
    &&& l@ == label
}

/// The verification message: an embed that welcomes and explains, and the
/// button `Verify` that starts verifying.
pub fn verification_message() -> (b: CommandResponseBuilder)
    ensures
        b@.embeds == Some(seq![plain_embed(Some(verification_title()), Some(verification_text()))]),
        b@.components matches Some(rows) && single_button(rows, "verify"@, "Verify"@),
        b@.content is None,
        b@.flags is None,
{
    let mut buttons: Vec<Component> = Vec::new();
    buttons.push(Component::Button { custom_id: owned("verify"), label: owned("Verify") });
    let mut rows: Vec<ActionRow> = Vec::new();
    rows.push(ActionRow { components: buttons });
    CommandResponseBuilder::new().etd(
        owned("DaySleepers | Hypixel Verification"),
        owned("**Welcome to DaySleepers!**\n\nClick the button below and then insert your username to verify. If there are any issues, feel free to message one of the staff members."),
    ).components(rows)
}

/// The answer once the message is posted.
pub fn sent_reply() -> (b: CommandResponseBuilder)
    ensures
        b@ == embeds_response(seq![plain_embed(Some("Verification message sent!"@), None)]),
{
    CommandResponseBuilder::new().et(owned("Verification message sent!"))
}

} // verus!
