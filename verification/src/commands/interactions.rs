//! The verification button and the form it opens: what the bot answers to
//! a press of the button, and what it reads from a submitted form.
use vstd::prelude::*;
use crate::commands::{
    error_response, ActionRow, CommandError, CommandErrorView, CommandResponse,
    CommandResponseBuilder, Component, ResponseView, EPHEMERAL,
};
use crate::minecraft::updates::contains_u64;
use crate::text::owned;

verus! {

/// The user behind an interaction in a guild.
pub struct InteractionUser {
    pub id: u64,
    pub name: String,
}

/// The guild member behind an interaction: the roles, and the user where
/// Discord sends it.
pub struct InteractionMember {
    pub roles: Vec<u64>,
    pub user: Option<InteractionUser>,
}

/// A form to open for the user.
pub struct Modal {
    pub custom_id: String,
    pub title: String,
    pub components: Vec<ActionRow>,
}

/// What the bot answers to a press of a button.
pub enum ButtonReply {
    /// A message that only the user sees.
    Ephemeral(CommandResponse),
    /// A form to fill in.
    Modal(Modal),
}

/// A field of a submitted form, with what the user typed.
pub struct ModalField {
    pub custom_id: String,
    pub value: Option<String>,
}

/// A row of a submitted form.
pub struct ModalRow {
    pub components: Vec<ModalField>,
}

/// What a submitted verification form asks for: that `user`, whose Discord
/// username is `username`, be linked in `guild_id` to the account `ign`.
pub struct VerifyRequest {
    pub user: u64,
    pub guild_id: u64,
    pub ign: String,
    pub username: String,
}

/// The text shown to a member who is verified already.
pub open spec fn already_verified_text() -> Seq<char> {
    "You are already verified! Run `unlink` to unlink yourself and then `link` to link to a new user."@
}

/// A response that only the user who asked sees.
pub open spec fn ephemeral(r: ResponseView) -> ResponseView {
    ResponseView { flags: Some(EPHEMERAL), ..r }
}

/// The answer to an interaction that only its user sees, telling of `e`.
pub fn ephemeral_error(e: CommandError) -> (r: CommandResponse)
    ensures
        r@ == ephemeral(error_response(e@)),
{
    let mut r = e.into_response();
    r.flags = Some(EPHEMERAL);
    r
}

/// Whether `m` is the verification form: titled `Hypixel Verification`,
/// with one required short text field `ign` for a name of 1 to 16
/// characters.
pub open spec fn is_verification_modal(m: Modal) -> bool {
    &&& m.custom_id@ == "verify"@
    &&& m.title@ == "Hypixel Verification"@
    &&& m.components@.len() == 1
    &&& m.components@[0].components@.len() == 1
    &&& m.components@[0].components@[0] matches Component::TextInput {
        custom_id,
        label,
        min_length,
        max_length,
        placeholder,
    }
    &&& custom_id@ == "ign"@
    &&& label@ == "Hypixel IGN (In-Game-Name)"@
    &&& min_length == 1
    &&& max_length == 16
    &&& placeholder@ == "ThePlayer789"@
}

/// The verification form.
pub fn verification_modal() -> (m: Modal)
    ensures
        is_verification_modal(m),
{
    let mut inputs: Vec<Component> = Vec::new();
    inputs.push(
        Component::TextInput {
            custom_id: owned("ign"),
            label: owned("Hypixel IGN (In-Game-Name)"),
            min_length: 1,
            max_length: 16,
            placeholder: owned("ThePlayer789"),
        },
    );
    let mut rows: Vec<ActionRow> = Vec::new();
    rows.push(ActionRow { components: inputs });
    Modal { custom_id: owned("verify"), title: owned("Hypixel Verification"), components: rows }
}

/// What the bot answers to a press of the button `custom_id` by `member`
/// in the guild `guild_id`: the verification form, unless the button is not
/// the verification button, the press came from outside a guild, or the
/// member is verified already.
pub fn button_reply(custom_id: &str, guild_id: Option<u64>, member: &Option<InteractionMember>, verified_role: u64) -> (r: ButtonReply)
    ensures
        if custom_id@ != "verify"@ || guild_id is None || member is None {
            r matches ButtonReply::Ephemeral(x) && x@ == ephemeral(error_response(CommandErrorView::Generic))
        } else if member->0.roles@.contains(verified_role) {
            r matches ButtonReply::Ephemeral(x)
                && x@ == ephemeral(error_response(CommandErrorView::Specific(already_verified_text())))
        } else {
            r matches ButtonReply::Modal(m) && is_verification_modal(m)
        },
{
    let m = match member {
        Some(m) => m,
        None => {
            return ButtonReply::Ephemeral(ephemeral_error(CommandError::Generic));
        },
    };
    if !crate::text::text_eq(custom_id, "verify") || guild_id.is_none() {
        return ButtonReply::Ephemeral(ephemeral_error(CommandError::Generic));
    }
    if contains_u64(&m.roles, verified_role) {
        return ButtonReply::Ephemeral(
            ephemeral_error(
                CommandError::Specific(owned("You are already verified! Run `unlink` to unlink yourself and then `link` to link to a new user.")),
            ),
        );
    }
    ButtonReply::Modal(verification_modal())
}

/// The first answer to a submitted form: a deferred one that only the user
/// sees.
pub fn deferred_response() -> (r: CommandResponse)
    ensures
        r@ == ephemeral(crate::commands::empty_response()),
{
    CommandResponseBuilder::new().flags(EPHEMERAL).build()
}

/// What a form `custom_id` submitted by `member` in the guild `guild_id`
/// with the fields `rows` asks for. It is an unexpected error unless it is
/// the verification form, submitted in a guild by a member whose user is
/// known, with a value in the first field of the first row; a verified
/// member is told so.
pub fn modal_request(
    custom_id: &str,
    guild_id: Option<u64>,
    member: &Option<InteractionMember>,
    rows: &Vec<ModalRow>,
    verified_role: u64,
) -> (r: Result<VerifyRequest, CommandError>)
    ensures
        if custom_id@ != "verify"@ || guild_id is None || member is None || rows@.len() == 0 {
            r matches Err(e) && e@ == CommandErrorView::Generic
        } else if member->0.user is None {
            r matches Err(e) && e@ == CommandErrorView::Generic
        } else if member->0.roles@.contains(verified_role) {
            r matches Err(e) && e@ == CommandErrorView::Specific(already_verified_text())
        } else if rows@[0].components@.len() == 0 || rows@[0].components@[0].value is None {
            r matches Err(e) && e@ == CommandErrorView::Generic
        } else {
            r matches Ok(q) && q.user == member->0.user->0.id && Some(q.guild_id) == guild_id
                && q.ign@ == rows@[0].components@[0].value->0@
                && q.username@ == member->0.user->0.name@
        },
{
    let m = match member {
        Some(m) => m,
        None => {
            return Err(CommandError::Generic);
        },
    };
    let g = match guild_id {
        Some(g) => g,
        None => {
            return Err(CommandError::Generic);
        },
    };
    if !crate::text::text_eq(custom_id, "verify") || rows.len() == 0 {
        return Err(CommandError::Generic);
    }
    let user = match &m.user {
        Some(u) => u,
        None => {
            return Err(CommandError::Generic);
        },
    };
    if contains_u64(&m.roles, verified_role) {
        return Err(
            CommandError::Specific(owned("You are already verified! Run `unlink` to unlink yourself and then `link` to link to a new user.")),
        );
    }
    let fields = &rows[0].components;
    if fields.len() == 0 {
        return Err(CommandError::Generic);
    }
    let ign = match &fields[0].value {
        Some(v) => v.clone(),
        None => {
            return Err(CommandError::Generic);
        },
    };
    Ok(VerifyRequest { user: user.id, guild_id: g, ign, username: user.name.clone() })
}

/// The final answer to a submitted form: the link's answer, which only the
/// user sees, or the error it ended with.
pub fn modal_response(outcome: Result<CommandResponseBuilder, CommandError>) -> (r: CommandResponse)
    ensures
        outcome matches Ok(b) ==> r@ == ephemeral(b@),
        outcome matches Err(e) ==> r@ == error_response(e@),
{
    match outcome {
        Ok(b) => b.flags(EPHEMERAL).build(),
        Err(e) => e.into_response(),
    }
}

} // verus!
