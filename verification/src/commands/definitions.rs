//! The slash commands the bot registers with Discord: their names,
//! descriptions and options.
use vstd::prelude::*;
use crate::commands::dispatch::{kind_named, CommandKind};
use crate::text::owned;

verus! {

/// An option of a slash command.
pub enum OptionSpec {
    /// A text option, of `min_length` to `max_length` characters.
    Text { name: String, description: String, min_length: u16, max_length: u16, required: bool },
    /// A user option.
    User { name: String, description: String, required: bool },
    /// A subcommand without options.
    SubCommand { name: String, description: String },
}

/// The mathematical content of an [`OptionSpec`].
pub enum OptionSpecView {
    Text { name: Seq<char>, description: Seq<char>, min_length: u16, max_length: u16, required: bool },
    User { name: Seq<char>, description: Seq<char>, required: bool },
    SubCommand { name: Seq<char>, description: Seq<char> },
}

impl View for OptionSpec {
    type V = OptionSpecView;

    open spec fn view(&self) -> OptionSpecView {
        match self {
            OptionSpec::Text { name, description, min_length, max_length, required } => OptionSpecView::Text {
                name: name@,
                description: description@,
                min_length: *min_length,
                max_length: *max_length,
                required: *required,
            },
            OptionSpec::User { name, description, required } => OptionSpecView::User {
                name: name@,
                description: description@,
                required: *required,
            },
            OptionSpec::SubCommand { name, description } => OptionSpecView::SubCommand {
                name: name@,
                description: description@,
            },
        }
    }
}

/// A slash command to register.
pub struct CommandSpec {
    pub name: String,
    pub description: String,
    pub options: Vec<OptionSpec>,
}

/// The name under which a command is registered and called.
pub open spec fn name_of(k: CommandKind) -> Seq<char> {
    match k {
        CommandKind::UpdateLoop => "updateloop"@,
        CommandKind::ForceLink => "forcelink"@,
        CommandKind::Link => "link"@,
        CommandKind::Linked => "linked"@,
        CommandKind::Unlink => "unlink"@,
        CommandKind::MassLink => "masslink"@,
        CommandKind::DryUpdate => "dryupdate"@,
        CommandKind::SendVerification => "sendverification"@,
    }
}

/// How a command is described to users.
pub open spec fn description_of(k: CommandKind) -> Seq<char> {
    match k {
        CommandKind::UpdateLoop => "Control the update loop"@,
        CommandKind::ForceLink => "Force link an user to an IGN."@,
        CommandKind::Link => "Link an user to an IGN."@,
        CommandKind::Linked => "Get information on the linking status of an user."@,
        CommandKind::Unlink => "Unlink your IGN from your user."@,
        CommandKind::MassLink => "Link all users with the Verified role by checking their nickname."@,
        CommandKind::DryUpdate => "Shows the changes that an update would bring."@,
        CommandKind::SendVerification => "Send the verification message."@,
    }
}

/// The required option `ign`: a name of 2 to 16 characters.
pub open spec fn ign_option(description: Seq<char>) -> OptionSpecView {
    OptionSpecView::Text { name: "ign"@, description, min_length: 2, max_length: 16, required: true }
}

/// The optional option `user`.
pub open spec fn user_option(description: Seq<char>) -> OptionSpecView {
    OptionSpecView::User { name: "user"@, description, required: false }
}

/// The options of a command, in order.
pub open spec fn options_of(k: CommandKind) -> Seq<OptionSpecView> {
    match k {
        CommandKind::UpdateLoop => seq![
            OptionSpecView::SubCommand { name: "status"@, description: "Get the update loop status."@ },
            OptionSpecView::SubCommand { name: "enable"@, description: "Enable the update loop."@ },
            OptionSpecView::SubCommand { name: "disable"@, description: "Disable the update loop."@ },
        ],
        CommandKind::ForceLink => seq![
            ign_option("The IGN of the user to force link."@),
            user_option("The Discord user to force link."@),
        ],
        CommandKind::Link => seq![
            ign_option("The IGN to link to."@),
            user_option("The Discord user to link. Requires staff."@),
        ],
        CommandKind::Linked => seq![user_option("The Discord user."@)],
        CommandKind::Unlink => seq![user_option("The Discord user to unlink. Requires staff."@)],
        _ => Seq::empty(),
    }
}

fn ign_spec(description: &str) -> (o: OptionSpec)
    ensures
        o@ == ign_option(description@),
{
    OptionSpec::Text {
        name: owned("ign"),
        description: owned(description),
        min_length: 2,
        max_length: 16,
        required: true,
    }
}

fn user_spec(description: &str) -> (o: OptionSpec)
    ensures
        o@ == user_option(description@),
{
    OptionSpec::User { name: owned("user"), description: owned(description), required: false }
}

fn subcommand_spec(name: &str, description: &str) -> (o: OptionSpec)
    ensures
        o@ == (OptionSpecView::SubCommand { name: name@, description: description@ }),
{
    OptionSpec::SubCommand { name: owned(name), description: owned(description) }
}

/// The slash command that `k` is registered as.
pub fn command_spec(k: CommandKind) -> (c: CommandSpec)
    ensures
        c.name@ == name_of(k),
        c.description@ == description_of(k),
        c.options@.map_values(|o: OptionSpec| o@) == options_of(k),
{
    let mut options: Vec<OptionSpec> = Vec::new();
    let (name, description) = match k {
        CommandKind::UpdateLoop => {
            options.push(subcommand_spec("status", "Get the update loop status."));
            options.push(subcommand_spec("enable", "Enable the update loop."));
            options.push(subcommand_spec("disable", "Disable the update loop."));
            ("updateloop", "Control the update loop")
        },
        CommandKind::ForceLink => {
            options.push(ign_spec("The IGN of the user to force link."));
            options.push(user_spec("The Discord user to force link."));
            ("forcelink", "Force link an user to an IGN.")
        },
        CommandKind::Link => {
            options.push(ign_spec("The IGN to link to."));
            options.push(user_spec("The Discord user to link. Requires staff."));
            ("link", "Link an user to an IGN.")
        },
        CommandKind::Linked => {
            options.push(user_spec("The Discord user."));
            ("linked", "Get information on the linking status of an user.")
        },
        CommandKind::Unlink => {
            options.push(user_spec("The Discord user to unlink. Requires staff."));
            ("unlink", "Unlink your IGN from your user.")
        },
        CommandKind::MassLink => ("masslink", "Link all users with the Verified role by checking their nickname."),
        CommandKind::DryUpdate => ("dryupdate", "Shows the changes that an update would bring."),
        CommandKind::SendVerification => ("sendverification", "Send the verification message."),
    };
    assert(options@.map_values(|o: OptionSpec| o@) =~= options_of(k));
    CommandSpec { name: owned(name), description: owned(description), options }
}

/// The commands the bot registers, in order.
pub open spec fn registered() -> Seq<CommandKind> {
    seq![
        CommandKind::UpdateLoop,
        CommandKind::ForceLink,
        CommandKind::Link,
        CommandKind::Linked,
        CommandKind::Unlink,
        CommandKind::MassLink,
        CommandKind::DryUpdate,
        CommandKind::SendVerification,
    ]
}

/// All the slash commands the bot registers, in order.
pub fn command_specs() -> (cs: Vec<CommandSpec>)
    ensures
        cs@.len() == registered().len(),
        forall|i: int| 0 <= i < cs@.len() ==> {
            &&& (#[trigger] cs@[i]).name@ == name_of(registered()[i])
            &&& cs@[i].description@ == description_of(registered()[i])
            &&& cs@[i].options@.map_values(|o: OptionSpec| o@) == options_of(registered()[i])
        },
{
    let mut cs: Vec<CommandSpec> = Vec::new();
    cs.push(command_spec(CommandKind::UpdateLoop));
    cs.push(command_spec(CommandKind::ForceLink));
    cs.push(command_spec(CommandKind::Link));
    cs.push(command_spec(CommandKind::Linked));
    cs.push(command_spec(CommandKind::Unlink));
    cs.push(command_spec(CommandKind::MassLink));
    cs.push(command_spec(CommandKind::DryUpdate));
    cs.push(command_spec(CommandKind::SendVerification));
    cs
}

/// Every command the bot registers is answered under its name: the name
/// reads back as that command.
pub proof fn law_registered_names_are_answered(k: CommandKind)
    ensures
        kind_named(name_of(k)) == Some(k),
{
    reveal_strlit("updateloop");
    reveal_strlit("forcelink");
    reveal_strlit("link");
    reveal_strlit("linked");
    reveal_strlit("unlink");
    reveal_strlit("masslink");
    reveal_strlit("dryupdate");
    reveal_strlit("sendverification");
    match k {
        CommandKind::UpdateLoop => {},
        CommandKind::ForceLink => {
            assert("forcelink"@.len() != "updateloop"@.len());
        },
        CommandKind::Link => {
            assert("link"@.len() != "updateloop"@.len());
            assert("link"@.len() != "forcelink"@.len());
        },
        CommandKind::Linked => {
            assert("linked"@.len() != "updateloop"@.len());
            assert("linked"@.len() != "forcelink"@.len());
            assert("linked"@.len() != "link"@.len());
        },
        CommandKind::Unlink => {
            assert("unlink"@.len() != "updateloop"@.len());
            assert("unlink"@.len() != "forcelink"@.len());
            assert("unlink"@.len() != "link"@.len());
            assert("unlink"@[0] != "linked"@[0]);
        },
        CommandKind::MassLink => {
            assert("masslink"@.len() != "updateloop"@.len());
            assert("masslink"@.len() != "forcelink"@.len());
            assert("masslink"@.len() != "link"@.len());
            assert("masslink"@.len() != "linked"@.len());
            assert("masslink"@.len() != "unlink"@.len());
        },
        CommandKind::DryUpdate => {
            assert("dryupdate"@.len() != "updateloop"@.len());
            assert("dryupdate"@[0] != "forcelink"@[0]);
            assert("dryupdate"@.len() != "link"@.len());
            assert("dryupdate"@.len() != "linked"@.len());
            assert("dryupdate"@.len() != "unlink"@.len());
            assert("dryupdate"@.len() != "masslink"@.len());
        },
        CommandKind::SendVerification => {
            assert("sendverification"@.len() != "updateloop"@.len());
            assert("sendverification"@.len() != "forcelink"@.len());
            assert("sendverification"@.len() != "link"@.len());
            assert("sendverification"@.len() != "linked"@.len());
            assert("sendverification"@.len() != "unlink"@.len());
            assert("sendverification"@.len() != "masslink"@.len());
            assert("sendverification"@.len() != "dryupdate"@.len());
        },
    }
}

} // verus!
