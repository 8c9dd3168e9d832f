//! `updateloop`: show, pause or resume the update loop; for the bot's owners.
use vstd::prelude::*;
use crate::commands::args::{too_many_error, too_many_text, CommandOption, OptionValue};
use crate::commands::{
    check_owner, embeds_response, is_owner, plain_embed, CommandData, CommandError,
    CommandErrorView, CommandResponseBuilder, MissingRequirement,
};
use crate::text::{append_str, owned, text_eq};

verus! {

/// How the command is used.
pub const USAGE: &'static str = "updateloop => Control the update loop\nSyntax: updateloop <subcommand> [arguments]\nSubcommands:\n  - status => Get the update loop status.\n    Syntax: updateloop status\n\n  - enable => Enable the update loop.\n    Syntax: updateloop enable\n\n  - disable => Disable the update loop.\n    Syntax: updateloop disable\n";

/// Seconds a user waits between two uses.
pub const COOLDOWN_SECS: u64 = 1;

/// The subcommands of `updateloop`.
pub enum Command {
    Status,
    Enable,
    Disable,
}

/// The text shown where no subcommand is given.
pub open spec fn missing_subcommand_text() -> Seq<char> {
    "You must specify a subcommand to execute.\n> Available subcommands: `status, enable, disable`"@
}

/// The text shown where the subcommand is unknown.
pub open spec fn unknown_subcommand_text() -> Seq<char> {
    "The subcommand you provided does not exist.\n> Available subcommands: `status, enable, disable`"@
}

/// The subcommand a name stands for.
pub open spec fn subcommand_named(name: Seq<char>) -> Option<Command> {
    if name == "status"@ {
        Some(Command::Status)
    } else if name == "enable"@ {
        Some(Command::Enable)
    } else if name == "disable"@ {
        Some(Command::Disable)
    } else {
        None
    }
}

/// The words of a legacy `updateloop` read as a subcommand, which takes no
/// arguments.
pub open spec fn updateloop_legacy(args: Seq<Seq<char>>) -> Result<Command, CommandErrorView> {
    if args.len() == 0 {
        Err(CommandErrorView::InvalidArgs(missing_subcommand_text()))
    } else {
        match subcommand_named(args[0]) {
            None => Err(CommandErrorView::InvalidArgs(unknown_subcommand_text())),
            Some(c) => if args.len() > 1 {
                Err(CommandErrorView::InvalidArgs(too_many_text(0, (args.len() - 1) as nat)))
            } else {
                Ok(c)
            },
        }
    }
}

/// The options of a slash `updateloop` read as a subcommand: the first
/// option must be one, else the options are not what Discord sends.
pub open spec fn updateloop_slash(opts: Seq<CommandOption>) -> Result<Command, CommandErrorView> {
    if opts.len() == 0 {
        Err(CommandErrorView::Generic)
    } else {
        match opts[0].value {
            OptionValue::SubCommand(_) => match subcommand_named(opts[0].name@) {
                None => Err(CommandErrorView::InvalidArgs(unknown_subcommand_text())),
                Some(c) => Ok(c),
            },
            _ => Err(CommandErrorView::Generic),
        }
    }
}

fn read_subcommand(name: &str) -> (r: Option<Command>)
    ensures
        r == subcommand_named(name@),
{
    if text_eq(name, "status") {
        Some(Command::Status)
    } else if text_eq(name, "enable") {
        Some(Command::Enable)
    } else if text_eq(name, "disable") {
        Some(Command::Disable)
    } else {
        None
    }
}

/// Reads the words of a legacy `updateloop`.
pub fn parse_arguments_legacy(args: Vec<String>) -> (r: Result<Command, CommandError>)
    ensures
        match r {
            Ok(c) => updateloop_legacy(args@.map_values(|a: String| a@)) == Ok::<Command, CommandErrorView>(c),
            Err(e) => updateloop_legacy(args@.map_values(|a: String| a@)) == Err::<Command, CommandErrorView>(e@),
        },
{
    let ghost words = args@.map_values(|a: String| a@);
    if args.len() == 0 {
        return Err(CommandError::InvalidArgs(owned("You must specify a subcommand to execute.\n> Available subcommands: `status, enable, disable`")));
    }
    assert(words[0] == args@[0]@);
    match read_subcommand(args[0].as_str()) {
        None => Err(CommandError::InvalidArgs(owned("The subcommand you provided does not exist.\n> Available subcommands: `status, enable, disable`"))),
        Some(c) => if args.len() > 1 {
            Err(too_many_error(0, (args.len() - 1) as u64))
        } else {
            Ok(c)
        },
    }
}

/// Reads the options of a slash `updateloop`.
pub fn parse_arguments_slash(opts: &[CommandOption]) -> (r: Result<Command, CommandError>)
    ensures
        match r {
            Ok(c) => updateloop_slash(opts@) == Ok::<Command, CommandErrorView>(c),
            Err(e) => updateloop_slash(opts@) == Err::<Command, CommandErrorView>(e@),
        },
{
    if opts.len() == 0 {
        return Err(CommandError::Generic);
    }
    let first = &opts[0];
    match &first.value {
        OptionValue::SubCommand(_) => match read_subcommand(first.name.as_str()) {
            None => Err(CommandError::InvalidArgs(owned("The subcommand you provided does not exist.\n> Available subcommands: `status, enable, disable`"))),
            Some(c) => Ok(c),
        },
        _ => Err(CommandError::Generic),
    }
}

/// Only the bot's owners may control the loop.
pub fn check_gen_requirements(cmd: &CommandData) -> (r: Result<(), MissingRequirement>)
    requires
        cmd.author_of() is Some,
    ensures
        r is Ok <==> is_owner(cmd.author_of()->0),
        r matches Err(m) ==> m is BotOwnerOnly,
{
    check_owner(cmd)
}

/// How a boolean is written.
pub open spec fn bool_text(b: bool) -> Seq<char> {
    if b {
        "true"@
    } else {
        "false"@
    }
}

/// Whether the loop is paused after `cmd`, and the title of the answer.
pub open spec fn updateloop_outcome(cmd: Command, paused: bool) -> (bool, Seq<char>) {
    match cmd {
        Command::Status => (paused, "Update loop enabled: `"@ + bool_text(!paused) + "`"@),
        Command::Enable => (false, "Update loop enabled!"@),
        Command::Disable => (true, "Update loop disabled!"@),
    }
}

/// Runs `cmd` on a loop that is `paused` or not: the status leaves it as
/// it is, enabling resumes it, disabling pauses it. Gives back whether the
/// loop is paused afterwards and the answer.
pub fn run(cmd: Command, paused: bool) -> (r: (bool, CommandResponseBuilder))
    ensures
        r.0 == updateloop_outcome(cmd, paused).0,
        r.1@ == embeds_response(seq![plain_embed(Some(updateloop_outcome(cmd, paused).1), None)]),
{
    let (now_paused, title) = match cmd {
        Command::Status => {
            let mut t = owned("Update loop enabled: `");
            if paused {
                append_str(&mut t, "false");
            } else {
                append_str(&mut t, "true");
            }
            append_str(&mut t, "`");
            (paused, t)
        },
        Command::Enable => (false, owned("Update loop enabled!")),
        Command::Disable => (true, owned("Update loop disabled!")),
    };
    (now_paused, CommandResponseBuilder::new().et(title))
}

/// Disabling pauses the loop and enabling resumes it, whatever state it was
/// in; the status changes nothing and tells which of the two was last done.
pub proof fn law_status_follows_switches(paused: bool)
    ensures
        updateloop_outcome(Command::Disable, paused).0,
        !updateloop_outcome(Command::Enable, paused).0,
        updateloop_outcome(Command::Status, paused).0 == paused,
        updateloop_outcome(Command::Status, updateloop_outcome(Command::Disable, paused).0).1
            == "Update loop enabled: `false`"@,
        updateloop_outcome(Command::Status, updateloop_outcome(Command::Enable, paused).0).1
            == "Update loop enabled: `true`"@,
{
    reveal_strlit("Update loop enabled: `");
    reveal_strlit("false");
    reveal_strlit("true");
    reveal_strlit("`");
    reveal_strlit("Update loop enabled: `false`");
    reveal_strlit("Update loop enabled: `true`");
    assert("Update loop enabled: `"@ + "false"@ + "`"@ =~= "Update loop enabled: `false`"@);
    assert("Update loop enabled: `"@ + "true"@ + "`"@ =~= "Update loop enabled: `true`"@);
}

} // verus!
