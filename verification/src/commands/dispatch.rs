//! The way every command goes: which command a name stands for, its
//! cooldown, the checks before it runs, and what is answered when it fails.
use vstd::prelude::*;
use crate::commands::cooldown::{check_outcome, CommandCooldown};
use crate::commands::{
    error_reply, error_response, reply_to_error, CommandError, CommandErrorView, CommandResponse,
    MissingRequirement, ResponseView,
};
use crate::commands::{dryupdate, forcelink, link, linked, masslink, sendverification, unlink, updateloop};
use crate::commands::{legacy_command, split_legacy_command};
use crate::database::{guild_prefix_or_default, DatabaseError, DEFAULT_PREFIX};
use crate::text::text_eq;

verus! {

/// The commands the bot answers to.
#[derive(Clone, Copy)]
pub enum CommandKind {
    UpdateLoop,
    ForceLink,
    Link,
    Linked,
    Unlink,
    MassLink,
    DryUpdate,
    SendVerification,
}

/// The command a name stands for.
pub open spec fn kind_named(name: Seq<char>) -> Option<CommandKind> {
    if name == "updateloop"@ {
        Some(CommandKind::UpdateLoop)
    } else if name == "forcelink"@ {
        Some(CommandKind::ForceLink)
    } else if name == "link"@ {
        Some(CommandKind::Link)
    } else if name == "linked"@ {
        Some(CommandKind::Linked)
    } else if name == "unlink"@ {
        Some(CommandKind::Unlink)
    } else if name == "masslink"@ {
        Some(CommandKind::MassLink)
    } else if name == "dryupdate"@ {
        Some(CommandKind::DryUpdate)
    } else if name == "sendverification"@ {
        Some(CommandKind::SendVerification)
    } else {
        None
    }
}

/// The command named `name`, if the bot has one.
pub fn command_named(name: &str) -> (r: Option<CommandKind>)
    ensures
        r == kind_named(name@),
{
    if text_eq(name, "updateloop") {
        Some(CommandKind::UpdateLoop)
    } else if text_eq(name, "forcelink") {
        Some(CommandKind::ForceLink)
    } else if text_eq(name, "link") {
        Some(CommandKind::Link)
    } else if text_eq(name, "linked") {
        Some(CommandKind::Linked)
    } else if text_eq(name, "unlink") {
        Some(CommandKind::Unlink)
    } else if text_eq(name, "masslink") {
        Some(CommandKind::MassLink)
    } else if text_eq(name, "dryupdate") {
        Some(CommandKind::DryUpdate)
    } else if text_eq(name, "sendverification") {
        Some(CommandKind::SendVerification)
    } else {
        None
    }
}

/// The prefix that the query for a guild's row gives; see
/// [`guild_prefix_or_default`].
pub open spec fn prefix_of(found: Result<Option<Option<String>>, DatabaseError>) -> Seq<char> {
    match found {
        Ok(Some(Some(x))) => x@,
        _ => DEFAULT_PREFIX@,
    }
}

/// What a message asks the bot to run, where `found` is what the query for
/// its guild's prefix gave: the command that the first word after the
/// prefix names, and the words after it. Nothing where the message does not
/// start with the prefix, has no word after it, or names no command.
pub fn legacy_invocation(found: Result<Option<Option<String>>, DatabaseError>, content: &str) -> (r: Option<(CommandKind, Vec<String>)>)
    ensures
        match legacy_command(content@, prefix_of(found)) {
            None => r is None,
            Some((name, args)) => match kind_named(name) {
                None => r is None,
                Some(k) => r matches Some((k2, a)) && k2 == k && a@.map_values(|s: String| s@) == args,
            },
        },
{
    let prefix = guild_prefix_or_default(found);
    match split_legacy_command(content, prefix.as_str()) {
        None => None,
        Some((keyword, args)) => match command_named(keyword.as_str()) {
            None => None,
            Some(k) => Some((k, args)),
        },
    }
}

/// Seconds a user waits between two uses of a command.
pub open spec fn cooldown_secs_of(k: CommandKind) -> u64 {
    match k {
        CommandKind::UpdateLoop => updateloop::COOLDOWN_SECS,
        CommandKind::ForceLink => forcelink::COOLDOWN_SECS,
        CommandKind::Link => link::COOLDOWN_SECS,
        CommandKind::Linked => linked::COOLDOWN_SECS,
        CommandKind::Unlink => unlink::COOLDOWN_SECS,
        CommandKind::MassLink => masslink::COOLDOWN_SECS,
        CommandKind::DryUpdate => dryupdate::COOLDOWN_SECS,
        CommandKind::SendVerification => sendverification::COOLDOWN_SECS,
    }
}

/// How a command is used.
pub open spec fn usage_of(k: CommandKind) -> Seq<char> {
    match k {
        CommandKind::UpdateLoop => updateloop::USAGE@,
        CommandKind::ForceLink => forcelink::USAGE@,
        CommandKind::Link => link::USAGE@,
        CommandKind::Linked => linked::USAGE@,
        CommandKind::Unlink => unlink::USAGE@,
        CommandKind::MassLink => masslink::USAGE@,
        CommandKind::DryUpdate => dryupdate::USAGE@,
        CommandKind::SendVerification => sendverification::USAGE@,
    }
}

/// How `k` is used.
pub fn usage(k: CommandKind) -> (u: &'static str)
    ensures
        u@ == usage_of(k),
{
    match k {
        CommandKind::UpdateLoop => updateloop::USAGE,
        CommandKind::ForceLink => forcelink::USAGE,
        CommandKind::Link => link::USAGE,
        CommandKind::Linked => linked::USAGE,
        CommandKind::Unlink => unlink::USAGE,
        CommandKind::MassLink => masslink::USAGE,
        CommandKind::DryUpdate => dryupdate::USAGE,
        CommandKind::SendVerification => sendverification::USAGE,
    }
}

/// Whether only the bot's owners may run `k`, whoever it is about.
pub open spec fn owner_only(k: CommandKind) -> bool {
    match k {
        CommandKind::Link | CommandKind::Linked | CommandKind::Unlink => false,
        _ => true,
    }
}

/// Nanoseconds in a second.
pub const NANOS_PER_SEC: u64 = 1_000_000_000;

/// How long a command's cooldown lasts, in nanoseconds.
pub open spec fn cooldown_nanos_of(k: CommandKind) -> u64 {
    (cooldown_secs_of(k) * NANOS_PER_SEC) as u64
}

/// The cooldowns of all the commands, one each.
pub struct CommandCooldownList {
    update_loop: CommandCooldown,
    force_link: CommandCooldown,
    link: CommandCooldown,
    linked: CommandCooldown,
    unlink: CommandCooldown,
    mass_link: CommandCooldown,
    dry_update: CommandCooldown,
    send_verification: CommandCooldown,
}

impl CommandCooldownList {
    /// The cooldown of `k`.
    pub closed spec fn cooldown_of(&self, k: CommandKind) -> CommandCooldown {
        match k {
            CommandKind::UpdateLoop => self.update_loop,
            CommandKind::ForceLink => self.force_link,
            CommandKind::Link => self.link,
            CommandKind::Linked => self.linked,
            CommandKind::Unlink => self.unlink,
            CommandKind::MassLink => self.mass_link,
            CommandKind::DryUpdate => self.dry_update,
            CommandKind::SendVerification => self.send_verification,
        }
    }

    /// The invariant: each command's cooldown is well formed and lasts the
    /// command's period, in nanoseconds.
    pub open spec fn wf(&self) -> bool {
        forall|k: CommandKind| #[trigger] self.cooldown_of(k).wf()
            && self.cooldown_of(k).period() == cooldown_nanos_of(k)
    }

    /// No user on any cooldown.
    pub fn new() -> (l: Self)
        ensures
            l.wf(),
            forall|k: CommandKind| #[trigger] l.cooldown_of(k).expiries() == Map::<u64, u64>::empty(),
    {
        CommandCooldownList {
            update_loop: CommandCooldown::new(updateloop::COOLDOWN_SECS * NANOS_PER_SEC),
            force_link: CommandCooldown::new(forcelink::COOLDOWN_SECS * NANOS_PER_SEC),
            link: CommandCooldown::new(link::COOLDOWN_SECS * NANOS_PER_SEC),
            linked: CommandCooldown::new(linked::COOLDOWN_SECS * NANOS_PER_SEC),
            unlink: CommandCooldown::new(unlink::COOLDOWN_SECS * NANOS_PER_SEC),
            mass_link: CommandCooldown::new(masslink::COOLDOWN_SECS * NANOS_PER_SEC),
            dry_update: CommandCooldown::new(dryupdate::COOLDOWN_SECS * NANOS_PER_SEC),
            send_verification: CommandCooldown::new(sendverification::COOLDOWN_SECS * NANOS_PER_SEC),
        }
    }

    /// Checks `user`'s cooldown on `k` as [`CommandCooldown::check`] does;
    /// the other commands' cooldowns stay as they are.
    pub fn check(&mut self, k: CommandKind, user: u64, t_check: u64, t_clean: u64, t_add: u64) -> (r: Option<u64>)
        requires
            old(self).wf(),
            t_check <= t_clean <= t_add,
            t_add + cooldown_nanos_of(k) <= u64::MAX,
        ensures
            final(self).wf(),
            (final(self).cooldown_of(k).expiries(), r) == check_outcome(
                old(self).cooldown_of(k).expiries(),
                cooldown_nanos_of(k),
                user,
                t_check,
                t_clean,
                t_add,
            ),
            forall|j: CommandKind| j != k ==> #[trigger] final(self).cooldown_of(j) == old(self).cooldown_of(j),
    {
        proof {
            assert(self.cooldown_of(k).wf());
        }
        let r = match k {
            CommandKind::UpdateLoop => self.update_loop.check(user, t_check, t_clean, t_add),
            CommandKind::ForceLink => self.force_link.check(user, t_check, t_clean, t_add),
            CommandKind::Link => self.link.check(user, t_check, t_clean, t_add),
            CommandKind::Linked => self.linked.check(user, t_check, t_clean, t_add),
            CommandKind::Unlink => self.unlink.check(user, t_check, t_clean, t_add),
            CommandKind::MassLink => self.mass_link.check(user, t_check, t_clean, t_add),
            CommandKind::DryUpdate => self.dry_update.check(user, t_check, t_clean, t_add),
            CommandKind::SendVerification => self.send_verification.check(user, t_check, t_clean, t_add),
        };
        proof {
            assert forall|j: CommandKind| #[trigger] self.cooldown_of(j).wf()
                && self.cooldown_of(j).period() == cooldown_nanos_of(j) by {
                assert(old(self).cooldown_of(j).wf());
            }
        }
        r
    }
}

/// Where a command stands on its way to running.
pub enum RunStage {
    /// Waiting for the cooldown check.
    Cooldown,
    /// Waiting for the checks that do not look at the arguments.
    GenRequirements,
    /// Waiting for the arguments to be read.
    Parse,
    /// Waiting for the checks that look at the arguments.
    Requirements,
    /// Waiting for the command to run.
    Handle,
    /// Finished.
    Finished,
}

/// What the run of a command asks for next.
pub enum RunAction {
    /// Run the checks that do not look at the arguments.
    CheckGenRequirements,
    /// Read the arguments.
    Parse,
    /// Run the checks that look at the arguments.
    CheckRequirements,
    /// Run the command.
    Handle,
    /// Answer with this and stop; an answer that fails to go is not retried.
    Reply(CommandResponse),
    /// Stop.
    Done,
}

/// What came back from the last action.
pub enum RunEvent {
    /// The time left on the user's cooldown, if any.
    Cooldown(Option<u64>),
    /// The checks that do not look at the arguments.
    GenChecked(Result<(), MissingRequirement>),
    /// Whether the arguments could be read.
    Parsed(Result<(), CommandError>),
    /// The checks that look at the arguments.
    ReqChecked(Result<(), MissingRequirement>),
    /// How the command ended.
    Handled(Result<(), CommandError>),
}

/// Whether `ev` is what a command's run waits for in `st`.
pub open spec fn run_expects(st: RunStage, ev: RunEvent) -> bool {
    match st {
        RunStage::Cooldown => ev is Cooldown,
        RunStage::GenRequirements => ev is GenChecked,
        RunStage::Parse => ev is Parsed,
        RunStage::Requirements => ev is ReqChecked,
        RunStage::Handle => ev is Handled,
        RunStage::Finished => false,
    }
}

/// The stage a run moves to on `ev`: the next check while all pass, else
/// the end.
pub open spec fn stage_after(st: RunStage, ev: RunEvent) -> RunStage {
    match (st, ev) {
        (RunStage::Cooldown, RunEvent::Cooldown(None)) => RunStage::GenRequirements,
        (RunStage::GenRequirements, RunEvent::GenChecked(Ok(()))) => RunStage::Parse,
        (RunStage::Parse, RunEvent::Parsed(Ok(()))) => RunStage::Requirements,
        (RunStage::Requirements, RunEvent::ReqChecked(Ok(()))) => RunStage::Handle,
        _ => RunStage::Finished,
    }
}

/// A command runs only once its user is off cooldown, the general checks
/// have passed, its arguments have been read and the checks on them have
/// passed, in that order; any other outcome of any of them ends the run.
pub proof fn law_runs_only_after_checks(e1: RunEvent, e2: RunEvent, e3: RunEvent, e4: RunEvent)
    ensures
        stage_after(stage_after(stage_after(stage_after(RunStage::Cooldown, e1), e2), e3), e4) is Handle <==> {
            &&& e1 matches RunEvent::Cooldown(None)
            &&& e2 matches RunEvent::GenChecked(Ok(_))
            &&& e3 matches RunEvent::Parsed(Ok(_))
            &&& e4 matches RunEvent::ReqChecked(Ok(_))
        },
        forall|ev: RunEvent| #[trigger] stage_after(RunStage::Finished, ev) is Finished,
{
    let s1 = stage_after(RunStage::Cooldown, e1);
    let s2 = stage_after(s1, e2);
    let s3 = stage_after(s2, e3);
    let s4 = stage_after(s3, e4);
    if s4 is Handle {
        assert(s3 is Requirements);
        assert(s2 is Parse);
        assert(s1 is GenRequirements);
        assert(e1 matches RunEvent::Cooldown(None));
        assert(e2 matches RunEvent::GenChecked(Ok(_)));
        assert(e3 matches RunEvent::Parsed(Ok(_)));
        assert(e4 matches RunEvent::ReqChecked(Ok(_)));
    }
}

/// The error that a missing requirement is.
pub open spec fn missing_error(m: MissingRequirement) -> CommandErrorView {
    match m {
        MissingRequirement::BotOwnerOnly => CommandErrorView::BotOwnerOnly,
        MissingRequirement::General(t) => CommandErrorView::General(t@),
    }
}

/// The error that a failure to read the arguments becomes: an argument
/// error shows the command's usage.
pub open spec fn parse_error(e: CommandErrorView, usage: Seq<char>) -> CommandErrorView {
    match e {
        CommandErrorView::InvalidArgs(m) => CommandErrorView::InvalidArgsWithUsage(m, usage),
        e => e,
    }
}

/// Telling a user that the bot may not write to them is not tried; an
/// argument error is answered with the command's usage.
pub proof fn law_failures_answered(m: Seq<char>, usage: Seq<char>, legacy: bool)
    ensures
        error_reply(CommandErrorView::NoMsgPermission, legacy) is None,
        error_reply(parse_error(CommandErrorView::InvalidArgs(m), usage), legacy) == Some(
            error_response(CommandErrorView::InvalidArgsWithUsage(m, usage)),
        ),
{
}

/// Whether `a` is how a command that failed with `e` ends: with the answer
/// that [`error_reply`] gives, or with nothing.
pub open spec fn ends_with_error(a: RunAction, e: CommandErrorView, legacy: bool) -> bool {
    match error_reply(e, legacy) {
        Some(v) => a matches RunAction::Reply(r) && r@ == v,
        None => a is Done,
    }
}

fn finish_with_error(e: CommandError, legacy: bool) -> (r: (RunStage, RunAction))
    ensures
        r.0 is Finished,
        ends_with_error(r.1, e@, legacy),
{
    match reply_to_error(e, legacy) {
        Some(resp) => (RunStage::Finished, RunAction::Reply(resp)),
        None => (RunStage::Finished, RunAction::Done),
    }
}

/// The run of a command before its first step.
pub fn run_start() -> (st: RunStage)
    ensures
        st is Cooldown,
{
    RunStage::Cooldown
}

/// One step in the run of a command from a message (`legacy`) or not, used
/// as `usage` says: a user on cooldown is told to wait; then the general
/// checks, the reading of the arguments and the checks on them run, and the
/// command itself. The first failure ends the run with its error's answer,
/// where there is one; an argument error shows the usage.
pub fn run_step(st: RunStage, legacy: bool, usage: &str, ev: RunEvent) -> (r: (RunStage, RunAction))
    requires
        run_expects(st, ev),
    ensures
        r.0 == stage_after(st, ev),
        match ev {
            RunEvent::Cooldown(Some(left)) => r.0 is Finished
                && (r.1 matches RunAction::Reply(x) && x@ == error_response(CommandErrorView::Cooldown(left))),
            RunEvent::Cooldown(None) => r.0 is GenRequirements && r.1 is CheckGenRequirements,
            RunEvent::GenChecked(Ok(())) => r.0 is Parse && r.1 is Parse,
            RunEvent::GenChecked(Err(m)) => r.0 is Finished && ends_with_error(r.1, missing_error(m), legacy),
            RunEvent::Parsed(Ok(())) => r.0 is Requirements && r.1 is CheckRequirements,
            RunEvent::Parsed(Err(e)) => r.0 is Finished && ends_with_error(r.1, parse_error(e@, usage@), legacy),
            RunEvent::ReqChecked(Ok(())) => r.0 is Handle && r.1 is Handle,
            RunEvent::ReqChecked(Err(m)) => r.0 is Finished && ends_with_error(r.1, missing_error(m), legacy),
            RunEvent::Handled(Ok(())) => r.0 is Finished && r.1 is Done,
            RunEvent::Handled(Err(e)) => r.0 is Finished && ends_with_error(r.1, e@, legacy),
        },
{
    match ev {
        RunEvent::Cooldown(Some(left)) => (RunStage::Finished, RunAction::Reply(CommandError::Cooldown(left).into_response())),
        RunEvent::Cooldown(None) => (RunStage::GenRequirements, RunAction::CheckGenRequirements),
        RunEvent::GenChecked(Ok(())) => (RunStage::Parse, RunAction::Parse),
        RunEvent::GenChecked(Err(m)) => finish_with_error(CommandError::MissingRequirement(m), legacy),
        RunEvent::Parsed(Ok(())) => (RunStage::Requirements, RunAction::CheckRequirements),
        RunEvent::Parsed(Err(e)) => finish_with_error(e.with_usage(usage), legacy),
        RunEvent::ReqChecked(Ok(())) => (RunStage::Handle, RunAction::Handle),
        RunEvent::ReqChecked(Err(m)) => finish_with_error(CommandError::MissingRequirement(m), legacy),
        RunEvent::Handled(Ok(())) => (RunStage::Finished, RunAction::Done),
        RunEvent::Handled(Err(e)) => finish_with_error(e, legacy),
    }
}

/// The error a command ends with where its answer could not be sent: to a
/// message, that the bot may not write; to an interaction, an unexpected
/// one.
pub fn reply_failure(legacy: bool) -> (e: CommandError)
    ensures
        legacy ==> e@ == CommandErrorView::NoMsgPermission,
        !legacy ==> e@ == CommandErrorView::Generic,
{
    if legacy {
        CommandError::NoMsgPermission
    } else {
        CommandError::Generic
    }
}

} // verus!
