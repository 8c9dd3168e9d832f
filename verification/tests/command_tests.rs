use guildbot::commands::args::{
    check_word_length, get_option, parse_ign_user_legacy, parse_ign_user_slash, parse_mention,
    parse_no_args_legacy, parse_user_legacy, parse_user_slash, CommandOption, OptionValue,
};
use guildbot::commands::cooldown::CommandCooldown;
use guildbot::commands::dispatch::{
    command_named, run_start, run_step, reply_failure, usage, CommandCooldownList, CommandKind,
    RunAction, RunEvent, RunStage,
};
use guildbot::commands::{check_other_user, check_owner, CommandData, CommandError, MissingRequirement};

const OWNER: u64 = 887046293669707797;

fn words(ws: &[&str]) -> Vec<String> {
    ws.iter().map(|w| w.to_string()).collect()
}

fn invalid_args(r: Result<impl Sized, CommandError>) -> String {
    match r {
        Err(CommandError::InvalidArgs(m)) => m,
        Err(_) => panic!("another error"),
        Ok(_) => panic!("no error"),
    }
}

fn legacy(author: u64) -> CommandData {
    CommandData::Legacy { guild_id: Some(5), author, author_name: "name".to_string() }
}

#[test]
fn mentions_and_ids() {
    assert_eq!(parse_mention("<@123>"), Some(123));
    assert_eq!(parse_mention("<@!123>"), Some(123));
    assert_eq!(parse_mention("123"), Some(123));
    assert_eq!(parse_mention("<@0>"), None);
    assert_eq!(parse_mention("<@abc>"), None);
    assert_eq!(parse_mention("<@123"), None);
}

#[test]
fn ign_and_user_from_words() {
    assert_eq!(
        invalid_args(parse_ign_user_legacy(words(&[]))),
        "This command has `1` required argument, but you only provided `0`."
    );
    assert_eq!(
        invalid_args(parse_ign_user_legacy(words(&["a"]))),
        "The argument `ign` must have a length greater than or equal to `2`. You provided: `a`, which is too short."
    );
    assert_eq!(
        invalid_args(parse_ign_user_legacy(words(&["abcdefghijklmnopq"]))),
        "The argument `ign` must have a length smaller than or equal to `16`. You provided: `abcdefghijklmnopq`, which is too long."
    );
    assert_eq!(
        invalid_args(parse_ign_user_legacy(words(&["abc", "someone"]))),
        "The argument `user` must be a user's mention or id. You provided: `someone`"
    );
    assert_eq!(
        invalid_args(parse_ign_user_legacy(words(&["abc", "<@1>", "x"]))),
        "You provided too many arguments for this command. Expected a maximum of `2` arguments, but you provided `3`."
    );
    let (ign, user) = parse_ign_user_legacy(words(&["Steve", "<@!42>"])).ok().unwrap();
    assert_eq!(ign, "Steve");
    assert_eq!(user, Some(42));
    let (_, user) = parse_ign_user_legacy(words(&["Steve"])).ok().unwrap();
    assert_eq!(user, None);
}

#[test]
fn word_lengths_count_characters() {
    assert!(check_word_length("ign", "éé", 2, 16).is_ok());
    assert!(check_word_length("ign", "é", 2, 16).is_err());
}

#[test]
fn optional_user_from_words() {
    assert_eq!(parse_user_legacy(words(&[])).ok().unwrap(), None);
    assert_eq!(parse_user_legacy(words(&["<@7>"])).ok().unwrap(), Some(7));
    assert_eq!(
        invalid_args(parse_user_legacy(words(&["<@7>", "<@8>"]))),
        "You provided too many arguments for this command. Expected a maximum of `1` arguments, but you provided `2`."
    );
    assert_eq!(
        invalid_args(parse_no_args_legacy(words(&["x", "y"]))),
        "You provided too many arguments for this command. Expected a maximum of `0` arguments, but you provided `2`."
    );
}

#[test]
fn options_of_slash_commands() {
    let opts = vec![
        CommandOption { name: "ign".to_string(), value: OptionValue::String("Notch".to_string()) },
        CommandOption { name: "user".to_string(), value: OptionValue::User(9) },
    ];
    assert!(get_option(&opts, "user").is_some());
    assert!(get_option(&opts, "other").is_none());
    let (ign, user) = parse_ign_user_slash(&opts).ok().unwrap();
    assert_eq!(ign, "Notch");
    assert_eq!(user, Some(9));
    let two_words = vec![CommandOption { name: "ign".to_string(), value: OptionValue::String("a b".to_string()) }];
    assert_eq!(
        invalid_args(parse_ign_user_slash(&two_words)),
        "The argument `ign` must be a single word. You provided: `a b`"
    );
    let wrong_kind = vec![CommandOption { name: "user".to_string(), value: OptionValue::Integer(3) }];
    assert!(matches!(parse_user_slash(&wrong_kind), Err(CommandError::Generic)));
    assert_eq!(parse_user_slash(&[]).ok().unwrap(), None);
}

#[test]
fn owners_and_other_users() {
    assert!(check_owner(&legacy(OWNER)).is_ok());
    assert!(matches!(check_owner(&legacy(1)), Err(MissingRequirement::BotOwnerOnly)));
    assert!(check_other_user(&legacy(1), None, "no").is_ok());
    assert!(check_other_user(&legacy(1), Some(1), "no").is_ok());
    assert!(check_other_user(&legacy(OWNER), Some(2), "no").is_ok());
    match check_other_user(&legacy(1), Some(2), "no") {
        Err(MissingRequirement::General(m)) => assert_eq!(m, "no"),
        _ => panic!("expected refusal"),
    }
}

#[test]
fn cooldown_blocks_then_lets_through() {
    let mut c = CommandCooldown::new(2_000_000_000);
    assert_eq!(c.check(1, 0, 0, 0), None);
    assert_eq!(c.check(1, 500_000_000, 500_000_000, 500_000_000), Some(1_500_000_000));
    assert_eq!(c.check(2, 500_000_000, 500_000_000, 500_000_000), None);
    assert_eq!(c.check(1, 2_000_000_000, 2_000_000_000, 2_000_000_000), None);
    assert_eq!(c.check(1, 3_000_000_000, 3_000_000_000, 3_000_000_000), Some(1_000_000_000));
}

#[test]
fn refused_check_changes_nothing() {
    let mut c = CommandCooldown::new(10);
    assert_eq!(c.check(1, 0, 0, 0), None);
    assert_eq!(c.check(1, 5, 5, 5), Some(5));
    assert_eq!(c.check(1, 6, 6, 6), Some(4));
}

#[test]
fn command_names_and_usage() {
    assert!(matches!(command_named("link"), Some(CommandKind::Link)));
    assert!(matches!(command_named("sendverification"), Some(CommandKind::SendVerification)));
    assert!(command_named("forceupdate").is_none());
    assert!(command_named("Link").is_none());
    assert_eq!(
        usage(CommandKind::Linked),
        "linked => Get information on the linking status of an user.\nSyntax: linked [user]\nDetails:\n- [user]\n  The Discord user."
    );
    assert_eq!(
        usage(CommandKind::MassLink),
        "masslink => Link all users with the Verified role by checking their nickname.\nSyntax: masslink"
    );
}

#[test]
fn cooldowns_are_kept_per_command() {
    let mut l = CommandCooldownList::new();
    assert_eq!(l.check(CommandKind::Link, 1, 0, 0, 0), None);
    assert_eq!(l.check(CommandKind::Link, 1, 1_000_000_000, 1_000_000_000, 1_000_000_000), Some(1_000_000_000));
    assert_eq!(l.check(CommandKind::Linked, 1, 1_000_000_000, 1_000_000_000, 1_000_000_000), None);
    assert_eq!(l.check(CommandKind::MassLink, 1, 0, 0, 0), None);
    assert_eq!(l.check(CommandKind::MassLink, 1, 1, 1, 1), Some(600_000_000_000 - 1));
}

#[test]
fn run_does_the_checks_in_order() {
    let st = run_start();
    let (st, a) = run_step(st, false, "u", RunEvent::Cooldown(None));
    assert!(matches!(a, RunAction::CheckGenRequirements));
    let (st, a) = run_step(st, false, "u", RunEvent::GenChecked(Ok(())));
    assert!(matches!(a, RunAction::Parse));
    let (st, a) = run_step(st, false, "u", RunEvent::Parsed(Ok(())));
    assert!(matches!(a, RunAction::CheckRequirements));
    let (st, a) = run_step(st, false, "u", RunEvent::ReqChecked(Ok(())));
    assert!(matches!(a, RunAction::Handle));
    let (st, a) = run_step(st, false, "u", RunEvent::Handled(Ok(())));
    assert!(matches!(a, RunAction::Done));
    assert!(matches!(st, RunStage::Finished));
}

#[test]
fn run_answers_failures() {
    let (_, a) = run_step(RunStage::Cooldown, true, "u", RunEvent::Cooldown(Some(2_500_000_000)));
    match a {
        RunAction::Reply(r) => assert_eq!(
            r.embeds.unwrap()[0].description.as_deref(),
            Some("Please wait 3 seconds before using this command again.")
        ),
        _ => panic!("expected a reply"),
    }
    let (_, a) = run_step(
        RunStage::Parse,
        false,
        "use => it",
        RunEvent::Parsed(Err(CommandError::InvalidArgs("bad".to_string()))),
    );
    match a {
        RunAction::Reply(r) => assert_eq!(
            r.embeds.unwrap()[0].description.as_deref(),
            Some("bad\n\n**Usage**:\n```\nuse => it\n```")
        ),
        _ => panic!("expected a reply"),
    }
    let (_, a) = run_step(
        RunStage::GenRequirements,
        true,
        "u",
        RunEvent::GenChecked(Err(MissingRequirement::BotOwnerOnly)),
    );
    assert!(matches!(a, RunAction::Done));
    let (_, a) = run_step(RunStage::Handle, false, "u", RunEvent::Handled(Err(CommandError::NoMsgPermission)));
    assert!(matches!(a, RunAction::Done));
    assert!(matches!(reply_failure(true), CommandError::NoMsgPermission));
    assert!(matches!(reply_failure(false), CommandError::Generic));
}
