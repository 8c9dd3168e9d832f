use guildbot::commands::args::{CommandOption, OptionValue};
use guildbot::commands::dryupdate::{dry_run_responses, fatal_error};
use guildbot::commands::forceupdate::{started_reply, update_notice};
use guildbot::commands::interactions::{
    button_reply, deferred_response, modal_request, modal_response, verification_modal, ButtonReply,
    InteractionMember, InteractionUser, ModalField, ModalRow,
};
use guildbot::commands::masslink::{filter_verified, MassLinkAction, MassLinkEvent, MassLinkFlow};
use guildbot::commands::sendverification::{sent_reply, verification_message};
use guildbot::commands::updateloop::{self, Command as LoopCommand};
use guildbot::commands::{ActionRow, CommandError, CommandResponse, CommandResponseBuilder, Component, EPHEMERAL};
use guildbot::database::DatabaseError;
use guildbot::minecraft::updates::{Member, MemberUpdate};
use guildbot::minecraft::{
    GetGuildMembersError, LinkedDiscordRequestError, MinecraftUserRequestError, UpdateRolesError,
    UserIdResponse,
};
use guildbot::models::User;

fn descs(r: &CommandResponse) -> Vec<String> {
    r.embeds.as_ref().unwrap().iter().map(|e| e.description.clone().unwrap_or_default()).collect()
}

fn title(b: CommandResponseBuilder) -> String {
    b.build().embeds.unwrap()[0].title.clone().unwrap()
}

#[test]
fn updateloop_subcommands_from_words() {
    assert!(matches!(updateloop::parse_arguments_legacy(vec!["status".to_string()]), Ok(LoopCommand::Status)));
    assert!(matches!(updateloop::parse_arguments_legacy(vec!["disable".to_string()]), Ok(LoopCommand::Disable)));
    match updateloop::parse_arguments_legacy(vec![]) {
        Err(CommandError::InvalidArgs(m)) => assert_eq!(
            m,
            "You must specify a subcommand to execute.\n> Available subcommands: `status, enable, disable`"
        ),
        _ => panic!("expected an argument error"),
    }
    match updateloop::parse_arguments_legacy(vec!["start".to_string()]) {
        Err(CommandError::InvalidArgs(m)) => assert_eq!(
            m,
            "The subcommand you provided does not exist.\n> Available subcommands: `status, enable, disable`"
        ),
        _ => panic!("expected an argument error"),
    }
    match updateloop::parse_arguments_legacy(vec!["enable".to_string(), "now".to_string()]) {
        Err(CommandError::InvalidArgs(m)) => assert_eq!(
            m,
            "You provided too many arguments for this command. Expected a maximum of `0` arguments, but you provided `1`."
        ),
        _ => panic!("expected an argument error"),
    }
}

#[test]
fn updateloop_subcommands_from_options() {
    let opts = vec![CommandOption { name: "enable".to_string(), value: OptionValue::SubCommand(vec![]) }];
    assert!(matches!(updateloop::parse_arguments_slash(&opts), Ok(LoopCommand::Enable)));
    let opts = vec![CommandOption { name: "enable".to_string(), value: OptionValue::Integer(1) }];
    assert!(matches!(updateloop::parse_arguments_slash(&opts), Err(CommandError::Generic)));
    assert!(matches!(updateloop::parse_arguments_slash(&[]), Err(CommandError::Generic)));
}

#[test]
fn updateloop_pauses_and_resumes() {
    let (paused, b) = updateloop::run(LoopCommand::Status, false);
    assert!(!paused);
    assert_eq!(title(b), "Update loop enabled: `true`");
    let (paused, b) = updateloop::run(LoopCommand::Status, true);
    assert!(paused);
    assert_eq!(title(b), "Update loop enabled: `false`");
    let (paused, b) = updateloop::run(LoopCommand::Disable, false);
    assert!(paused);
    assert_eq!(title(b), "Update loop disabled!");
    let (paused, b) = updateloop::run(LoopCommand::Enable, true);
    assert!(!paused);
    assert_eq!(title(b), "Update loop enabled!");
}

fn member(id: u64, name: &str, nick: Option<&str>, roles: Vec<u64>) -> Member {
    Member {
        user_id: id,
        user_name: name.to_string(),
        global_name: None,
        nick: nick.map(|n| n.to_string()),
        roles,
    }
}

#[test]
fn masslink_keeps_verified_members_in_order() {
    let ms = vec![member(1, "a", None, vec![5]), member(2, "b", None, vec![]), member(3, "c", None, vec![6, 5])];
    let kept: Vec<u64> = filter_verified(ms, 5).iter().map(|m| m.user_id).collect();
    assert_eq!(kept, vec![1, 3]);
}

#[test]
fn masslink_announces_and_sums_up() {
    let ms = vec![
        member(1, "alpha", Some("Alpha"), vec![5]),
        member(2, "beta", None, vec![5]),
        member(3, "gamma", None, vec![5]),
    ];
    let (mut f, a) = MassLinkFlow::start(Ok(ms), 5);
    match a {
        MassLinkAction::Reply(b) => assert_eq!(
            descs(&b.build()),
            vec!["There are 3 members with the verified role.\n**Approximate time needed:** `30s`.".to_string()]
        ),
        _ => panic!("expected the announcement"),
    }
    assert!(matches!(f.step(MassLinkEvent::Replied(Ok(()))), MassLinkAction::FetchLinked(1)));
    assert!(matches!(f.step(MassLinkEvent::Linked(Ok(None))), MassLinkAction::Sleep(10)));
    match f.step(MassLinkEvent::Slept) {
        MassLinkAction::FetchAccount(n) => assert_eq!(n, "Alpha"),
        _ => panic!("expected a lookup of the nickname"),
    }
    let acc = UserIdResponse { id: "u1".to_string(), name: "Alpha".to_string() };
    assert!(matches!(f.step(MassLinkEvent::Account(Ok(acc))), MassLinkAction::FetchDiscord(_)));
    assert!(matches!(f.step(MassLinkEvent::Discord(Ok("alpha".to_string()))), MassLinkAction::Insert { user_id: 1, .. }));
    assert!(matches!(f.step(MassLinkEvent::Inserted(Ok(1))), MassLinkAction::FetchLinked(2)));
    let linked = User { id: 2, ign: None, uuid: None };
    assert!(matches!(f.step(MassLinkEvent::Linked(Ok(Some(linked)))), MassLinkAction::FetchLinked(3)));
    assert!(matches!(f.step(MassLinkEvent::Linked(Ok(None))), MassLinkAction::Sleep(10)));
    match f.step(MassLinkEvent::Slept) {
        MassLinkAction::FetchAccount(n) => assert_eq!(n, "gamma"),
        _ => panic!("expected a lookup of the username"),
    }
    match f.step(MassLinkEvent::Account(Err(MinecraftUserRequestError::UserNotFound))) {
        MassLinkAction::Finish(Ok(b)) => assert_eq!(
            descs(&b.build()),
            vec!["**Already linked:** `1`\n**Successful:** `1`\n**Failed:** `1`\n**Total:** `3`".to_string()]
        ),
        _ => panic!("expected the summary"),
    }
}

#[test]
fn masslink_failures() {
    let (_, a) = MassLinkFlow::start(Err(GetGuildMembersError::TooManyMembers), 5);
    assert!(matches!(a, MassLinkAction::Finish(Err(CommandError::Specific(m))) if m == "Failed to fetch guild members."));
    let (_, a) = MassLinkFlow::start(Ok(vec![]), 5);
    match a {
        MassLinkAction::Reply(b) => assert_eq!(
            descs(&b.build()),
            vec!["There are 0 members with the verified role.\n**Approximate time needed:** `0ns`.".to_string()]
        ),
        _ => panic!("expected the announcement"),
    }
    let (mut f, _) = MassLinkFlow::start(Ok(vec![member(u64::MAX, "x", None, vec![5])]), 5);
    assert!(matches!(
        f.step(MassLinkEvent::Replied(Ok(()))),
        MassLinkAction::Finish(Err(CommandError::Specific(m))) if m == "An user id is too high: <@18446744073709551615> (`18446744073709551615`)."
    ));
    let (mut f, _) = MassLinkFlow::start(Ok(vec![member(4, "x", None, vec![5])]), 5);
    f.step(MassLinkEvent::Replied(Ok(())));
    f.step(MassLinkEvent::Linked(Ok(None)));
    f.step(MassLinkEvent::Slept);
    f.step(MassLinkEvent::Account(Ok(UserIdResponse { id: "u".to_string(), name: "X".to_string() })));
    assert!(matches!(
        f.step(MassLinkEvent::Discord(Err(LinkedDiscordRequestError::BadStatusCode(500)))),
        MassLinkAction::Finish(Err(CommandError::Specific(m))) if m == "Error while fetching linked username of user <@4> (`4`)."
    ));
    let (mut f, _) = MassLinkFlow::start(Ok(vec![member(4, "x", None, vec![5])]), 5);
    f.step(MassLinkEvent::Replied(Ok(())));
    assert!(matches!(
        f.step(MassLinkEvent::Linked(Err(DatabaseError::QueryError("q".to_string())))),
        MassLinkAction::Finish(Err(CommandError::Generic))
    ));
}

fn update(id: u64, nick: Option<&str>) -> MemberUpdate {
    MemberUpdate { id, roles: None, add: vec![], remove: vec![], nick: nick.map(|n| n.to_string()) }
}

#[test]
fn dryupdate_without_changes() {
    let rs = dry_run_responses(&vec![]).ok().unwrap();
    assert_eq!(rs.len(), 1);
    let e = &rs[0].embeds.as_ref().unwrap()[0];
    assert_eq!(e.title.as_deref(), Some("Update actions (dry run)"));
    assert_eq!(e.description.as_deref(), Some("No actions required."));
}

#[test]
fn dryupdate_lists_one_line_per_update() {
    let rs = dry_run_responses(&vec![update(1, Some("A")), update(2, None)]).ok().unwrap();
    assert_eq!(rs.len(), 1);
    assert_eq!(descs(&rs[0]), vec!["<@1>:\n- Change nickname to `A`.\n<@2>: No updates.".to_string()]);
}

#[test]
fn dryupdate_pages_many_updates() {
    let long = "n".repeat(1000);
    let updates: Vec<MemberUpdate> = (1..=40).map(|i| update(i, Some(&long))).collect();
    let rs = dry_run_responses(&updates).ok().unwrap();
    // Five pages of changes follow the first, then the note.
    assert_eq!(rs.len(), 7);
    assert_eq!(descs(&rs[6]), vec!["Not all actions have been displayed. They are too many.".to_string()]);
}

#[test]
fn dryupdate_fatal_errors() {
    match fatal_error(&UpdateRolesError::InvalidDbUser(3)) {
        CommandError::Specific(m) => assert_eq!(
            m,
            "There was a fatal error: An user doesn't seem to have a valid linking status in the database. The state is corrupted."
        ),
        _ => panic!("expected a specific error"),
    }
    match fatal_error(&UpdateRolesError::GetGuildMembers(GetGuildMembersError::TooManyMembers)) {
        CommandError::Specific(m) => assert_eq!(m, "There was a fatal error: Failed to fetch guild members."),
        _ => panic!("expected a specific error"),
    }
}

#[test]
fn verification_message_has_the_button() {
    let r = verification_message().build();
    let e = &r.embeds.as_ref().unwrap()[0];
    assert_eq!(e.title.as_deref(), Some("DaySleepers | Hypixel Verification"));
    let rows: &Vec<ActionRow> = r.components.as_ref().unwrap();
    match &rows[0].components[0] {
        Component::Button { custom_id, label } => {
            assert_eq!(custom_id, "verify");
            assert_eq!(label, "Verify");
        }
        _ => panic!("expected a button"),
    }
    assert_eq!(title(sent_reply()), "Verification message sent!");
}

fn pressing_member(roles: Vec<u64>) -> Option<InteractionMember> {
    Some(InteractionMember { roles, user: Some(InteractionUser { id: 11, name: "me".to_string() }) })
}

#[test]
fn button_opens_the_form() {
    match button_reply("verify", Some(1), &pressing_member(vec![]), 5) {
        ButtonReply::Modal(m) => {
            assert_eq!(m.custom_id, "verify");
            assert_eq!(m.title, "Hypixel Verification");
        }
        _ => panic!("expected the form"),
    }
    match button_reply("verify", Some(1), &pressing_member(vec![5]), 5) {
        ButtonReply::Ephemeral(r) => {
            assert_eq!(r.flags, Some(EPHEMERAL));
            assert_eq!(
                descs(&r),
                vec!["You are already verified! Run `unlink` to unlink yourself and then `link` to link to a new user.".to_string()]
            );
        }
        _ => panic!("expected a refusal"),
    }
    match button_reply("other", Some(1), &pressing_member(vec![]), 5) {
        ButtonReply::Ephemeral(r) => assert_eq!(descs(&r), vec!["Sorry, there was an unexpected error.".to_string()]),
        _ => panic!("expected a refusal"),
    }
    assert!(matches!(button_reply("verify", None, &pressing_member(vec![]), 5), ButtonReply::Ephemeral(_)));
    match &verification_modal().components[0].components[0] {
        Component::TextInput { custom_id, min_length, max_length, .. } => {
            assert_eq!(custom_id, "ign");
            assert_eq!((*min_length, *max_length), (1, 16));
        }
        _ => panic!("expected a text input"),
    }
}

#[test]
fn form_submission_reads_the_name() {
    let rows = vec![ModalRow { components: vec![ModalField { custom_id: "ign".to_string(), value: Some("Notch".to_string()) }] }];
    let q = modal_request("verify", Some(2), &pressing_member(vec![]), &rows, 5).ok().unwrap();
    assert_eq!((q.user, q.guild_id, q.ign.as_str(), q.username.as_str()), (11, 2, "Notch", "me"));
    assert!(matches!(modal_request("verify", Some(2), &pressing_member(vec![]), &vec![], 5), Err(CommandError::Generic)));
    assert!(matches!(
        modal_request("verify", Some(2), &pressing_member(vec![5]), &rows, 5),
        Err(CommandError::Specific(_))
    ));
    let no_user = Some(InteractionMember { roles: vec![], user: None });
    assert!(matches!(modal_request("verify", Some(2), &no_user, &rows, 5), Err(CommandError::Generic)));
    let empty = vec![ModalRow { components: vec![ModalField { custom_id: "ign".to_string(), value: None }] }];
    assert!(matches!(modal_request("verify", Some(2), &pressing_member(vec![]), &empty, 5), Err(CommandError::Generic)));
    assert_eq!(deferred_response().flags, Some(EPHEMERAL));
    let ok = modal_response(Ok(CommandResponseBuilder::new().ed("done".to_string())));
    assert_eq!(ok.flags, Some(EPHEMERAL));
    assert_eq!(descs(&ok), vec!["done".to_string()]);
    let err = modal_response(Err(CommandError::Generic));
    assert_eq!(descs(&err), vec!["Sorry, there was an unexpected error.".to_string()]);
}

#[test]
fn forced_update_texts() {
    let r = started_reply().build();
    assert_eq!(r.embeds.as_ref().unwrap()[0].title.as_deref(), Some("Starting forced update!"));
    assert!(update_notice(true).is_none());
    assert_eq!(
        update_notice(false).unwrap(),
        "there was an error in the update loop while updating members."
    );
}
