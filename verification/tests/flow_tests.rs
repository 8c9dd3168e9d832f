use guildbot::commands::forcelink::ForceLinkFlow;
use guildbot::commands::link::{target_user, LinkAction, LinkEvent, LinkFlow};
use guildbot::commands::linked::linked_reply;
use guildbot::commands::unlink::{UnlinkAction, UnlinkEvent, UnlinkFlow};
use guildbot::commands::{forcelink, unlink, CommandData, CommandError, CommandResponseBuilder};
use guildbot::database::DatabaseError;
use guildbot::minecraft::{LinkedDiscordRequestError, MinecraftUserRequestError, UserIdResponse};
use guildbot::models::User;

fn account(name: &str, id: &str) -> UserIdResponse {
    UserIdResponse { id: id.to_string(), name: name.to_string() }
}

fn only_description(b: CommandResponseBuilder) -> String {
    let r = b.build();
    let es = r.embeds.unwrap();
    assert_eq!(es.len(), 1);
    es[0].description.clone().unwrap()
}

fn specific(a: LinkAction) -> String {
    match a {
        LinkAction::Finish(Err(CommandError::Specific(m))) => m,
        _ => panic!("expected a specific error"),
    }
}

#[test]
fn link_runs_to_the_end() {
    let (mut f, a) = LinkFlow::start(42, 7, "steve".to_string(), "discorduser".to_string());
    assert!(matches!(a, LinkAction::FetchLinked(42)));
    match f.step(LinkEvent::Linked(Ok(None))) {
        LinkAction::FetchAccount(n) => assert_eq!(n, "steve"),
        _ => panic!("expected an account lookup"),
    }
    match f.step(LinkEvent::Account(Ok(account("Steve", "abc123")))) {
        LinkAction::FetchDiscord(u) => assert_eq!(u, "abc123"),
        _ => panic!("expected a Hypixel lookup"),
    }
    match f.step(LinkEvent::Discord(Ok("discorduser".to_string()))) {
        LinkAction::Insert { user_id, ign, uuid } => {
            assert_eq!(user_id, 42);
            assert_eq!(ign, "Steve");
            assert_eq!(uuid, "abc123");
        }
        _ => panic!("expected an insert"),
    }
    assert!(matches!(f.step(LinkEvent::Inserted(Ok(1))), LinkAction::AddRole { guild_id: 7, user: 42 }));
    match f.step(LinkEvent::RoleAdded(true)) {
        LinkAction::Finish(Ok(b)) => assert_eq!(only_description(b), "Linked user <@42> (`42`) to IGN `Steve` (`abc123`)!"),
        _ => panic!("expected success"),
    }
}

#[test]
fn link_refuses_a_mismatched_discord_account() {
    let (mut f, _) = LinkFlow::start(1, 2, "a".to_string(), "me".to_string());
    f.step(LinkEvent::Linked(Ok(None)));
    f.step(LinkEvent::Account(Ok(account("A", "u"))));
    let m = specific(f.step(LinkEvent::Discord(Ok("someone".to_string()))));
    assert!(m.starts_with(
        "The username linked on Hypixel and your current Discord username don't seem to match.\n**Your Username:** `me`\n**Username linked on Hypixel:** `someone`\n\n> **Please update the username on Hypixel:**\n**1.** Log on Hypixel"
    ));
}

#[test]
fn link_errors_along_the_way() {
    let (_, a) = LinkFlow::start(u64::MAX, 2, "a".to_string(), "me".to_string());
    assert!(matches!(a, LinkAction::Finish(Err(CommandError::InvalidArgs(m))) if m == "The user id you provided is too high."));

    let (mut f, _) = LinkFlow::start(3, 2, "a".to_string(), "me".to_string());
    let linked = User { id: 3, ign: Some("Old".to_string()), uuid: Some("x".to_string()) };
    assert_eq!(
        specific(f.step(LinkEvent::Linked(Ok(Some(linked))))),
        "The user <@3> (`3`) is already linked to `Old`. You can unlink with `unlink`. Unlinking is required to link to a different IGN."
    );

    let (mut f, _) = LinkFlow::start(3, 2, "a".to_string(), "me".to_string());
    let broken = User { id: 3, ign: None, uuid: Some("x".to_string()) };
    assert_eq!(
        specific(f.step(LinkEvent::Linked(Ok(Some(broken))))),
        "Your linking status seems to be broken. Please use `unlink` and notify staff."
    );

    let (mut f, _) = LinkFlow::start(3, 2, "bad!".to_string(), "me".to_string());
    f.step(LinkEvent::Linked(Ok(None)));
    assert_eq!(
        specific(f.step(LinkEvent::Account(Err(MinecraftUserRequestError::InvalidName)))),
        "The name you provided contains characters that are not valid in a Minecraft username."
    );

    let (mut f, _) = LinkFlow::start(3, 2, "nobody".to_string(), "me".to_string());
    f.step(LinkEvent::Linked(Ok(None)));
    assert_eq!(
        specific(f.step(LinkEvent::Account(Err(MinecraftUserRequestError::UserNotFound)))),
        "There doesn't seem to exist a Minecraft user with the name `nobody`."
    );

    let (mut f, _) = LinkFlow::start(3, 2, "x".to_string(), "me".to_string());
    f.step(LinkEvent::Linked(Ok(None)));
    f.step(LinkEvent::Account(Ok(account("X", "id1"))));
    assert_eq!(
        specific(f.step(LinkEvent::Discord(Err(LinkedDiscordRequestError::UserNotFound)))),
        "The Minecraft user `X` (`id1`) seems to have never played on Hypixel."
    );

    let (mut f, _) = LinkFlow::start(3, 2, "x".to_string(), "me".to_string());
    assert!(matches!(
        f.step(LinkEvent::Linked(Err(DatabaseError::QueryError("down".to_string())))),
        LinkAction::Finish(Err(CommandError::Generic))
    ));

    let (mut f, _) = LinkFlow::start(3, 2, "x".to_string(), "me".to_string());
    f.step(LinkEvent::Linked(Ok(None)));
    f.step(LinkEvent::Account(Ok(account("X", "id1"))));
    f.step(LinkEvent::Discord(Ok("me".to_string())));
    assert!(matches!(f.step(LinkEvent::Inserted(Ok(0))), LinkAction::Finish(Err(CommandError::Generic))));

    let (mut f, _) = LinkFlow::start(3, 2, "x".to_string(), "me".to_string());
    f.step(LinkEvent::Linked(Ok(None)));
    f.step(LinkEvent::Account(Ok(account("X", "id1"))));
    f.step(LinkEvent::Discord(Ok("me".to_string())));
    f.step(LinkEvent::Inserted(Ok(1)));
    assert_eq!(
        specific(f.step(LinkEvent::RoleAdded(false))),
        "Failed to add the Verified role to the user. Please contact staff."
    );
}

fn chat(author: Option<u64>, guild: Option<u64>) -> CommandData {
    CommandData::ChatInput { guild_id: guild, author_id: author, user_name: Some("n".to_string()) }
}

#[test]
fn targets_of_commands() {
    assert!(matches!(target_user(&chat(None, Some(1)), None), Err(CommandError::Generic)));
    assert_eq!(target_user(&chat(Some(5), Some(1)), None).ok().unwrap(), (5, 5));
    assert_eq!(target_user(&chat(Some(5), Some(1)), Some(6)).ok().unwrap(), (6, 6));
    assert!(matches!(target_user(&chat(Some(5), Some(1)), Some(u64::MAX)), Err(CommandError::InvalidArgs(_))));
}

#[test]
fn forcelink_skips_hypixel() {
    let args = forcelink::Command { ign: "alex".to_string(), user: Some(9) };
    let (mut f, a) = ForceLinkFlow::start(&chat(Some(1), Some(3)), args);
    assert!(matches!(a, LinkAction::FetchLinked(9)));
    f.step(LinkEvent::Linked(Ok(None)));
    match f.step(LinkEvent::Account(Ok(account("Alex", "u9")))) {
        LinkAction::Insert { user_id, ign, uuid } => {
            assert_eq!((user_id, ign.as_str(), uuid.as_str()), (9, "Alex", "u9"));
        }
        _ => panic!("expected an insert"),
    }
    assert!(matches!(f.step(LinkEvent::Inserted(Ok(1))), LinkAction::AddRole { guild_id: 3, user: 9 }));
    match f.step(LinkEvent::RoleAdded(true)) {
        LinkAction::Finish(Ok(b)) => {
            assert_eq!(only_description(b), "Forcefully linked user <@9> (`9`) to IGN `Alex` (`u9`).")
        }
        _ => panic!("expected success"),
    }
}

#[test]
fn forcelink_refusals() {
    let args = forcelink::Command { ign: "alex".to_string(), user: None };
    let (_, a) = ForceLinkFlow::start(&chat(Some(1), None), args);
    assert_eq!(specific(a), "This command cannot be used outside of the guild.");
    let args = forcelink::Command { ign: "alex".to_string(), user: Some(2) };
    let (mut f, _) = ForceLinkFlow::start(&chat(Some(1), Some(3)), args);
    let linked = User { id: 2, ign: Some("Old".to_string()), uuid: Some("x".to_string()) };
    assert_eq!(
        specific(f.step(LinkEvent::Linked(Ok(Some(linked))))),
        "The user <@2> (`2`) is already linked to `Old`. You can unlink them using `unlink <user>`."
    );
}

#[test]
fn unlink_runs_to_the_end() {
    let (mut f, a) = UnlinkFlow::start(&chat(Some(4), Some(3)), unlink::Command { user: None });
    assert!(matches!(a, UnlinkAction::FetchLinked(4)));
    let linked = User { id: 4, ign: Some("A".to_string()), uuid: Some("x".to_string()) };
    assert!(matches!(f.step(UnlinkEvent::Linked(Ok(Some(linked)))), UnlinkAction::Delete(4)));
    assert!(matches!(f.step(UnlinkEvent::Deleted(Ok(1))), UnlinkAction::RemoveRole { guild_id: 3, user: 4 }));
    match f.step(UnlinkEvent::RoleRemoved(true)) {
        UnlinkAction::Finish(Ok(b)) => assert_eq!(only_description(b), "<@4> (`4`) has been successfully unlinked!"),
        _ => panic!("expected success"),
    }
}

#[test]
fn unlink_refusals() {
    let (mut f, _) = UnlinkFlow::start(&chat(Some(4), Some(3)), unlink::Command { user: None });
    match f.step(UnlinkEvent::Linked(Ok(None))) {
        UnlinkAction::Finish(Err(CommandError::Specific(m))) => assert_eq!(
            m,
            "You are not linked! Run `link` to link your IGN to your user. This command is to unlink someone who is already linked."
        ),
        _ => panic!("expected refusal"),
    }
    let (mut f, _) = UnlinkFlow::start(&chat(Some(4), Some(3)), unlink::Command { user: None });
    let linked = User { id: 4, ign: None, uuid: None };
    f.step(UnlinkEvent::Linked(Ok(Some(linked))));
    f.step(UnlinkEvent::Deleted(Ok(1)));
    match f.step(UnlinkEvent::RoleRemoved(false)) {
        UnlinkAction::Finish(Err(CommandError::Specific(m))) => {
            assert_eq!(m, "Failed to remove the Verified role from the user. Please contact staff.")
        }
        _ => panic!("expected failure"),
    }
    let (mut f, _) = UnlinkFlow::start(&chat(Some(4), Some(3)), unlink::Command { user: None });
    let linked = User { id: 4, ign: None, uuid: None };
    f.step(UnlinkEvent::Linked(Ok(Some(linked))));
    assert!(matches!(f.step(UnlinkEvent::Deleted(Ok(2))), UnlinkAction::Finish(Err(CommandError::Generic))));
    let (_, a) = UnlinkFlow::start(&chat(None, Some(3)), unlink::Command { user: None });
    assert!(matches!(a, UnlinkAction::Finish(Err(CommandError::Generic))));
}

#[test]
fn linked_shows_the_link() {
    let u = User { id: 8, ign: Some("Ign".to_string()), uuid: Some("uuid".to_string()) };
    assert_eq!(
        only_description(linked_reply(8, Ok(Some(u))).ok().unwrap()),
        "**User:** <@8> (`8`)\n**IGN:** `Ign`\n**UUID:** `uuid`"
    );
    assert_eq!(
        only_description(linked_reply(8, Ok(None)).ok().unwrap()),
        "**User:** <@8> (`8`)\n**IGN:** -\n**UUID:** -"
    );
    let broken = User { id: 8, ign: Some("Ign".to_string()), uuid: None };
    assert!(matches!(linked_reply(8, Ok(Some(broken))), Err(CommandError::Specific(_))));
    assert!(matches!(
        linked_reply(8, Err(DatabaseError::PoolError("x".to_string()))),
        Err(CommandError::Generic)
    ));
}
