use guildbot::commands::args::parse_mention;
use guildbot::commands::definitions::{command_specs, OptionSpec};
use guildbot::commands::dispatch::{command_named, legacy_invocation, CommandKind};
use guildbot::commands::{make_descless_embed, make_empty_embed, CommandResponseBuilder};
use guildbot::config::{BotConfig, BotConfigGuild};
use guildbot::database::DatabaseError;
use guildbot::minecraft::runs::{ApplyAction, UpdateApply};
use guildbot::minecraft::updates::{get_updates, Member, MemberUpdate};
use guildbot::minecraft::HypixelGuildMember;
use guildbot::models::User;
use guildbot::text::u64_to_string;

#[test]
fn mentions_read_back_what_the_bot_writes() {
    for id in [1u64, 9, 10, 887046293669707797, u64::MAX] {
        let s = u64_to_string(id);
        assert_eq!(parse_mention(&format!("<@{}>", s)), Some(id));
        assert_eq!(parse_mention(&s), Some(id));
    }
}

#[test]
fn split_neighbours_are_full_and_few() {
    for size in [1usize, 500, 1500, 2047, 2049, 3000, 4096] {
        let parts: Vec<String> = (0..40).map(|_| "x".repeat(size)).collect();
        let (b, _) = CommandResponseBuilder::new()
            .split_across_embeds(make_descless_embed("T".to_string()), make_empty_embed(), "\n", &parts)
            .ok()
            .unwrap();
        let es = b.build().embeds.unwrap();
        assert!(es.len() <= 10);
        for w in es.windows(2) {
            let a = w[0].description.as_ref().unwrap().len();
            let c = w[1].description.as_ref().unwrap().len();
            assert!(a + 1 + c > 4096, "size {}", size);
        }
    }
}

#[test]
fn a_huge_separator_can_need_many_embeds() {
    let sep = "s".repeat(5000);
    let parts: Vec<String> = (0..12).map(|_| String::new()).collect();
    let (b, i) = CommandResponseBuilder::new()
        .split_across_embeds(make_descless_embed("T".to_string()), make_empty_embed(), &sep, &parts)
        .ok()
        .unwrap();
    assert_eq!(i, 0);
    assert_eq!(b.build().embeds.unwrap().len(), 12);
}

#[test]
fn messages_name_commands_after_the_prefix() {
    match legacy_invocation(Ok(Some(Some("!".to_string()))), "!linked <@5>") {
        Some((CommandKind::Linked, args)) => assert_eq!(args, vec!["<@5>"]),
        _ => panic!("expected linked"),
    }
    assert!(legacy_invocation(Ok(Some(Some("!".to_string()))), ";linked").is_none());
    assert!(matches!(legacy_invocation(Ok(None), ";masslink"), Some((CommandKind::MassLink, _))));
    assert!(matches!(
        legacy_invocation(Err(DatabaseError::QueryError("x".to_string())), ";dryupdate"),
        Some((CommandKind::DryUpdate, _))
    ));
    assert!(legacy_invocation(Ok(None), ";nothing here").is_none());
    assert!(legacy_invocation(Ok(None), ";").is_none());
}

fn config() -> BotConfig {
    BotConfig {
        token: String::new(),
        database_url: String::new(),
        api_key: String::new(),
        guild_id: 1,
        verified_role_id: 50,
        nick_bypass_role: 60,
        notification_channel: 2,
        notification_mention: String::new(),
        no_permission: 99,
        guilds: vec![BotConfigGuild {
            name: "G".to_string(),
            role: 100,
            ranks: vec![("Member".to_string(), 101), ("Officer".to_string(), 102)],
        }],
    }
}

fn apply(m: &Member, u: &MemberUpdate) -> Member {
    Member {
        user_id: m.user_id,
        user_name: m.user_name.clone(),
        global_name: m.global_name.clone(),
        nick: u.nick.clone().or(m.nick.clone()),
        roles: u.roles.clone().unwrap_or(m.roles.clone()),
    }
}

#[test]
fn an_applied_update_needs_no_second_one() {
    let cfg = config();
    let gms = vec![vec![HypixelGuildMember { uuid: "u1".to_string(), rank: "Officer".to_string() }]];
    let linked = vec![User { id: 1, ign: Some("Ign".to_string()), uuid: Some("u1".to_string()) }];
    let members = vec![
        Member { user_id: 1, user_name: "a".to_string(), global_name: None, nick: None, roles: vec![101, 7] },
        Member { user_id: 2, user_name: "b".to_string(), global_name: None, nick: None, roles: vec![50, 102] },
    ];
    let us = get_updates(&cfg, &gms, &linked, &members).ok().unwrap();
    assert_eq!(us.len(), 2);
    let after: Vec<Member> = members
        .iter()
        .map(|m| match us.iter().find(|u| u.id == m.user_id) {
            Some(u) => apply(m, u),
            None => Member { roles: m.roles.clone(), nick: m.nick.clone(), global_name: None, user_name: m.user_name.clone(), user_id: m.user_id },
        })
        .collect();
    assert_eq!(after[0].roles, vec![7, 50, 100, 102]);
    assert_eq!(after[1].roles, vec![102]);
    assert!(get_updates(&cfg, &gms, &linked, &after).ok().unwrap().is_empty());
}

#[test]
fn the_protected_member_is_never_renamed() {
    let updates = vec![
        MemberUpdate { id: 99, roles: None, add: vec![], remove: vec![], nick: Some("x".to_string()) },
        MemberUpdate { id: 3, roles: None, add: vec![], remove: vec![], nick: Some("y".to_string()) },
    ];
    let (_, a) = UpdateApply::start(updates, 99);
    match a {
        ApplyAction::Edit(e) => {
            assert_eq!(e.user, 99);
            assert!(e.nick.is_none());
        }
        _ => panic!("expected an edit"),
    }
}

#[test]
fn every_registered_command_is_answered() {
    let specs = command_specs();
    assert_eq!(specs.len(), 8);
    for spec in &specs {
        assert!(command_named(&spec.name).is_some(), "{}", spec.name);
    }
    assert_eq!(specs[2].name, "link");
    assert_eq!(specs[2].description, "Link an user to an IGN.");
    match &specs[2].options[0] {
        OptionSpec::Text { name, min_length, max_length, required, .. } => {
            assert_eq!((name.as_str(), *min_length, *max_length, *required), ("ign", 2, 16, true));
        }
        _ => panic!("expected the ign option"),
    }
    assert!(specs[5].options.is_empty());
}
