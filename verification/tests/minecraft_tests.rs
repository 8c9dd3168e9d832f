use guildbot::config::{BotConfig, BotConfigGuild};
use guildbot::database::{guild_prefix_or_default, DatabaseError};
use guildbot::minecraft::runs::{
    guild_uuids, ApplyAction, ApplyEvent, GatherAction, GatherEvent, UpdateApply, UpdateGather,
};
use guildbot::minecraft::tasks::{
    ign_lookup_uuid, ign_needs_update, loop_start, loop_step, member_edit, notification_content,
    verified_member_ids, IgnAction, IgnEvent, IgnRefresh, LoopAction, LoopEvent, LoopState,
    MemberPages, PageAction,
};
use guildbot::minecraft::updates::{get_updates, Member, MemberUpdate};
use guildbot::minecraft::{
    guild_from_response, guild_url, is_valid_username, is_valid_uuid,
    linked_discord_from_response, player_url, profile_status, user_id_url, user_ign_url,
    GetGuildMembersError, GuildRequestError, GuildResponse, HypixelGuild, HypixelGuildMember,
    LinkedDiscordRequestError, LinkedDiscordResponse, LinkedDiscordResponsePlayer,
    LinkedDiscordResponsePlayerSocialMedia, LinkedDiscordResponsePlayerSocialMediaLinks,
    MinecraftUserRequestError, UpdateIgnsError, UpdateRolesError, UpdateUsersError, UserIdResponse,
};
use guildbot::models::User;
use guildbot::{presence_name, shard_step, GatewayItem, ShardStep};

fn config() -> BotConfig {
    BotConfig {
        token: "t".to_string(),
        database_url: "d".to_string(),
        api_key: "k".to_string(),
        guild_id: 1,
        verified_role_id: 50,
        nick_bypass_role: 60,
        notification_channel: 2,
        notification_mention: "@staff".to_string(),
        no_permission: 99,
        guilds: vec![BotConfigGuild {
            name: "G".to_string(),
            role: 100,
            ranks: vec![("Member".to_string(), 101), ("Officer".to_string(), 102)],
        }],
    }
}

fn member(id: u64, name: &str, nick: Option<&str>, roles: Vec<u64>) -> Member {
    Member { user_id: id, user_name: name.to_string(), global_name: None, nick: nick.map(|n| n.to_string()), roles }
}

fn hypixel(uuid: &str, rank: &str) -> HypixelGuildMember {
    HypixelGuildMember { uuid: uuid.to_string(), rank: rank.to_string() }
}

fn link(id: i64, ign: Option<&str>, uuid: Option<&str>) -> User {
    User { id, ign: ign.map(|s| s.to_string()), uuid: uuid.map(|s| s.to_string()) }
}

#[test]
fn updates_follow_links_and_ranks() {
    let cfg = config();
    let gms = vec![vec![hypixel("u1", "Officer")]];
    let linked = vec![link(1, Some("Ign1"), Some("u1"))];
    let members = vec![
        member(1, "x", None, vec![101]),
        member(2, "y", None, vec![50, 100, 7]),
        member(3, "z", None, vec![7]),
    ];
    let us = get_updates(&cfg, &gms, &linked, &members).ok().unwrap();
    assert_eq!(us.len(), 2);
    assert_eq!(us[0].id, 1);
    assert_eq!(us[0].roles, Some(vec![50, 100, 102]));
    assert_eq!(us[0].add, vec![50, 100, 102]);
    assert_eq!(us[0].remove, vec![101]);
    assert_eq!(us[0].nick.as_deref(), Some("Ign1"));
    assert_eq!(
        us[0].to_string(),
        "<@1>:\n - Add roles <@&50>, <@&100>, <@&102>.\n- Remove role <@&101>.\n- Change nickname to `Ign1`."
    );
    assert_eq!(us[1].id, 2);
    assert_eq!(us[1].roles, Some(vec![7]));
    assert_eq!(us[1].remove, vec![50, 100]);
    assert!(us[1].nick.is_none());
    assert_eq!(us[1].to_string(), "<@2>:\n- Remove roles <@&50>, <@&100>.");
}

#[test]
fn updates_leave_bypassing_and_matching_nicknames() {
    let cfg = config();
    let gms = vec![vec![hypixel("u1", "Member")]];
    let linked = vec![link(1, Some("Ign1"), Some("u1")), link(2, Some("Ign2"), Some("u2"))];
    let members = vec![
        member(1, "x", Some("Ign1"), vec![50, 100, 101]),
        member(2, "y", None, vec![60, 50]),
    ];
    let us = get_updates(&cfg, &gms, &linked, &members).ok().unwrap();
    assert!(us.is_empty());
}

#[test]
fn updates_fail_on_a_broken_link() {
    let cfg = config();
    let gms = vec![vec![]];
    let linked = vec![link(4, None, Some("u4"))];
    let members = vec![member(3, "z", None, vec![]), member(4, "w", None, vec![])];
    assert!(matches!(get_updates(&cfg, &gms, &linked, &members), Err(UpdateRolesError::InvalidDbUser(4))));
}

#[test]
fn member_edits() {
    let u = MemberUpdate { id: 99, roles: Some(vec![1]), add: vec![1], remove: vec![], nick: Some("N".to_string()) };
    let e = member_edit(u, 99).unwrap();
    assert_eq!(e.user, 99);
    assert!(e.nick.is_none());
    assert_eq!(e.roles, Some(vec![1]));
    let u = MemberUpdate { id: 5, roles: None, add: vec![], remove: vec![], nick: Some("N".to_string()) };
    let e = member_edit(u, 99).unwrap();
    assert_eq!(e.nick.as_deref(), Some("N"));
    let empty = MemberUpdate { id: 5, roles: None, add: vec![], remove: vec![], nick: None };
    assert!(member_edit(empty, 99).is_none());
}

#[test]
fn verified_ids_skip_others() {
    let ms = vec![member(1, "a", None, vec![50]), member(2, "b", None, vec![]), member(u64::MAX, "c", None, vec![50])];
    assert_eq!(verified_member_ids(&ms, 50), vec![1i64]);
}

#[test]
fn stored_names_and_uuids() {
    assert!(matches!(ign_lookup_uuid(&link(3, Some("a"), None)), Err(UpdateIgnsError::InvalidDbUser(3))));
    assert_eq!(ign_lookup_uuid(&link(3, None, Some("u"))).ok().unwrap(), "u");
    assert!(ign_needs_update(&None, "x"));
    assert!(ign_needs_update(&Some("y".to_string()), "x"));
    assert!(!ign_needs_update(&Some("x".to_string()), "x"));
}

#[test]
fn member_pages() {
    let mut p = MemberPages::new();
    assert!(matches!(p.next_action(), PageAction::Fetch { after: None }));
    let page: Vec<Member> = (1..=1000).map(|i| member(i, "n", None, vec![])).collect();
    p.add_page(page);
    assert!(matches!(p.next_action(), PageAction::Fetch { after: Some(1000) }));
    p.add_page(vec![member(1001, "n", None, vec![])]);
    assert!(matches!(p.next_action(), PageAction::Done));
    assert_eq!(p.members.len(), 1001);
    let mut full = MemberPages::new();
    for k in 0..5u64 {
        full.add_page((1..=1000).map(|i| member(k * 1000 + i, "n", None, vec![])).collect());
    }
    assert!(matches!(full.next_action(), PageAction::Failed(GetGuildMembersError::TooManyMembers)));
}

#[test]
fn update_loop_rounds() {
    let (st, a) = loop_start();
    assert!(matches!(a, LoopAction::Sleep(1800)));
    let (st, a) = loop_step(st, LoopEvent::Slept { paused: false });
    assert!(matches!(a, LoopAction::UpdateIgns));
    let (mut st, a) = loop_step(st, LoopEvent::IgnsDone { ok: true, paused: false });
    assert!(matches!(a, LoopAction::UpdateUsers));
    for i in 0..3u8 {
        let (s, a) = loop_step(st, LoopEvent::UsersDone { ok: true });
        assert!(matches!(a, LoopAction::Sleep(1800)));
        assert!(matches!(s, LoopState::InnerSleep(j) if j == i));
        let (s, a) = loop_step(s, LoopEvent::Slept { paused: false });
        assert!(matches!(a, LoopAction::UpdateUsers));
        st = s;
    }
    let (st, a) = loop_step(st, LoopEvent::UsersDone { ok: false });
    match a {
        LoopAction::Notify(t) => assert_eq!(t, "there was an error in the update loop while updating members."),
        _ => panic!("expected a notice"),
    }
    let (st, a) = loop_step(st, LoopEvent::Notified);
    assert!(matches!(st, LoopState::OuterSleep));
    assert!(matches!(a, LoopAction::Sleep(1800)));
    let (st, _) = loop_step(st, LoopEvent::Slept { paused: true });
    assert!(matches!(st, LoopState::OuterSleep));
    let (st, _) = loop_step(st, LoopEvent::Slept { paused: false });
    let (st, a) = loop_step(st, LoopEvent::IgnsDone { ok: false, paused: false });
    assert!(matches!(st, LoopState::NotifyThenOuter));
    match a {
        LoopAction::Notify(t) => assert_eq!(t, "there was an error in the update loop while getting IGNs."),
        _ => panic!("expected a notice"),
    }
    assert_eq!(notification_content("@staff", "hello"), "@staff, hello");
}

#[test]
fn ign_refresh_updates_changed_names() {
    let (mut r, a) = IgnRefresh::start(50);
    assert!(matches!(a, IgnAction::FetchMembers));
    let ms = vec![member(1, "a", None, vec![50]), member(2, "b", None, vec![50])];
    match r.step(IgnEvent::Members(Ok(ms))) {
        IgnAction::FetchLinked(ids) => assert_eq!(ids, vec![1, 2]),
        _ => panic!("expected a database lookup"),
    }
    let users = vec![link(1, Some("Old"), Some("u1")), link(2, Some("Same"), Some("u2"))];
    match r.step(IgnEvent::Linked(Ok(users))) {
        IgnAction::FetchIgn(u) => assert_eq!(u, "u1"),
        _ => panic!("expected a lookup"),
    }
    let acc = UserIdResponse { id: "u1".to_string(), name: "New".to_string() };
    match r.step(IgnEvent::Ign(Ok(acc))) {
        IgnAction::Store { user_id, ign } => assert_eq!((user_id, ign.as_str()), (1, "New")),
        _ => panic!("expected a store"),
    }
    assert!(matches!(r.step(IgnEvent::Stored(Ok(1))), IgnAction::Sleep(10)));
    assert!(matches!(r.step(IgnEvent::Slept), IgnAction::FetchIgn(_)));
    let acc = UserIdResponse { id: "u2".to_string(), name: "Same".to_string() };
    assert!(matches!(r.step(IgnEvent::Ign(Ok(acc))), IgnAction::Sleep(10)));
    assert!(matches!(r.step(IgnEvent::Slept), IgnAction::Finish(Ok(()))));
}

#[test]
fn ign_refresh_failures() {
    let (mut r, _) = IgnRefresh::start(50);
    r.step(IgnEvent::Members(Ok(vec![])));
    assert!(matches!(
        r.step(IgnEvent::Linked(Ok(vec![link(7, Some("a"), None)]))),
        IgnAction::Finish(Err(UpdateIgnsError::InvalidDbUser(7)))
    ));
    let (mut r, _) = IgnRefresh::start(50);
    assert!(matches!(
        r.step(IgnEvent::Members(Err(GetGuildMembersError::TooManyMembers))),
        IgnAction::Finish(Err(UpdateIgnsError::GetGuildMembers(GetGuildMembersError::TooManyMembers)))
    ));
    let (mut r, _) = IgnRefresh::start(50);
    r.step(IgnEvent::Members(Ok(vec![])));
    r.step(IgnEvent::Linked(Ok(vec![link(7, Some("a"), Some("u"))])));
    assert!(matches!(
        r.step(IgnEvent::Ign(Err(MinecraftUserRequestError::UserNotFound))),
        IgnAction::Finish(Err(UpdateIgnsError::MinecraftUserRequestError(MinecraftUserRequestError::UserNotFound)))
    ));
}

#[test]
fn gathering_then_applying() {
    let cfg = config();
    let (mut g, a) = UpdateGather::start(&cfg);
    match a {
        GatherAction::FetchGuild(n) => assert_eq!(n, "G"),
        _ => panic!("expected a guild lookup"),
    }
    let guild = HypixelGuild { members: vec![hypixel("u1", "Officer"), hypixel("u2", "Member")] };
    match g.step(&cfg, GatherEvent::Guild(Ok(guild))) {
        GatherAction::FetchLinked(us) => assert_eq!(us, vec!["u1", "u2"]),
        _ => panic!("expected a database lookup"),
    }
    assert!(matches!(g.step(&cfg, GatherEvent::Linked(Ok(vec![link(1, Some("Ign1"), Some("u1"))]))), GatherAction::FetchMembers));
    let updates = match g.step(&cfg, GatherEvent::Members(Ok(vec![member(1, "x", None, vec![])]))) {
        GatherAction::Finish(Ok(us)) => us,
        _ => panic!("expected updates"),
    };
    assert_eq!(updates.len(), 1);
    let empty = MemberUpdate { id: 3, roles: None, add: vec![], remove: vec![], nick: None };
    let mut all = vec![empty];
    all.extend(updates);
    let (mut run, a) = UpdateApply::start(all, 99);
    match a {
        ApplyAction::Edit(e) => assert_eq!(e.user, 1),
        _ => panic!("expected an edit"),
    }
    assert!(matches!(run.step(ApplyEvent::Edited(Ok(()))), ApplyAction::Sleep(1)));
    assert!(matches!(run.step(ApplyEvent::Slept), ApplyAction::Finish(Ok(()))));
    let (mut run, _) = UpdateApply::start(
        vec![MemberUpdate { id: 4, roles: None, add: vec![], remove: vec![], nick: Some("n".to_string()) }],
        99,
    );
    match run.step(ApplyEvent::Edited(Err("forbidden".to_string()))) {
        ApplyAction::Finish(Err(UpdateUsersError::UpdateMember(m))) => assert_eq!(m, "forbidden"),
        _ => panic!("expected failure"),
    }
    let (mut g, _) = UpdateGather::start(&cfg);
    assert!(matches!(
        g.step(&cfg, GatherEvent::Guild(Err(GuildRequestError::GuildNotFound))),
        GatherAction::Finish(Err(UpdateRolesError::GuildRequest(GuildRequestError::GuildNotFound)))
    ));
    assert_eq!(guild_uuids(&vec![vec![hypixel("a", "r")], vec![], vec![hypixel("b", "r"), hypixel("c", "r")]]), vec!["a", "b", "c"]);
}

#[test]
fn names_and_addresses() {
    assert!(is_valid_username("Steve_123"));
    assert!(!is_valid_username("bad name"));
    assert!(!is_valid_username("é"));
    assert!(!is_valid_username("abcdefghijklmnopq"));
    assert!(is_valid_uuid("069a79f444e94726a5befca90e38aaf5"));
    assert!(!is_valid_uuid("069a79f4-44e9"));
    assert_eq!(user_id_url("Steve"), "https://api.mojang.com/users/profiles/minecraft/Steve");
    assert_eq!(user_ign_url("abc"), "https://api.minecraftservices.com/minecraft/profile/lookup/abc");
    assert_eq!(player_url("abc"), "https://api.hypixel.net/v2/player?uuid=abc");
    assert_eq!(guild_url("G"), "https://api.hypixel.net/v2/guild?name=G");
}

#[test]
fn answers_of_the_apis() {
    assert!(profile_status(200).is_ok());
    assert!(matches!(profile_status(404), Err(MinecraftUserRequestError::UserNotFound)));
    assert!(matches!(profile_status(500), Err(MinecraftUserRequestError::BadStatusCode(500))));
    let linked = LinkedDiscordResponse {
        success: true,
        player: Some(LinkedDiscordResponsePlayer {
            social_media: Some(LinkedDiscordResponsePlayerSocialMedia {
                links: Some(LinkedDiscordResponsePlayerSocialMediaLinks { discord: Some("me".to_string()) }),
            }),
        }),
    };
    assert_eq!(linked_discord_from_response(linked).ok().unwrap(), "me");
    let unlinked = LinkedDiscordResponse {
        success: true,
        player: Some(LinkedDiscordResponsePlayer { social_media: None }),
    };
    assert!(matches!(linked_discord_from_response(unlinked), Err(LinkedDiscordRequestError::UserNotLinked)));
    let unknown = LinkedDiscordResponse { success: false, player: None };
    assert!(matches!(linked_discord_from_response(unknown), Err(LinkedDiscordRequestError::UserNotFound)));
    let g = GuildResponse { success: true, guild: Some(HypixelGuild { members: vec![hypixel("a", "r")] }) };
    assert_eq!(guild_from_response(g).ok().unwrap().members.len(), 1);
    let none = GuildResponse { success: true, guild: None };
    assert!(matches!(guild_from_response(none), Err(GuildRequestError::GuildNotFound)));
}

#[test]
fn shards_and_prefixes() {
    assert_eq!(presence_name(3), "with Rust & Twilight (3)");
    assert!(matches!(shard_step(GatewayItem::Close, true), ShardStep::Stop));
    assert!(matches!(shard_step(GatewayItem::Close, false), ShardStep::Handle));
    assert!(matches!(shard_step(GatewayItem::ReconnectError, true), ShardStep::Stop));
    assert!(matches!(shard_step(GatewayItem::ReconnectError, false), ShardStep::Skip));
    assert!(matches!(shard_step(GatewayItem::OtherError, true), ShardStep::Skip));
    assert!(matches!(shard_step(GatewayItem::Event, true), ShardStep::Handle));
    assert_eq!(guild_prefix_or_default(Ok(Some(Some("!".to_string())))), "!");
    assert_eq!(guild_prefix_or_default(Ok(Some(None))), ";");
    assert_eq!(guild_prefix_or_default(Ok(None)), ";");
    assert_eq!(guild_prefix_or_default(Err(DatabaseError::PoolError("p".to_string()))), ";");
}
