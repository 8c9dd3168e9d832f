//! What the role updates promise: which roles a member ends with, and that
//! running the updates twice changes nothing the second time.
use vstd::prelude::*;
use crate::config::{rank_role, rank_roles, BotConfig};
use crate::minecraft::updates::{
    guild_match, guild_roles, lemma_not_in, lemma_only_in, linked_index, member_update, nick_for,
    not_in, only_in, plan, update_from_plan, without, MemberUpdateView, MemberView,
};
use crate::minecraft::HypixelGuildMember;
use crate::models::UserView;

verus! {

/// The member after its update is applied: the new roles where they change,
/// and the new nickname where one is set.
pub open spec fn apply_update(m: MemberView, u: Option<MemberUpdateView>) -> MemberView {
    match u {
        None => m,
        Some(u) => MemberView {
            roles: match u.roles {
                Some(r) => r,
                None => m.roles,
            },
            nick: match u.nick {
                Some(n) => Some(n),
                None => m.nick,
            },
            ..m
        },
    }
}

proof fn lemma_empty_iff(s: Seq<u64>)
    ensures
        s.len() == 0 <==> forall|x: u64| !s.contains(x),
{
    if s.len() > 0 {
        assert(s.contains(s[0]));
    }
}

proof fn lemma_contains_concat(a: Seq<u64>, b: Seq<u64>, x: u64)
    ensures
        (a + b).contains(x) <==> a.contains(x) || b.contains(x),
{
    if a.contains(x) {
        let i = choose|i: int| 0 <= i < a.len() && a[i] == x;
        assert((a + b)[i] == x);
    }
    if b.contains(x) {
        let i = choose|i: int| 0 <= i < b.len() && b[i] == x;
        assert((a + b)[a.len() + i] == x);
    }
    if (a + b).contains(x) {
        let i = choose|i: int| 0 <= i < (a + b).len() && (a + b)[i] == x;
        if i < a.len() {
            assert(a[i] == x);
        } else {
            assert(b[i - a.len()] == x);
        }
    }
}

/// The roles a member ends with, given what it should have: it keeps its
/// roles that are not to be removed, and gains those to be added.
pub proof fn lemma_roles_after(m: MemberView, to_add: Seq<u64>, to_remove: Seq<u64>, nick: Option<Seq<char>>, x: u64)
    ensures
        apply_update(m, update_from_plan(m, to_add, to_remove, nick)).roles.contains(x)
            <==> (m.roles.contains(x) && !to_remove.contains(x)) || (to_add.contains(x) && !m.roles.contains(x)),
{
    let added = not_in(to_add, m.roles);
    let removed = only_in(m.roles, to_remove);
    lemma_not_in(to_add, m.roles, x);
    lemma_only_in(m.roles, to_remove, x);
    lemma_not_in(m.roles, to_remove, x);
    lemma_contains_concat(not_in(m.roles, to_remove), added, x);
    lemma_empty_iff(added);
    lemma_empty_iff(removed);
}

/// After its update, a member holds a role exactly where it held it and it
/// is not one to remove, or it is one to add.
pub proof fn law_roles_after_update(cfg: BotConfig, gms: Seq<Seq<HypixelGuildMember>>, linked: Seq<UserView>, m: MemberView, x: u64)
    requires
        plan(cfg, gms, linked, m) is Ok,
    ensures
        ({
            let (to_add, to_remove, _) = plan(cfg, gms, linked, m)->Ok_0;
            let after = apply_update(m, member_update(cfg, gms, linked, m)->Ok_0);
            after.roles.contains(x) <==> (m.roles.contains(x) && !to_remove.contains(x)) || (to_add.contains(x) && !m.roles.contains(x))
        }),
{
    let (a, r, n) = plan(cfg, gms, linked, m)->Ok_0;
    lemma_roles_after(m, a, r, n, x);
}

/// A member with no stored link ends with neither the verified role nor the
/// role of any configured guild.
pub proof fn law_unlinked_member_loses_roles(cfg: BotConfig, gms: Seq<Seq<HypixelGuildMember>>, linked: Seq<UserView>, m: MemberView)
    requires
        linked_index(linked, m.user_id) is None,
    ensures
        ({
            let after = apply_update(m, member_update(cfg, gms, linked, m)->Ok_0);
            &&& !after.roles.contains(cfg.verified_role_id)
            &&& forall|i: int| 0 <= i < cfg.guilds@.len() ==> !after.roles.contains(#[trigger] cfg.guilds@[i].role)
        }),
{
    let tr = guild_roles(cfg.guilds@).push(cfg.verified_role_id);
    assert(tr.contains(cfg.verified_role_id)) by {
        assert(tr[tr.len() - 1] == cfg.verified_role_id);
    }
    lemma_roles_after(m, Seq::empty(), tr, None, cfg.verified_role_id);
    assert forall|i: int| 0 <= i < cfg.guilds@.len() implies !apply_update(m, member_update(cfg, gms, linked, m)->Ok_0).roles.contains(#[trigger] cfg.guilds@[i].role) by {
        assert(tr[i] == cfg.guilds@[i].role);
        assert(tr.contains(cfg.guilds@[i].role));
        lemma_roles_after(m, Seq::empty(), tr, None, cfg.guilds@[i].role);
    }
}

/// A linked member whose account has a configured rank in a configured guild
/// ends with the verified role, the guild's role and the rank's role, and
/// with none of the guild's other rank roles, provided neither the verified
/// role nor the guild's role is itself a rank role of that guild.
pub proof fn law_ranked_member_gets_roles(
    cfg: BotConfig,
    gms: Seq<Seq<HypixelGuildMember>>,
    linked: Seq<UserView>,
    m: MemberView,
    k: int,
    gi: int,
    mi: int,
    role: u64,
)
    requires
        linked_index(linked, m.user_id) == Some(k),
        linked[k].uuid is Some,
        linked[k].ign is Some,
        guild_match(gms, linked[k].uuid->0) == Some((gi, mi)),
        rank_role(cfg.guilds@[gi].ranks@, gms[gi][mi].rank@) == Some(role),
        !rank_roles(cfg.guilds@[gi].ranks@).contains(cfg.verified_role_id),
        !rank_roles(cfg.guilds@[gi].ranks@).contains(cfg.guilds@[gi].role),
    ensures
        ({
            let after = apply_update(m, member_update(cfg, gms, linked, m)->Ok_0);
            &&& after.roles.contains(cfg.verified_role_id)
            &&& after.roles.contains(cfg.guilds@[gi].role)
            &&& after.roles.contains(role)
            &&& forall|x: u64| rank_roles(cfg.guilds@[gi].ranks@).contains(x) && x != role ==> !after.roles.contains(x)
        }),
{
    let g = cfg.guilds@[gi];
    let rr = rank_roles(g.ranks@);
    let ta = seq![cfg.verified_role_id].push(g.role).push(role);
    let tr = without(rr, role);
    let n = nick_for(cfg.nick_bypass_role, m, linked[k].ign->0);
    assert(plan(cfg, gms, linked, m) == Ok::<(Seq<u64>, Seq<u64>, Option<Seq<char>>), i64>((ta, tr, n)));
    assert(ta[0] == cfg.verified_role_id && ta[1] == g.role && ta[2] == role);
    assert(ta.contains(cfg.verified_role_id) && ta.contains(g.role) && ta.contains(role));
    lemma_not_in(rr, seq![role], cfg.verified_role_id);
    lemma_not_in(rr, seq![role], g.role);
    lemma_not_in(rr, seq![role], role);
    assert(seq![role].contains(role)) by {
        assert(seq![role][0] == role);
    }
    lemma_roles_after(m, ta, tr, n, cfg.verified_role_id);
    lemma_roles_after(m, ta, tr, n, g.role);
    lemma_roles_after(m, ta, tr, n, role);
    assert forall|x: u64| rr.contains(x) && x != role implies !apply_update(m, member_update(cfg, gms, linked, m)->Ok_0).roles.contains(x) by {
        lemma_not_in(rr, seq![role], x);
        if seq![role].contains(x) {
            let i = choose|i: int| 0 <= i < seq![role].len() && seq![role][i] == x;
            assert(false);
        }
        if ta.contains(x) {
            let i = choose|i: int| 0 <= i < ta.len() && ta[i] == x;
            assert(x == cfg.verified_role_id || x == g.role || x == role);
        }
        lemma_roles_after(m, ta, tr, n, x);
    }
}

/// The roles to add and to remove have nothing in common, and the role that
/// keeps a nickname is not one to remove.
pub open spec fn plan_is_consistent(bypass: u64, to_add: Seq<u64>, to_remove: Seq<u64>) -> bool {
    &&& forall|x: u64| to_add.contains(x) ==> !to_remove.contains(x)
    &&& !to_remove.contains(bypass)
}

/// Updating a member twice changes nothing the second time: once its update
/// is applied, the member needs none, provided what it should have is
/// consistent (see [`plan_is_consistent`]).
pub proof fn law_update_is_idempotent(cfg: BotConfig, gms: Seq<Seq<HypixelGuildMember>>, linked: Seq<UserView>, m: MemberView)
    requires
        plan(cfg, gms, linked, m) is Ok,
        ({
            let (a, r, _) = plan(cfg, gms, linked, m)->Ok_0;
            plan_is_consistent(cfg.nick_bypass_role, a, r)
        }),
    ensures
        member_update(cfg, gms, linked, apply_update(m, member_update(cfg, gms, linked, m)->Ok_0))
            == Ok::<Option<MemberUpdateView>, i64>(None),
{
    let (a, r, n) = plan(cfg, gms, linked, m)->Ok_0;
    let m2 = apply_update(m, member_update(cfg, gms, linked, m)->Ok_0);
    assert(m2.user_id == m.user_id && m2.global_name == m.global_name && m2.user_name == m.user_name);
    assert forall|x: u64| #[trigger] m2.roles.contains(x) <==> (m.roles.contains(x) && !r.contains(x)) || (a.contains(x) && !m.roles.contains(x)) by {
        lemma_roles_after(m, a, r, n, x);
    }
    // What the member should have does not change, but for the nickname.
    let k = linked_index(linked, m.user_id);
    if let Some(k) = k {
        let ign = linked[k].ign->0;
        assert(n == nick_for(cfg.nick_bypass_role, m, ign));
        let n2 = nick_for(cfg.nick_bypass_role, m2, ign);
        if n is Some {
            assert(m2.nick == Some(ign));
        } else {
            assert(m2.nick == m.nick);
            if m.roles.contains(cfg.nick_bypass_role) {
                assert(m2.roles.contains(cfg.nick_bypass_role));
            }
        }
        assert(n2 is None);
        assert(plan(cfg, gms, linked, m2) == Ok::<(Seq<u64>, Seq<u64>, Option<Seq<char>>), i64>((a, r, None)));
    } else {
        assert(plan(cfg, gms, linked, m2) == Ok::<(Seq<u64>, Seq<u64>, Option<Seq<char>>), i64>((a, r, None)));
    }
    let added = not_in(a, m2.roles);
    let removed = only_in(m2.roles, r);
    assert forall|x: u64| !added.contains(x) by {
        lemma_not_in(a, m2.roles, x);
    }
    assert forall|x: u64| !removed.contains(x) by {
        lemma_only_in(m2.roles, r, x);
    }
    lemma_empty_iff(added);
    lemma_empty_iff(removed);
}


/// The name a member shows: its nickname, else its global name, else its
/// username.
pub open spec fn shown_name(m: MemberView) -> Seq<char> {
    match m.nick {
        Some(n) => n,
        None => match m.global_name {
            Some(g) => g,
            None => m.user_name,
        },
    }
}

/// A linked member (name and UUID stored) without the role that keeps
/// nicknames is renamed to its account's name exactly when the name it
/// shows differs from it; otherwise its nickname is left alone.
pub proof fn law_linked_member_renamed(
    cfg: BotConfig,
    gms: Seq<Seq<HypixelGuildMember>>,
    linked: Seq<UserView>,
    m: MemberView,
    k: int,
)
    requires
        linked_index(linked, m.user_id) == Some(k),
        linked[k].uuid is Some,
        linked[k].ign is Some,
        !m.roles.contains(cfg.nick_bypass_role),
    ensures
        shown_name(m) != linked[k].ign->0 ==> (member_update(cfg, gms, linked, m) matches Ok(Some(u))
            && u.id == m.user_id && u.nick == Some(linked[k].ign->0)),
        shown_name(m) == linked[k].ign->0 ==> (member_update(cfg, gms, linked, m) matches Ok(r)
            && (r matches Some(u) ==> u.nick is None)),
{
    let (a, r, n) = plan(cfg, gms, linked, m)->Ok_0;
    assert(plan(cfg, gms, linked, m) is Ok);
    assert(n == nick_for(cfg.nick_bypass_role, m, linked[k].ign->0));
}

/// A member with the role that keeps nicknames, and a member with no stored
/// link, are never renamed.
pub proof fn law_nickname_kept(
    cfg: BotConfig,
    gms: Seq<Seq<HypixelGuildMember>>,
    linked: Seq<UserView>,
    m: MemberView,
)
    requires
        m.roles.contains(cfg.nick_bypass_role) || linked_index(linked, m.user_id) is None,
    ensures
        member_update(cfg, gms, linked, m) matches Ok(Some(u)) ==> u.nick is None,
{
}

} // verus!
