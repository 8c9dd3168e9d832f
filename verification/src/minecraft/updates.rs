//! Which roles and nickname each member of the Discord guild should have,
//! from the stored links and the members of the configured Hypixel guilds.
use vstd::prelude::*;
use crate::config::{rank_role, rank_roles, BotConfig, BotConfigGuild};
use crate::minecraft::{HypixelGuildMember, UpdateRolesError};
use crate::models::{User, UserView};
use crate::text::{append_str, decimal, owned, text_eq, write_u64};

verus! {

/// A member of the Discord guild, as far as the updates read it.
pub struct Member {
    pub user_id: u64,
    pub user_name: String,
    pub global_name: Option<String>,
    pub nick: Option<String>,
    pub roles: Vec<u64>,
}

/// The mathematical content of a [`Member`].
pub struct MemberView {
    pub user_id: u64,
    pub user_name: Seq<char>,
    pub global_name: Option<Seq<char>>,
    pub nick: Option<Seq<char>>,
    pub roles: Seq<u64>,
}

impl View for Member {
    type V = MemberView;

    open spec fn view(&self) -> MemberView {
        MemberView {
            user_id: self.user_id,
            user_name: self.user_name@,
            global_name: self.global_name.deep_view(),
            nick: self.nick.deep_view(),
            roles: self.roles@,
        }
    }
}

/// The changes to make to one member: the roles it is to have (where they
/// change), the roles added and removed, and the nickname to set.
pub struct MemberUpdate {
    pub id: u64,
    pub roles: Option<Vec<u64>>,
    pub add: Vec<u64>,
    pub remove: Vec<u64>,
    pub nick: Option<String>,
}

/// The mathematical content of a [`MemberUpdate`].
pub struct MemberUpdateView {
    pub id: u64,
    pub roles: Option<Seq<u64>>,
    pub add: Seq<u64>,
    pub remove: Seq<u64>,
    pub nick: Option<Seq<char>>,
}

impl View for MemberUpdate {
    type V = MemberUpdateView;

    open spec fn view(&self) -> MemberUpdateView {
        MemberUpdateView {
            id: self.id,
            roles: match self.roles {
                Some(r) => Some(r@),
                None => None,
            },
            add: self.add@,
            remove: self.remove@,
            nick: self.nick.deep_view(),
        }
    }
}

impl MemberUpdate {
    /// Whether the update changes neither roles nor nickname.
    pub fn is_empty(&self) -> (b: bool)
        ensures
            b == (self.roles is None && self.nick is None),
    {
        self.roles.is_none() && self.nick.is_none()
    }
}

/// The elements of `s` that are not in `excl`, in order.
pub open spec fn not_in(s: Seq<u64>, excl: Seq<u64>) -> Seq<u64>
    decreases s.len(),
{
    if s.len() == 0 {
        Seq::empty()
    } else if excl.contains(s.last()) {
        not_in(s.drop_last(), excl)
    } else {
        not_in(s.drop_last(), excl).push(s.last())
    }
}

/// The elements of `s` that are in `incl`, in order.
pub open spec fn only_in(s: Seq<u64>, incl: Seq<u64>) -> Seq<u64>
    decreases s.len(),
{
    if s.len() == 0 {
        Seq::empty()
    } else if incl.contains(s.last()) {
        only_in(s.drop_last(), incl).push(s.last())
    } else {
        only_in(s.drop_last(), incl)
    }
}

/// The elements of `s` other than `x`, in order.
pub open spec fn without(s: Seq<u64>, x: u64) -> Seq<u64> {
    not_in(s, seq![x])
}

/// `not_in` keeps exactly the elements outside `excl`.
pub proof fn lemma_not_in(s: Seq<u64>, excl: Seq<u64>, x: u64)
    ensures
        not_in(s, excl).contains(x) <==> s.contains(x) && !excl.contains(x),
    decreases s.len(),
{
    if s.len() > 0 {
        lemma_not_in(s.drop_last(), excl, x);
        assert(s =~= s.drop_last().push(s.last()));
        if s.drop_last().contains(x) {
            let i = choose|i: int| 0 <= i < s.drop_last().len() && s.drop_last()[i] == x;
            assert(s[i] == x);
        }
        if s.contains(x) && x != s.last() {
            let i = choose|i: int| 0 <= i < s.len() && s[i] == x;
            assert(s.drop_last()[i] == x);
        }
        let r = not_in(s.drop_last(), excl);
        if r.contains(x) {
            let i = choose|i: int| 0 <= i < r.len() && r[i] == x;
            assert(r.push(s.last())[i] == x);
        }
        if r.push(s.last()).contains(x) && x != s.last() {
            let i = choose|i: int| 0 <= i < r.push(s.last()).len() && r.push(s.last())[i] == x;
            assert(r[i] == x);
        }
        assert(r.push(s.last())[r.len() as int] == s.last());
        assert(s[s.len() - 1] == s.last());
    }
}

/// `only_in` keeps exactly the elements inside `incl`.
pub proof fn lemma_only_in(s: Seq<u64>, incl: Seq<u64>, x: u64)
    ensures
        only_in(s, incl).contains(x) <==> s.contains(x) && incl.contains(x),
    decreases s.len(),
{
    if s.len() > 0 {
        lemma_only_in(s.drop_last(), incl, x);
        if s.drop_last().contains(x) {
            let i = choose|i: int| 0 <= i < s.drop_last().len() && s.drop_last()[i] == x;
            assert(s[i] == x);
        }
        if s.contains(x) && x != s.last() {
            let i = choose|i: int| 0 <= i < s.len() && s[i] == x;
            assert(s.drop_last()[i] == x);
        }
        let r = only_in(s.drop_last(), incl);
        if r.contains(x) {
            let i = choose|i: int| 0 <= i < r.len() && r[i] == x;
            assert(r.push(s.last())[i] == x);
        }
        if r.push(s.last()).contains(x) && x != s.last() {
            let i = choose|i: int| 0 <= i < r.push(s.last()).len() && r.push(s.last())[i] == x;
            assert(r[i] == x);
        }
        assert(r.push(s.last())[r.len() as int] == s.last());
        assert(s[s.len() - 1] == s.last());
    }
}

/// Whether `v` holds `x`.
pub fn contains_u64(v: &Vec<u64>, x: u64) -> (b: bool)
    ensures
        b == v@.contains(x),
{
    let n = v.len();
    let mut i: usize = 0;
    while i < n
        invariant
            n == v@.len(),
            i <= n,
            forall|j: int| 0 <= j < i ==> v@[j] != x,
        decreases n - i,
    {
        if v[i] == x {
            assert(v@[i as int] == x);
            return true;
        }
        i = i + 1;
    }
    false
}

/// The elements of `s` that are not in `excl`, in order.
pub fn filter_not_in(s: &Vec<u64>, excl: &Vec<u64>) -> (r: Vec<u64>)
    ensures
        r@ == not_in(s@, excl@),
{
    let n = s.len();
    let mut out: Vec<u64> = Vec::new();
    let mut i: usize = 0;
    while i < n
        invariant
            n == s@.len(),
            i <= n,
            out@ == not_in(s@.take(i as int), excl@),
        decreases n - i,
    {
        assert(s@.take(i + 1).drop_last() =~= s@.take(i as int));
        assert(s@.take(i + 1).last() == s@[i as int]);
        if !contains_u64(excl, s[i]) {
            out.push(s[i]);
        }
        i = i + 1;
    }
    assert(s@.take(n as int) =~= s@);
    out
}

/// The elements of `s` that are in `incl`, in order.
pub fn filter_only_in(s: &Vec<u64>, incl: &Vec<u64>) -> (r: Vec<u64>)
    ensures
        r@ == only_in(s@, incl@),
{
    let n = s.len();
    let mut out: Vec<u64> = Vec::new();
    let mut i: usize = 0;
    while i < n
        invariant
            n == s@.len(),
            i <= n,
            out@ == only_in(s@.take(i as int), incl@),
        decreases n - i,
    {
        assert(s@.take(i + 1).drop_last() =~= s@.take(i as int));
        assert(s@.take(i + 1).last() == s@[i as int]);
        if contains_u64(incl, s[i]) {
            out.push(s[i]);
        }
        i = i + 1;
    }
    assert(s@.take(n as int) =~= s@);
    out
}

/// The index of the first stored link of the Discord user `uid`: a row with a
/// positive id equal to it.
pub open spec fn linked_index(linked: Seq<UserView>, uid: u64) -> Option<int>
    decreases linked.len(),
{
    if linked.len() == 0 {
        None
    } else if linked[0].id > 0 && linked[0].id as u64 == uid {
        Some(0)
    } else {
        match linked_index(linked.drop_first(), uid) {
            Some(i) => Some(i + 1),
            None => None,
        }
    }
}

/// The index of the first member of `ms` with UUID `uuid`.
pub open spec fn member_index(ms: Seq<HypixelGuildMember>, uuid: Seq<char>) -> Option<int>
    decreases ms.len(),
{
    if ms.len() == 0 {
        None
    } else if ms[0].uuid@ == uuid {
        Some(0)
    } else {
        match member_index(ms.drop_first(), uuid) {
            Some(i) => Some(i + 1),
            None => None,
        }
    }
}

/// The first configured guild whose Hypixel members include `uuid`, with the
/// index of that member.
pub open spec fn guild_match(gms: Seq<Seq<HypixelGuildMember>>, uuid: Seq<char>) -> Option<(int, int)>
    decreases gms.len(),
{
    if gms.len() == 0 {
        None
    } else {
        match member_index(gms[0], uuid) {
            Some(m) => Some((0, m)),
            None => match guild_match(gms.drop_first(), uuid) {
                Some((g, m)) => Some((g + 1, m)),
                None => None,
            },
        }
    }
}

/// The members of the configured guilds, as the update reads them.
pub open spec fn guild_members_view(gms: Seq<Vec<HypixelGuildMember>>) -> Seq<Seq<HypixelGuildMember>> {
    gms.map_values(|v: Vec<HypixelGuildMember>| v@)
}

/// The nickname a linked member must be given: its account's name, unless it
/// has the role that keeps its nickname, or its display name is already it.
pub open spec fn nick_for(cfg_bypass: u64, m: MemberView, ign: Seq<char>) -> Option<Seq<char>> {
    if !m.roles.contains(cfg_bypass) && ((m.nick matches Some(n) && n != ign) || (m.nick is None && match m.global_name {
        Some(g) => g,
        None => m.user_name,
    } != ign)) {
        Some(ign)
    } else {
        None
    }
}

/// The roles of all configured guilds.
pub open spec fn guild_roles(guilds: Seq<BotConfigGuild>) -> Seq<u64> {
    guilds.map_values(|g: BotConfigGuild| g.role)
}

/// What a member should have: the roles to add, the roles to remove and the
/// nickname to set; or the id of a stored link that lacks its UUID or name.
/// A linked member gets the verified role; if its account is in a
/// configured guild, the guild's role and the role of its rank, and loses
/// the guild's other rank roles. A member who is not linked loses the
/// verified role and every guild's role.
pub open spec fn plan(cfg: BotConfig, gms: Seq<Seq<HypixelGuildMember>>, linked: Seq<UserView>, m: MemberView) -> Result<(Seq<u64>, Seq<u64>, Option<Seq<char>>), i64> {
    match linked_index(linked, m.user_id) {
        Some(k) => {
            let u = linked[k];
            match (u.uuid, u.ign) {
                (Some(uuid), Some(ign)) => {
                    let nick = nick_for(cfg.nick_bypass_role, m, ign);
                    let add0 = seq![cfg.verified_role_id];
                    match guild_match(gms, uuid) {
                        None => Ok((add0, Seq::empty(), nick)),
                        Some((gi, mi)) => {
                            let g = cfg.guilds@[gi];
                            let add1 = add0.push(g.role);
                            match rank_role(g.ranks@, gms[gi][mi].rank@) {
                                Some(r) => Ok((add1.push(r), without(rank_roles(g.ranks@), r), nick)),
                                None => Ok((add1, rank_roles(g.ranks@), nick)),
                            }
                        },
                    }
                },
                _ => Err(u.id),
            }
        },
        None => Ok((Seq::empty(), guild_roles(cfg.guilds@).push(cfg.verified_role_id), None)),
    }
}

/// The update of one member, from what it should have: nothing where
/// nothing changes.
pub open spec fn update_from_plan(m: MemberView, to_add: Seq<u64>, to_remove: Seq<u64>, nick: Option<Seq<char>>) -> Option<MemberUpdateView> {
    let added = not_in(to_add, m.roles);
    let removed = only_in(m.roles, to_remove);
    if nick is None && removed.len() == 0 && added.len() == 0 {
        None
    } else {
        Some(
            MemberUpdateView {
                id: m.user_id,
                roles: if added.len() == 0 && removed.len() == 0 {
                    None
                } else {
                    Some(not_in(m.roles, to_remove) + added)
                },
                add: added,
                remove: removed,
                nick,
            },
        )
    }
}

/// The update of one member, or the id of a broken stored link.
pub open spec fn member_update(cfg: BotConfig, gms: Seq<Seq<HypixelGuildMember>>, linked: Seq<UserView>, m: MemberView) -> Result<Option<MemberUpdateView>, i64> {
    match plan(cfg, gms, linked, m) {
        Err(e) => Err(e),
        Ok((a, r, n)) => Ok(update_from_plan(m, a, r, n)),
    }
}

/// The updates of all members, in their order, or the id of the first broken
/// stored link met.
pub open spec fn updates_of(cfg: BotConfig, gms: Seq<Seq<HypixelGuildMember>>, linked: Seq<UserView>, ms: Seq<MemberView>) -> Result<Seq<MemberUpdateView>, i64>
    decreases ms.len(),
{
    if ms.len() == 0 {
        Ok(Seq::empty())
    } else {
        match updates_of(cfg, gms, linked, ms.drop_last()) {
            Err(e) => Err(e),
            Ok(us) => match member_update(cfg, gms, linked, ms.last()) {
                Err(e) => Err(e),
                Ok(None) => Ok(us),
                Ok(Some(u)) => Ok(us.push(u)),
            },
        }
    }
}

/// The stored links, as the update reads them.
pub open spec fn users_view(linked: Seq<User>) -> Seq<UserView> {
    linked.map_values(|u: User| u@)
}

/// The members, as the update reads them.
pub open spec fn members_view(ms: Seq<Member>) -> Seq<MemberView> {
    ms.map_values(|m: Member| m@)
}

proof fn lemma_linked_index_skip(l: Seq<UserView>, uid: u64, i: int)
    requires
        0 <= i <= l.len(),
        forall|j: int| 0 <= j < i ==> !(#[trigger] l[j].id > 0 && l[j].id as u64 == uid),
    ensures
        linked_index(l, uid) == (match linked_index(l.skip(i), uid) {
            Some(k) => Some(k + i),
            None => None,
        }),
    decreases i,
{
    if i == 0 {
        assert(l.skip(0) =~= l);
        match linked_index(l, uid) {
            Some(k) => {},
            None => {},
        }
    } else {
        let t = l.drop_first();
        assert forall|j: int| 0 <= j < i - 1 implies !(#[trigger] t[j].id > 0 && t[j].id as u64 == uid) by {
            assert(t[j] == l[j + 1]);
        }
        lemma_linked_index_skip(t, uid, i - 1);
        assert(t.skip(i - 1) =~= l.skip(i));
    }
}

/// The index of the first stored link of the Discord user `uid`.
pub fn find_linked(linked: &Vec<User>, uid: u64) -> (r: Option<usize>)
    ensures
        r matches Some(x) ==> linked_index(users_view(linked@), uid) == Some(x as int) && x < linked@.len(),
        r is None <==> linked_index(users_view(linked@), uid) is None,
{
    let ghost l = users_view(linked@);
    let n = linked.len();
    let mut i: usize = 0;
    while i < n
        invariant
            n == linked@.len(),
            l == users_view(linked@),
            i <= n,
            forall|j: int| 0 <= j < i ==> !(#[trigger] l[j].id > 0 && l[j].id as u64 == uid),
        decreases n - i,
    {
        let id = linked[i].id;
        assert(l[i as int].id == id);
        if id > 0 && id as u64 == uid {
            proof {
                lemma_linked_index_skip(l, uid, i as int);
                assert(l.skip(i as int)[0] == l[i as int]);
            }
            return Some(i);
        }
        i = i + 1;
    }
    proof {
        lemma_linked_index_skip(l, uid, n as int);
        assert(l.skip(n as int) =~= Seq::<UserView>::empty());
    }
    None
}

proof fn lemma_member_index_skip(ms: Seq<HypixelGuildMember>, uuid: Seq<char>, i: int)
    requires
        0 <= i <= ms.len(),
        forall|j: int| 0 <= j < i ==> #[trigger] ms[j].uuid@ != uuid,
    ensures
        member_index(ms, uuid) == (match member_index(ms.skip(i), uuid) {
            Some(k) => Some(k + i),
            None => None,
        }),
    decreases i,
{
    if i == 0 {
        assert(ms.skip(0) =~= ms);
        match member_index(ms, uuid) {
            Some(k) => {},
            None => {},
        }
    } else {
        let t = ms.drop_first();
        assert forall|j: int| 0 <= j < i - 1 implies #[trigger] t[j].uuid@ != uuid by {
            assert(t[j] == ms[j + 1]);
        }
        lemma_member_index_skip(t, uuid, i - 1);
        assert(t.skip(i - 1) =~= ms.skip(i));
    }
}

/// The index of the first member with UUID `uuid`.
pub fn find_member(ms: &Vec<HypixelGuildMember>, uuid: &str) -> (r: Option<usize>)
    ensures
        r matches Some(x) ==> member_index(ms@, uuid@) == Some(x as int) && x < ms@.len(),
        r is None <==> member_index(ms@, uuid@) is None,
{
    let n = ms.len();
    let mut i: usize = 0;
    while i < n
        invariant
            n == ms@.len(),
            i <= n,
            forall|j: int| 0 <= j < i ==> #[trigger] ms@[j].uuid@ != uuid@,
        decreases n - i,
    {
        if text_eq(ms[i].uuid.as_str(), uuid) {
            proof {
                lemma_member_index_skip(ms@, uuid@, i as int);
                assert(ms@.skip(i as int)[0] == ms@[i as int]);
            }
            return Some(i);
        }
        i = i + 1;
    }
    proof {
        lemma_member_index_skip(ms@, uuid@, n as int);
        assert(ms@.skip(n as int) =~= Seq::<HypixelGuildMember>::empty());
    }
    None
}

proof fn lemma_guild_match_skip(gms: Seq<Seq<HypixelGuildMember>>, uuid: Seq<char>, i: int)
    requires
        0 <= i <= gms.len(),
        forall|j: int| 0 <= j < i ==> member_index(#[trigger] gms[j], uuid) is None,
    ensures
        guild_match(gms, uuid) == (match guild_match(gms.skip(i), uuid) {
            Some((g, m)) => Some((g + i, m)),
            None => None,
        }),
    decreases i,
{
    if i == 0 {
        assert(gms.skip(0) =~= gms);
        match guild_match(gms, uuid) {
            Some((g, m)) => {},
            None => {},
        }
    } else {
        let t = gms.drop_first();
        assert forall|j: int| 0 <= j < i - 1 implies member_index(#[trigger] t[j], uuid) is None by {
            assert(t[j] == gms[j + 1]);
        }
        lemma_guild_match_skip(t, uuid, i - 1);
        assert(t.skip(i - 1) =~= gms.skip(i));
        assert(member_index(gms[0], uuid) is None);
    }
}

proof fn lemma_member_index_bound(ms: Seq<HypixelGuildMember>, uuid: Seq<char>)
    ensures
        member_index(ms, uuid) matches Some(k) ==> 0 <= k < ms.len() && ms[k].uuid@ == uuid,
    decreases ms.len(),
{
    if ms.len() > 0 && ms[0].uuid@ != uuid {
        lemma_member_index_bound(ms.drop_first(), uuid);
    }
}

/// The first guild whose members include `uuid`, with that member's index.
pub fn find_guild_match(gms: &Vec<Vec<HypixelGuildMember>>, uuid: &str) -> (r: Option<(usize, usize)>)
    ensures
        r matches Some((g, m)) ==> guild_match(guild_members_view(gms@), uuid@) == Some((g as int, m as int))
            && g < gms@.len() && m < gms@[g as int]@.len(),
        r is None <==> guild_match(guild_members_view(gms@), uuid@) is None,
{
    let ghost v = guild_members_view(gms@);
    let n = gms.len();
    let mut i: usize = 0;
    while i < n
        invariant
            n == gms@.len(),
            v == guild_members_view(gms@),
            i <= n,
            forall|j: int| 0 <= j < i ==> member_index(#[trigger] v[j], uuid@) is None,
        decreases n - i,
    {
        assert(v[i as int] == gms@[i as int]@);
        match find_member(&gms[i], uuid) {
            Some(m) => {
                proof {
                    lemma_guild_match_skip(v, uuid@, i as int);
                    assert(v.skip(i as int)[0] == v[i as int]);
                }
                return Some((i, m));
            },
            None => {},
        }
        i = i + 1;
    }
    proof {
        lemma_guild_match_skip(v, uuid@, n as int);
        assert(v.skip(n as int) =~= Seq::<Seq<HypixelGuildMember>>::empty());
    }
    None
}

fn copy_string(s: &String) -> (r: String)
    ensures
        r@ == s@,
{
    s.clone()
}

/// The nickname a linked member must be given, if any.
pub fn nick_change(bypass: u64, m: &Member, ign: &String) -> (r: Option<String>)
    ensures
        r.deep_view() == nick_for(bypass, m@, ign@),
{
    if contains_u64(&m.roles, bypass) {
        return None;
    }
    let differs = match &m.nick {
        Some(n) => !text_eq(n.as_str(), ign.as_str()),
        None => {
            let shown = match &m.global_name {
                Some(g) => g,
                None => &m.user_name,
            };
            !text_eq(shown.as_str(), ign.as_str())
        },
    };
    if differs {
        Some(copy_string(ign))
    } else {
        None
    }
}

/// The roles of all configured guilds.
pub fn all_guild_roles(guilds: &Vec<BotConfigGuild>) -> (r: Vec<u64>)
    ensures
        r@ == guild_roles(guilds@),
{
    let n = guilds.len();
    let mut out: Vec<u64> = Vec::new();
    let mut i: usize = 0;
    while i < n
        invariant
            n == guilds@.len(),
            i <= n,
            out@ == guild_roles(guilds@.take(i as int)),
        decreases n - i,
    {
        out.push(guilds[i].role);
        assert(guild_roles(guilds@.take(i + 1)) =~= guild_roles(guilds@.take(i as int)).push(guilds@[i as int].role));
        i = i + 1;
    }
    assert(guilds@.take(n as int) =~= guilds@);
    out
}

/// Works out what a member should have; see [`plan`].
pub fn compute_plan(
    cfg: &BotConfig,
    gms: &Vec<Vec<HypixelGuildMember>>,
    linked: &Vec<User>,
    m: &Member,
) -> (r: Result<(Vec<u64>, Vec<u64>, Option<String>), i64>)
    requires
        cfg.guilds@.len() == gms@.len(),
    ensures
        match r {
            Ok((a, rm, n)) => plan(*cfg, guild_members_view(gms@), users_view(linked@), m@) == Ok::<(Seq<u64>, Seq<u64>, Option<Seq<char>>), i64>((a@, rm@, n.deep_view())),
            Err(id) => plan(*cfg, guild_members_view(gms@), users_view(linked@), m@) == Err::<(Seq<u64>, Seq<u64>, Option<Seq<char>>), i64>(id),
        },
{
    match find_linked(linked, m.user_id) {
        None => {
            let mut rm = all_guild_roles(&cfg.guilds);
            rm.push(cfg.verified_role_id);
            Ok((Vec::new(), rm, None))
        },
        Some(k) => {
            let u = &linked[k];
            assert(users_view(linked@)[k as int] == u@);
            assert(linked_index(users_view(linked@), m.user_id) == Some(k as int));
            let uuid = match &u.uuid {
                Some(x) => x,
                None => {
                    assert(u@.uuid is None);
                    return Err(u.id);
                },
            };
            let ign = match &u.ign {
                Some(x) => x,
                None => {
                    assert(u@.ign is None);
                    return Err(u.id);
                },
            };
            let nick = nick_change(cfg.nick_bypass_role, m, ign);
            let mut add: Vec<u64> = Vec::new();
            add.push(cfg.verified_role_id);
            match find_guild_match(gms, uuid.as_str()) {
                None => {
                    assert(add@ =~= seq![cfg.verified_role_id]);
                    Ok((add, Vec::new(), nick))
                },
                Some((gi, mi)) => {
                    let g = &cfg.guilds[gi];
                    add.push(g.role);
                    let gm = &gms[gi][mi];
                    assert(guild_members_view(gms@)[gi as int] == gms@[gi as int]@);
                    assert(guild_members_view(gms@)[gi as int][mi as int] == gm);
                    let all = g.rank_roles();
                    match g.rank_role(gm.rank.as_str()) {
                        Some(role) => {
                            add.push(role);
                            let mut one: Vec<u64> = Vec::new();
                            one.push(role);
                            assert(one@ =~= seq![role]);
                            let rm = filter_not_in(&all, &one);
                            assert(add@ =~= seq![cfg.verified_role_id].push(g.role).push(role));
                            Ok((add, rm, nick))
                        },
                        None => {
                            assert(add@ =~= seq![cfg.verified_role_id].push(g.role));
                            Ok((add, all, nick))
                        },
                    }
                },
            }
        },
    }
}

/// The update of one member, from what it should have; see [`update_from_plan`].
pub fn make_update(m: &Member, to_add: &Vec<u64>, to_remove: &Vec<u64>, nick: Option<String>) -> (r: Option<MemberUpdate>)
    ensures
        match update_from_plan(m@, to_add@, to_remove@, nick.deep_view()) {
            Some(u) => r matches Some(x) && x@ == u,
            None => r is None,
        },
{
    let added = filter_not_in(to_add, &m.roles);
    let removed = filter_only_in(&m.roles, to_remove);
    if nick.is_none() && removed.len() == 0 && added.len() == 0 {
        return None;
    }
    let roles = if added.len() == 0 && removed.len() == 0 {
        None
    } else {
        let mut kept = filter_not_in(&m.roles, to_remove);
        let ghost k = kept@;
        let mut i: usize = 0;
        while i < added.len()
            invariant
                i <= added@.len(),
                kept@ == k + added@.take(i as int),
            decreases added@.len() - i,
        {
            kept.push(added[i]);
            assert(added@.take(i + 1) =~= added@.take(i as int).push(added@[i as int]));
            assert(k + added@.take(i + 1) =~= (k + added@.take(i as int)).push(added@[i as int]));
            i = i + 1;
        }
        assert(added@.take(added@.len() as int) =~= added@);
        Some(kept)
    };
    Some(MemberUpdate { id: m.user_id, roles, add: added, remove: removed, nick })
}

proof fn lemma_updates_of_err(cfg: BotConfig, gms: Seq<Seq<HypixelGuildMember>>, linked: Seq<UserView>, ms: Seq<MemberView>, i: int, id: i64)
    requires
        0 <= i <= ms.len(),
        updates_of(cfg, gms, linked, ms.take(i)) == Err::<Seq<MemberUpdateView>, i64>(id),
    ensures
        updates_of(cfg, gms, linked, ms) == Err::<Seq<MemberUpdateView>, i64>(id),
    decreases ms.len() - i,
{
    if i < ms.len() {
        assert(ms.take(i + 1).drop_last() =~= ms.take(i));
        lemma_updates_of_err(cfg, gms, linked, ms, i + 1, id);
    } else {
        assert(ms.take(i) =~= ms);
    }
}

/// The updates that bring the members of the Discord guild in line with the
/// stored links and the configured Hypixel guilds, in the members' order.
/// `guild_members` holds the members of each configured guild, in the
/// configuration's order. A stored link that lacks its UUID or name fails
/// the whole computation, at the first member that has it.
pub fn get_updates(
    cfg: &BotConfig,
    guild_members: &Vec<Vec<HypixelGuildMember>>,
    linked_users: &Vec<User>,
    members: &Vec<Member>,
) -> (r: Result<Vec<MemberUpdate>, UpdateRolesError>)
    requires
        cfg.guilds@.len() == guild_members@.len(),
    ensures
        match r {
            Ok(us) => updates_of(*cfg, guild_members_view(guild_members@), users_view(linked_users@), members_view(members@))
                == Ok::<Seq<MemberUpdateView>, i64>(us@.map_values(|u: MemberUpdate| u@)),
            Err(e) => e matches UpdateRolesError::InvalidDbUser(id)
                && updates_of(*cfg, guild_members_view(guild_members@), users_view(linked_users@), members_view(members@))
                    == Err::<Seq<MemberUpdateView>, i64>(id),
        },
{
    let ghost gv = guild_members_view(guild_members@);
    let ghost lv = users_view(linked_users@);
    let ghost mv = members_view(members@);
    let n = members.len();
    let mut out: Vec<MemberUpdate> = Vec::new();
    let mut i: usize = 0;
    assert(mv.take(0) =~= Seq::<MemberView>::empty());
    assert(out@.map_values(|u: MemberUpdate| u@) =~= Seq::<MemberUpdateView>::empty());
    while i < n
        invariant
            n == members@.len(),
            mv == members_view(members@),
            gv == guild_members_view(guild_members@),
            lv == users_view(linked_users@),
            cfg.guilds@.len() == guild_members@.len(),
            i <= n,
            updates_of(*cfg, gv, lv, mv.take(i as int)) == Ok::<Seq<MemberUpdateView>, i64>(out@.map_values(|u: MemberUpdate| u@)),
        decreases n - i,
    {
        let m = &members[i];
        assert(mv[i as int] == m@);
        assert(mv.take(i + 1).drop_last() =~= mv.take(i as int));
        assert(mv.take(i + 1).last() == m@);
        match compute_plan(cfg, guild_members, linked_users, m) {
            Err(id) => {
                proof {
                    lemma_updates_of_err(*cfg, gv, lv, mv, i + 1, id);
                }
                return Err(UpdateRolesError::InvalidDbUser(id));
            },
            Ok((a, rm, nick)) => {
                let ghost prev = out@;
                match make_update(m, &a, &rm, nick) {
                    Some(u) => {
                        out.push(u);
                        assert(out@.map_values(|u: MemberUpdate| u@) =~= prev.map_values(|u: MemberUpdate| u@).push(u@));
                    },
                    None => {},
                }
            },
        }
        i = i + 1;
    }
    assert(mv.take(n as int) =~= mv);
    Ok(out)
}

/// The mention of a role.
pub open spec fn role_mention(r: u64) -> Seq<char> {
    "<@&"@ + decimal(r as nat) + ">"@
}

/// The mentions of the roles, joined by `, `.
pub open spec fn role_mentions(rs: Seq<u64>) -> Seq<char>
    decreases rs.len(),
{
    if rs.len() == 0 {
        Seq::empty()
    } else if rs.len() == 1 {
        role_mention(rs[0])
    } else {
        role_mentions(rs.drop_last()) + ", "@ + role_mention(rs.last())
    }
}

/// "s" where there is not exactly one thing.
pub open spec fn plural(n: nat) -> Seq<char> {
    if n == 1 {
        Seq::empty()
    } else {
        "s"@
    }
}

/// How an update reads: the member's mention, then a line for the roles
/// added, one for the roles removed and one for the new nickname, each where
/// there is one; or that there is nothing to update.
pub open spec fn update_text(u: MemberUpdateView) -> Seq<char> {
    if u.roles is None && u.nick is None {
        "<@"@ + decimal(u.id as nat) + ">: No updates."@
    } else {
        "<@"@ + decimal(u.id as nat) + ">:"@ + (if u.add.len() > 0 {
            "\n - Add role"@ + plural(u.add.len()) + " "@ + role_mentions(u.add) + "."@
        } else {
            Seq::empty()
        }) + (if u.remove.len() > 0 {
            "\n- Remove role"@ + plural(u.remove.len()) + " "@ + role_mentions(u.remove) + "."@
        } else {
            Seq::empty()
        }) + (match u.nick {
            Some(n) => "\n- Change nickname to `"@ + n + "`."@,
            None => Seq::empty(),
        })
    }
}

/// Appends the mentions of the roles, joined by `, `.
fn write_role_mentions(out: &mut String, rs: &Vec<u64>)
    ensures
        final(out)@ == old(out)@ + role_mentions(rs@),
{
    let n = rs.len();
    let mut i: usize = 0;
    let ghost start = out@;
    assert(rs@.take(0) =~= Seq::<u64>::empty());
    while i < n
        invariant
            n == rs@.len(),
            i <= n,
            out@ == start + role_mentions(rs@.take(i as int)),
        decreases n - i,
    {
        let ghost before = out@;
        if i > 0 {
            append_str(out, ", ");
        }
        append_str(out, "<@&");
        write_u64(out, rs[i]);
        append_str(out, ">");
        proof {
            let t = rs@.take(i + 1);
            assert(t.drop_last() =~= rs@.take(i as int));
            assert(t.last() == rs@[i as int]);
            if i == 0 {
                assert(t.len() == 1);
                assert(out@ =~= start + role_mentions(t));
            } else {
                assert(out@ =~= start + role_mentions(t));
            }
        }
        i = i + 1;
    }
    assert(rs@.take(n as int) =~= rs@);
}

fn write_plural(out: &mut String, n: usize)
    ensures
        final(out)@ == old(out)@ + plural(n as nat),
{
    if n != 1 {
        append_str(out, "s");
    } else {
        assert(old(out)@ + Seq::<char>::empty() =~= old(out)@);
    }
}

impl MemberUpdate {
    /// How the update reads; see [`update_text`].
    pub fn to_string(&self) -> (s: String)
        ensures
            s@ == update_text(self@),
    {
        let mut s = owned("<@");
        write_u64(&mut s, self.id);
        if self.is_empty() {
            append_str(&mut s, ">: No updates.");
            return s;
        }
        append_str(&mut s, ">:");
        let ghost head = s@;
        if self.add.len() > 0 {
            append_str(&mut s, "\n - Add role");
            write_plural(&mut s, self.add.len());
            append_str(&mut s, " ");
            write_role_mentions(&mut s, &self.add);
            append_str(&mut s, ".");
        }
        let ghost a = if self.add@.len() > 0 {
            "\n - Add role"@ + plural(self.add@.len()) + " "@ + role_mentions(self.add@) + "."@
        } else {
            Seq::<char>::empty()
        };
        assert(s@ =~= head + a);
        let ghost mid = s@;
        if self.remove.len() > 0 {
            append_str(&mut s, "\n- Remove role");
            write_plural(&mut s, self.remove.len());
            append_str(&mut s, " ");
            write_role_mentions(&mut s, &self.remove);
            append_str(&mut s, ".");
        }
        let ghost b = if self.remove@.len() > 0 {
            "\n- Remove role"@ + plural(self.remove@.len()) + " "@ + role_mentions(self.remove@) + "."@
        } else {
            Seq::<char>::empty()
        };
        assert(s@ =~= head + a + b);
        match &self.nick {
            Some(n) => {
                append_str(&mut s, "\n- Change nickname to `");
                append_str(&mut s, n.as_str());
                append_str(&mut s, "`.");
            },
            None => {},
        }
        let ghost c = match self.nick.deep_view() {
            Some(n) => "\n- Change nickname to `"@ + n + "`."@,
            None => Seq::<char>::empty(),
        };
        assert(s@ =~= head + a + b + c);
        s
    }
}


/// Whether `p` occurs in `s`.
pub open spec fn occurs_in(p: Seq<char>, s: Seq<char>) -> bool {
    exists|i: int| 0 <= i <= s.len() - p.len() && #[trigger] s.subrange(i, i + p.len()) == p
}

proof fn lemma_occurs_between(x: Seq<char>, p: Seq<char>, z: Seq<char>)
    ensures
        occurs_in(p, x + p + z),
{
    let s = x + p + z;
    assert(s.subrange(x.len() as int, (x.len() + p.len()) as int) =~= p);
}

/// The text of an update that changes anything starts with the member's
/// mention and has a line for each kind of change it makes: the roles
/// added, the roles removed (each list with its plural) and the new
/// nickname, whichever of them there are.
pub proof fn law_update_text_lists_changes(u: MemberUpdateView)
    requires
        u.roles is Some || u.nick is Some,
    ensures
        update_text(u).take(decimal(u.id as nat).len() + 4int) == "<@"@ + decimal(u.id as nat) + ">:"@,
        u.add.len() > 0 ==> occurs_in(
            "\n - Add role"@ + (if u.add.len() == 1 {
                Seq::<char>::empty()
            } else {
                "s"@
            }) + " "@ + role_mentions(u.add) + "."@,
            update_text(u),
        ),
        u.remove.len() > 0 ==> occurs_in(
            "\n- Remove role"@ + (if u.remove.len() == 1 {
                Seq::<char>::empty()
            } else {
                "s"@
            }) + " "@ + role_mentions(u.remove) + "."@,
            update_text(u),
        ),
        u.nick matches Some(n) ==> occurs_in("\n- Change nickname to `"@ + n + "`."@, update_text(u)),
{
    reveal_strlit("<@");
    reveal_strlit(">:");
    let head = "<@"@ + decimal(u.id as nat) + ">:"@;
    let a = if u.add.len() > 0 {
        "\n - Add role"@ + plural(u.add.len()) + " "@ + role_mentions(u.add) + "."@
    } else {
        Seq::empty()
    };
    let r = if u.remove.len() > 0 {
        "\n- Remove role"@ + plural(u.remove.len()) + " "@ + role_mentions(u.remove) + "."@
    } else {
        Seq::empty()
    };
    let n = match u.nick {
        Some(n) => "\n- Change nickname to `"@ + n + "`."@,
        None => Seq::empty(),
    };
    assert(update_text(u) == head + a + r + n);
    assert((head + a + r + n).take(head.len() as int) =~= head);
    if u.add.len() > 0 {
        lemma_occurs_between(head, a, r + n);
        assert(head + a + (r + n) =~= head + a + r + n);
    }
    if u.remove.len() > 0 {
        lemma_occurs_between(head + a, r, n);
    }
    if u.nick is Some {
        lemma_occurs_between(head + a + r, n, Seq::empty());
        assert(head + a + r + n + Seq::<char>::empty() =~= head + a + r + n);
    }
}


proof fn lemma_occurs_extend(p: Seq<char>, x: Seq<char>, y: Seq<char>)
    requires
        occurs_in(p, x),
    ensures
        occurs_in(p, x + y),
{
    let i = choose|i: int| 0 <= i <= x.len() - p.len() && #[trigger] x.subrange(i, i + p.len()) == p;
    assert((x + y).subrange(i, i + p.len()) =~= x.subrange(i, i + p.len()));
}

/// The mentions of a list of roles name each role of the list.
pub proof fn law_role_mentions_name_each_role(rs: Seq<u64>)
    ensures
        forall|i: int| 0 <= i < rs.len() ==> occurs_in("<@&"@ + decimal(#[trigger] rs[i] as nat) + ">"@, role_mentions(rs)),
    decreases rs.len(),
{
    if rs.len() == 1 {
        lemma_occurs_between(Seq::empty(), role_mention(rs[0]), Seq::empty());
        assert(Seq::<char>::empty() + role_mention(rs[0]) + Seq::<char>::empty() =~= role_mention(rs[0]));
    } else if rs.len() > 1 {
        law_role_mentions_name_each_role(rs.drop_last());
        let front = role_mentions(rs.drop_last()) + ", "@;
        assert forall|i: int| 0 <= i < rs.len() implies occurs_in("<@&"@ + decimal(#[trigger] rs[i] as nat) + ">"@, role_mentions(rs)) by {
            if i < rs.len() - 1 {
                assert(rs.drop_last()[i] == rs[i]);
                lemma_occurs_extend("<@&"@ + decimal(rs[i] as nat) + ">"@, role_mentions(rs.drop_last()), ", "@ + role_mention(rs.last()));
                assert(role_mentions(rs.drop_last()) + (", "@ + role_mention(rs.last())) =~= role_mentions(rs));
            } else {
                lemma_occurs_between(front, role_mention(rs.last()), Seq::empty());
                assert(front + role_mention(rs.last()) + Seq::<char>::empty() =~= role_mentions(rs));
            }
        }
    }
}

} // verus!
