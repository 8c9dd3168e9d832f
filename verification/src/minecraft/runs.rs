//! An update of the members, step by step: gathering what it needs from
//! Hypixel, the database and Discord, and then editing the members.
use vstd::prelude::*;
use crate::config::BotConfig;
use crate::database::DatabaseError;
use crate::minecraft::tasks::{member_edit, MemberEdit};
use crate::minecraft::updates::{
    get_updates, guild_members_view, members_view, updates_of, users_view, Member, MemberUpdate,
    MemberUpdateView,
};
use crate::minecraft::{
    GetGuildMembersError, GuildRequestError, HypixelGuild, HypixelGuildMember, UpdateRolesError,
    UpdateUsersError,
};
use crate::models::User;

verus! {

/// The UUIDs of the members of all the guilds, guild after guild.
pub open spec fn all_uuids(gms: Seq<Seq<HypixelGuildMember>>) -> Seq<Seq<char>>
    decreases gms.len(),
{
    if gms.len() == 0 {
        Seq::empty()
    } else {
        all_uuids(gms.drop_last()) + gms.last().map_values(|m: HypixelGuildMember| m.uuid@)
    }
}

/// The UUIDs of the members of all the guilds, guild after guild.
pub fn guild_uuids(gms: &Vec<Vec<HypixelGuildMember>>) -> (r: Vec<String>)
    ensures
        r@.map_values(|s: String| s@) == all_uuids(guild_members_view(gms@)),
{
    let ghost gv = guild_members_view(gms@);
    let mut out: Vec<String> = Vec::new();
    let n = gms.len();
    let mut i: usize = 0;
    while i < n
        invariant
            n == gms@.len(),
            gv == guild_members_view(gms@),
            i <= n,
            out@.map_values(|s: String| s@) == all_uuids(gv.take(i as int)),
        decreases n - i,
    {
        let g = &gms[i];
        assert(gv.take(i + 1).drop_last() =~= gv.take(i as int));
        assert(gv.take(i + 1).last() == g@);
        let ghost base = out@.map_values(|s: String| s@);
        let m = g.len();
        let mut j: usize = 0;
        while j < m
            invariant
                m == g@.len(),
                j <= m,
                out@.map_values(|s: String| s@) == base + g@.take(j as int).map_values(|x: HypixelGuildMember| x.uuid@),
            decreases m - j,
        {
            let ghost prev = out@;
            out.push(g[j].uuid.clone());
            assert(out@.map_values(|s: String| s@) =~= prev.map_values(|s: String| s@).push(g@[j as int].uuid@));
            assert(g@.take(j + 1).map_values(|x: HypixelGuildMember| x.uuid@) =~= g@.take(j as int).map_values(
                |x: HypixelGuildMember| x.uuid@,
            ).push(g@[j as int].uuid@));
            j = j + 1;
        }
        assert(g@.take(m as int) =~= g@);
        i = i + 1;
    }
    assert(gv.take(n as int) =~= gv);
    out
}

/// Where gathering an update's inputs stands.
pub enum GatherStage {
    /// Waiting for the next configured guild from Hypixel.
    AwaitGuild,
    /// Waiting for the stored links of the guilds' members.
    AwaitLinked,
    /// Waiting for the members of the Discord guild.
    AwaitMembers,
    /// Finished.
    Finished,
}

/// What gathering asks for next.
pub enum GatherAction {
    /// Fetch the Hypixel guild with this name.
    FetchGuild(String),
    /// Fetch the stored links of the accounts with these UUIDs.
    FetchLinked(Vec<String>),
    /// Fetch the members of the Discord guild.
    FetchMembers,
    /// Finished, with the updates or what failed.
    Finish(Result<Vec<MemberUpdate>, UpdateRolesError>),
}

/// What came back from the last action.
pub enum GatherEvent {
    Guild(Result<HypixelGuild, GuildRequestError>),
    Linked(Result<Vec<User>, DatabaseError>),
    Members(Result<Vec<Member>, GetGuildMembersError>),
}

/// The inputs of an update, gathered one after the other: the configured
/// guilds' members in the configuration's order, then their stored links,
/// then the Discord guild's members.
pub struct UpdateGather {
    pub guild_members: Vec<Vec<HypixelGuildMember>>,
    pub linked: Vec<User>,
    pub stage: GatherStage,
}

impl UpdateGather {
    /// What every gathering keeps, for the configuration `cfg`.
    pub open spec fn wf(&self, cfg: BotConfig) -> bool {
        &&& self.guild_members@.len() <= cfg.guilds@.len()
        &&& self.stage is AwaitGuild ==> self.guild_members@.len() < cfg.guilds@.len()
        &&& (self.stage is AwaitLinked || self.stage is AwaitMembers) ==> self.guild_members@.len() == cfg.guilds@.len()
    }

    /// Whether `ev` is what the current stage waits for.
    pub open spec fn expects(&self, ev: GatherEvent) -> bool {
        match self.stage {
            GatherStage::AwaitGuild => ev is Guild,
            GatherStage::AwaitLinked => ev is Linked,
            GatherStage::AwaitMembers => ev is Members,
            GatherStage::Finished => false,
        }
    }

    /// Whether `self` with the action `a` asks for what comes after the
    /// guilds it holds: the next guild, or else the stored links.
    pub open spec fn asks_next(&self, cfg: BotConfig, a: GatherAction) -> bool {
        let k = self.guild_members@.len();
        if k < cfg.guilds@.len() {
            self.stage is AwaitGuild && (a matches GatherAction::FetchGuild(n) && n@ == cfg.guilds@[k as int].name@)
        } else {
            self.stage is AwaitLinked && (a matches GatherAction::FetchLinked(us)
                && us@.map_values(|s: String| s@) == all_uuids(guild_members_view(self.guild_members@)))
        }
    }

    fn ask_next(&mut self, cfg: &BotConfig) -> (a: GatherAction)
        requires
            old(self).guild_members@.len() <= cfg.guilds@.len(),
        ensures
            final(self).wf(*cfg),
            final(self).asks_next(*cfg, a),
            final(self).guild_members == old(self).guild_members,
            final(self).linked == old(self).linked,
    {
        let k = self.guild_members.len();
        if k < cfg.guilds.len() {
            self.stage = GatherStage::AwaitGuild;
            GatherAction::FetchGuild(cfg.guilds[k].name.clone())
        } else {
            self.stage = GatherStage::AwaitLinked;
            GatherAction::FetchLinked(guild_uuids(&self.guild_members))
        }
    }

    /// Starts gathering for the configuration `cfg`.
    pub fn start(cfg: &BotConfig) -> (r: (UpdateGather, GatherAction))
        ensures
            r.0.wf(*cfg),
            r.0.guild_members@.len() == 0,
            r.0.asks_next(*cfg, r.1),
    {
        let mut g = UpdateGather { guild_members: Vec::new(), linked: Vec::new(), stage: GatherStage::Finished };
        let a = g.ask_next(cfg);
        (g, a)
    }

    /// Takes in what the last action gave back, and says what comes next;
    /// once all is there, the updates are computed by [`get_updates`].
    pub fn step(&mut self, cfg: &BotConfig, ev: GatherEvent) -> (a: GatherAction)
        requires
            old(self).wf(*cfg),
            old(self).expects(ev),
        ensures
            final(self).wf(*cfg),
            match ev {
                GatherEvent::Guild(Err(e)) => final(self).stage is Finished
                    && a == GatherAction::Finish(Err(UpdateRolesError::GuildRequest(e))),
                GatherEvent::Guild(Ok(g)) => final(self).guild_members@ == old(self).guild_members@.push(g.members)
                    && final(self).asks_next(*cfg, a),
                GatherEvent::Linked(Err(e)) => final(self).stage is Finished
                    && a == GatherAction::Finish(Err(UpdateRolesError::Database(e))),
                GatherEvent::Linked(Ok(us)) => final(self).stage is AwaitMembers && a is FetchMembers
                    && final(self).linked == us && final(self).guild_members == old(self).guild_members,
                GatherEvent::Members(Err(e)) => final(self).stage is Finished
                    && a == GatherAction::Finish(Err(UpdateRolesError::GetGuildMembers(e))),
                GatherEvent::Members(Ok(ms)) => final(self).stage is Finished && (a matches GatherAction::Finish(r) && {
                    let gv = guild_members_view(old(self).guild_members@);
                    let lv = users_view(old(self).linked@);
                    let mv = members_view(ms@);
                    match r {
                        Ok(us) => updates_of(*cfg, gv, lv, mv) == Ok::<Seq<MemberUpdateView>, i64>(us@.map_values(|u: MemberUpdate| u@)),
                        Err(e) => e matches UpdateRolesError::InvalidDbUser(id)
                            && updates_of(*cfg, gv, lv, mv) == Err::<Seq<MemberUpdateView>, i64>(id),
                    }
                }),
            },
    {
        match ev {
            GatherEvent::Guild(Err(e)) => {
                self.stage = GatherStage::Finished;
                GatherAction::Finish(Err(UpdateRolesError::GuildRequest(e)))
            },
            GatherEvent::Guild(Ok(g)) => {
                let HypixelGuild { members } = g;
                self.guild_members.push(members);
                self.ask_next(cfg)
            },
            GatherEvent::Linked(Err(e)) => {
                self.stage = GatherStage::Finished;
                GatherAction::Finish(Err(UpdateRolesError::Database(e)))
            },
            GatherEvent::Linked(Ok(us)) => {
                self.linked = us;
                self.stage = GatherStage::AwaitMembers;
                GatherAction::FetchMembers
            },
            GatherEvent::Members(Err(e)) => {
                self.stage = GatherStage::Finished;
                GatherAction::Finish(Err(UpdateRolesError::GetGuildMembers(e)))
            },
            GatherEvent::Members(Ok(ms)) => {
                self.stage = GatherStage::Finished;
                GatherAction::Finish(get_updates(cfg, &self.guild_members, &self.linked, &ms))
            },
        }
    }
}

/// The edit that carries out `u`, where `u` changes anything; see
/// [`member_edit`].
pub open spec fn edit_of(u: MemberUpdate, no_permission: u64) -> Option<MemberEdit> {
    if u.roles is None && u.nick is None {
        None
    } else {
        Some(MemberEdit {
            user: u.id,
            nick: if u.id != no_permission {
                u.nick
            } else {
                None
            },
            roles: u.roles,
        })
    }
}

/// The edits that carry out `us`, in order, the empty updates left out.
pub open spec fn edits_of(us: Seq<MemberUpdate>, no_permission: u64) -> Seq<MemberEdit>
    decreases us.len(),
{
    if us.len() == 0 {
        Seq::empty()
    } else {
        let rest = edits_of(us.drop_last(), no_permission);
        match edit_of(us.last(), no_permission) {
            Some(e) => rest.push(e),
            None => rest,
        }
    }
}

/// The member whose nickname the bot may not change keeps it: no edit for
/// that member sets a nickname, whatever the updates ask.
pub proof fn law_protected_member_keeps_nickname(us: Seq<MemberUpdate>, no_permission: u64)
    ensures
        forall|i: int|
            0 <= i < edits_of(us, no_permission).len() && #[trigger] edits_of(us, no_permission)[i].user
                == no_permission ==> edits_of(us, no_permission)[i].nick is None,
    decreases us.len(),
{
    if us.len() > 0 {
        law_protected_member_keeps_nickname(us.drop_last(), no_permission);
    }
}

/// Every update that changes something becomes one edit of its member, in
/// the updates' order; an update that changes nothing becomes none.
pub proof fn law_one_edit_per_change(us: Seq<MemberUpdate>, no_permission: u64, u: MemberUpdate)
    ensures
        edits_of(us.push(u), no_permission) == if u.roles is None && u.nick is None {
            edits_of(us, no_permission)
        } else {
            edits_of(us, no_permission).push(edit_of(u, no_permission)->0)
        },
        (u.roles is Some || u.nick is Some) ==> edits_of(us.push(u), no_permission).last().user == u.id,
{
    assert(us.push(u).drop_last() =~= us);
}

/// Seconds waited after each edit.
pub const EDIT_DELAY_SECS: u64 = 1;

/// What applying the updates asks for next.
pub enum ApplyAction {
    /// Edit a member.
    Edit(MemberEdit),
    /// Wait this many seconds.
    Sleep(u64),
    /// Finished, with the outcome.
    Finish(Result<(), UpdateUsersError>),
}

/// What came back from the last action.
pub enum ApplyEvent {
    /// The edit was made, or failed with what Discord said.
    Edited(Result<(), String>),
    /// The wait is over.
    Slept,
}

/// The updates being carried out, one edit after the other.
pub struct UpdateApply {
    /// The edits still to make, the next one last.
    pub pending: Vec<MemberEdit>,
    /// Whether an edit was asked for and its outcome not yet told.
    pub awaiting_edit: bool,
    pub finished: bool,
}

impl UpdateApply {
    /// The edits still to make, in order.
    pub open spec fn remaining(&self) -> Seq<MemberEdit> {
        self.pending@.reverse()
    }

    fn next(&mut self) -> (a: ApplyAction)
        ensures
            old(self).remaining().len() == 0 ==> final(self).finished && a == ApplyAction::Finish(Ok(())),
            old(self).remaining().len() > 0 ==> !final(self).finished && final(self).awaiting_edit
                && final(self).remaining() == old(self).remaining().drop_first()
                && a == ApplyAction::Edit(old(self).remaining()[0]),
    {
        match self.pending.pop() {
            None => {
                self.finished = true;
                ApplyAction::Finish(Ok(()))
            },
            Some(e) => {
                proof {
                    assert(old(self).pending@ == self.pending@.push(e));
                    assert(old(self).remaining() =~= seq![e] + self.remaining());
                }
                self.awaiting_edit = true;
                self.finished = false;
                ApplyAction::Edit(e)
            },
        }
    }

    /// Starts carrying out `updates`, where the member `no_permission` keeps
    /// its nickname.
    pub fn start(updates: Vec<MemberUpdate>, no_permission: u64) -> (r: (UpdateApply, ApplyAction))
        ensures
            edits_of(updates@, no_permission).len() == 0 ==> r.0.finished && r.1 == ApplyAction::Finish(Ok(())),
            edits_of(updates@, no_permission).len() > 0 ==> !r.0.finished && r.0.awaiting_edit
                && r.0.remaining() == edits_of(updates@, no_permission).drop_first()
                && r.1 == ApplyAction::Edit(edits_of(updates@, no_permission)[0]),
    {
        let ghost all = updates@;
        let mut updates = updates;
        let mut pending: Vec<MemberEdit> = Vec::new();
        while updates.len() > 0
            invariant
                edits_of(all, no_permission) == edits_of(updates@, no_permission) + pending@.reverse(),
            decreases updates@.len(),
        {
            let ghost before = updates@;
            let u = updates.pop().unwrap();
            assert(before.drop_last() == updates@);
            assert(before.last() == u);
            match member_edit(u, no_permission) {
                Some(e) => {
                    proof {
                        assert(edit_of(u, no_permission) == Some(e));
                        assert(pending@.push(e).reverse() =~= seq![e] + pending@.reverse());
                        assert(edits_of(before, no_permission) == edits_of(updates@, no_permission).push(e));
                        assert(edits_of(updates@, no_permission).push(e) + pending@.reverse()
                            =~= edits_of(updates@, no_permission) + (seq![e] + pending@.reverse()));
                    }
                    pending.push(e);
                },
                None => {
                    assert(edit_of(u, no_permission) is None);
                },
            }
        }
        assert(edits_of(updates@, no_permission) =~= Seq::<MemberEdit>::empty());
        assert(edits_of(all, no_permission) =~= pending@.reverse());
        let mut run = UpdateApply { pending, awaiting_edit: false, finished: false };
        let a = run.next();
        (run, a)
    }

    /// Takes in what the last action gave back, and says what comes next: a
    /// failed edit ends the run, a made one is followed by a wait.
    pub fn step(&mut self, ev: ApplyEvent) -> (a: ApplyAction)
        requires
            !old(self).finished,
            ev is Edited <==> old(self).awaiting_edit,
        ensures
            match ev {
                ApplyEvent::Edited(Err(m)) => final(self).finished
                    && (a matches ApplyAction::Finish(Err(UpdateUsersError::UpdateMember(x))) && x@ == m@),
                ApplyEvent::Edited(Ok(())) => !final(self).finished && !final(self).awaiting_edit
                    && final(self).remaining() == old(self).remaining() && a == ApplyAction::Sleep(EDIT_DELAY_SECS),
                ApplyEvent::Slept => if old(self).remaining().len() == 0 {
                    final(self).finished && a == ApplyAction::Finish(Ok(()))
                } else {
                    !final(self).finished && final(self).awaiting_edit
                        && final(self).remaining() == old(self).remaining().drop_first()
                        && a == ApplyAction::Edit(old(self).remaining()[0])
                },
            },
    {
        match ev {
            ApplyEvent::Edited(Err(m)) => {
                self.finished = true;
                ApplyAction::Finish(Err(UpdateUsersError::UpdateMember(m)))
            },
            ApplyEvent::Edited(Ok(())) => {
                self.awaiting_edit = false;
                ApplyAction::Sleep(EDIT_DELAY_SECS)
            },
            ApplyEvent::Slept => self.next(),
        }
    }
}

} // verus!
