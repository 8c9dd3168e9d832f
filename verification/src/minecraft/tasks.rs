//! The recurring work of the bot: fetching the guild's members page by page,
//! refreshing stored names, editing members, and the loop that runs it all.
use vstd::prelude::*;
use crate::minecraft::updates::{contains_u64, Member, MemberUpdate, MemberView};
use crate::database::DatabaseError;
use crate::minecraft::{GetGuildMembersError, MinecraftUserRequestError, UpdateIgnsError, UserIdResponse};
use crate::models::User;
use crate::text::{append_str, owned, text_eq};

verus! {

/// An edit of a member to ask Discord for.
pub struct MemberEdit {
    pub user: u64,
    pub nick: Option<String>,
    pub roles: Option<Vec<u64>>,
}

/// The edit that carries out an update: nothing for an empty update; the
/// nickname unless the member is the one whose nickname the bot may not
/// change; the roles where they change.
pub fn member_edit(update: MemberUpdate, no_permission: u64) -> (r: Option<MemberEdit>)
    ensures
        (update.roles is None && update.nick is None) <==> r is None,
        r matches Some(e) ==> {
            &&& e.user == update.id
            &&& e.nick == (if update.id != no_permission {
                update.nick
            } else {
                None
            })
            &&& e.roles == update.roles
        },
{
    if update.is_empty() {
        return None;
    }
    let MemberUpdate { id, roles, add: _, remove: _, nick } = update;
    let nick = if id != no_permission {
        nick
    } else {
        None
    };
    Some(MemberEdit { user: id, nick, roles })
}

/// The ids, as the database stores them, of the members with the verified
/// role whose id is below `i64::MAX`, in order.
pub open spec fn verified_ids(ms: Seq<MemberView>, verified: u64) -> Seq<i64>
    decreases ms.len(),
{
    if ms.len() == 0 {
        Seq::empty()
    } else {
        let rest = verified_ids(ms.drop_last(), verified);
        let m = ms.last();
        if m.user_id < i64::MAX as u64 && m.roles.contains(verified) {
            rest.push(m.user_id as i64)
        } else {
            rest
        }
    }
}

/// The members whose stored names are to be refreshed; see [`verified_ids`].
pub fn verified_member_ids(members: &Vec<Member>, verified: u64) -> (r: Vec<i64>)
    ensures
        r@ == verified_ids(members@.map_values(|m: Member| m@), verified),
{
    let ghost mv = members@.map_values(|m: Member| m@);
    let n = members.len();
    let mut out: Vec<i64> = Vec::new();
    let mut i: usize = 0;
    while i < n
        invariant
            n == members@.len(),
            mv == members@.map_values(|m: Member| m@),
            i <= n,
            out@ == verified_ids(mv.take(i as int), verified),
        decreases n - i,
    {
        let m = &members[i];
        assert(mv.take(i + 1).drop_last() =~= mv.take(i as int));
        assert(mv.take(i + 1).last() == m@);
        if m.user_id < 9223372036854775807u64 && contains_u64(&m.roles, verified) {
            out.push(m.user_id as i64);
        }
        i = i + 1;
    }
    assert(mv.take(n as int) =~= mv);
    out
}

/// The UUID under which a stored link's name is looked up; a link without
/// one is broken.
pub fn ign_lookup_uuid(user: &User) -> (r: Result<String, UpdateIgnsError>)
    ensures
        user.uuid matches Some(u) ==> (r matches Ok(x) && x@ == u@),
        user.uuid is None ==> (r matches Err(UpdateIgnsError::InvalidDbUser(id)) && id == user.id),
{
    match &user.uuid {
        Some(u) => Ok(u.clone()),
        None => Err(UpdateIgnsError::InvalidDbUser(user.id)),
    }
}

/// Whether the stored name must be replaced by the current one.
pub fn ign_needs_update(stored: &Option<String>, current: &str) -> (b: bool)
    ensures
        b == (match stored {
            None => true,
            Some(s) => s@ != current@,
        }),
{
    match stored {
        None => true,
        Some(s) => !text_eq(current, s.as_str()),
    }
}

/// How many members one page holds.
pub const PAGE_SIZE: usize = 1000;

/// How many members the bot fetches at most before it gives up.
pub const MAX_MEMBERS: usize = 5000;

/// What fetching the members asks for next.
pub enum PageAction {
    /// Fetch the page of members after this user, or the first page.
    Fetch { after: Option<u64> },
    /// All members are fetched.
    Done,
    /// Too many members.
    Failed(GetGuildMembersError),
}

/// The members of the Discord guild, fetched page by page.
pub struct MemberPages {
    pub members: Vec<Member>,
    pub last_user: Option<u64>,
    pub finished: bool,
}

impl MemberPages {
    /// Nothing fetched yet.
    pub fn new() -> (p: MemberPages)
        ensures
            p.members@.len() == 0,
            p.last_user is None,
            !p.finished,
    {
        MemberPages { members: Vec::new(), last_user: None, finished: false }
    }

    /// What to ask for next: nothing once finished, a failure once 5000
    /// members or more are held, else the page after the last member held.
    pub fn next_action(&self) -> (a: PageAction)
        ensures
            self.finished ==> a is Done,
            !self.finished && self.members@.len() >= MAX_MEMBERS ==> a matches PageAction::Failed(GetGuildMembersError::TooManyMembers),
            !self.finished && self.members@.len() < MAX_MEMBERS ==> a == (PageAction::Fetch { after: self.last_user }),
    {
        if self.finished {
            PageAction::Done
        } else if self.members.len() >= MAX_MEMBERS {
            PageAction::Failed(GetGuildMembersError::TooManyMembers)
        } else {
            PageAction::Fetch { after: self.last_user }
        }
    }

    /// Takes in a page: a page that is not full is the last one; after a
    /// full page the next begins after its last member.
    pub fn add_page(&mut self, page: Vec<Member>)
        requires
            !old(self).finished,
            old(self).members@.len() + page@.len() <= usize::MAX,
        ensures
            final(self).members@.map_values(|m: Member| m@) == old(self).members@.map_values(|m: Member| m@) + page@.map_values(|m: Member| m@),
            page@.len() != PAGE_SIZE ==> final(self).finished && final(self).last_user == old(self).last_user,
            page@.len() == PAGE_SIZE ==> !final(self).finished && final(self).last_user == Some(page@.last().user_id),
    {
        let n = page.len();
        if n == PAGE_SIZE {
            self.last_user = Some(page[n - 1].user_id);
        } else {
            self.finished = true;
        }
        let ghost before = self.members@;
        let mut page = page;
        let ghost pv = page@;
        self.members.append(&mut page);
        assert(self.members@.map_values(|m: Member| m@) =~= before.map_values(|m: Member| m@) + pv.map_values(|m: Member| m@));
    }
}

/// The text of a notification to the staff: the mention, then the message.
pub fn notification_content(mention: &str, notification: &str) -> (s: String)
    ensures
        s@ == mention@ + ", "@ + notification@,
{
    let mut s = owned(mention);
    append_str(&mut s, ", ");
    append_str(&mut s, notification);
    s
}

/// The notification sent where refreshing the names failed.
pub open spec fn igns_failed_text() -> Seq<char> {
    "there was an error in the update loop while getting IGNs."@
}

/// The notification sent where updating the members failed.
pub open spec fn users_failed_text() -> Seq<char> {
    "there was an error in the update loop while updating members."@
}

/// How long the loop sleeps between two runs, in seconds.
pub const LOOP_SLEEP_SECS: u64 = 1800;

/// How many times the members are updated after each refresh of the names.
pub const USER_ROUNDS: u8 = 4;

/// Where the update loop stands.
pub enum LoopState {
    /// Sleeping before a new round.
    OuterSleep,
    /// Refreshing the stored names.
    Igns,
    /// Sending the notice that the refresh failed; a new round follows.
    NotifyThenOuter,
    /// Updating the members, for the given time in the round.
    Users(u8),
    /// Sending the notice that updating the members failed.
    NotifyThenInner(u8),
    /// Sleeping after the given time of updating the members.
    InnerSleep(u8),
}

/// What the update loop asks for.
pub enum LoopAction {
    /// Sleep for this many seconds.
    Sleep(u64),
    /// Refresh the stored names.
    UpdateIgns,
    /// Update the members.
    UpdateUsers,
    /// Notify the staff with this text.
    Notify(String),
}

/// What the update loop is told.
pub enum LoopEvent {
    /// The sleep is over; whether the loop is paused now.
    Slept { paused: bool },
    /// The names were refreshed, or not; whether the loop is paused now.
    IgnsDone { ok: bool, paused: bool },
    /// The members were updated, or not.
    UsersDone { ok: bool },
    /// The notice was sent.
    Notified,
}

/// Whether `ev` is what the loop waits for in `st`.
pub open spec fn loop_expects(st: LoopState, ev: LoopEvent) -> bool {
    match st {
        LoopState::OuterSleep => ev is Slept,
        LoopState::Igns => ev is IgnsDone,
        LoopState::NotifyThenOuter => ev is Notified,
        LoopState::Users(_) => ev is UsersDone,
        LoopState::NotifyThenInner(_) => ev is Notified,
        LoopState::InnerSleep(_) => ev is Slept,
    }
}

/// What every state of the loop keeps: the members are updated at most four
/// times in a round.
pub open spec fn loop_wf(st: LoopState) -> bool {
    match st {
        LoopState::Users(i) => i < USER_ROUNDS,
        LoopState::NotifyThenInner(i) => i < USER_ROUNDS,
        LoopState::InnerSleep(i) => i < USER_ROUNDS - 1,
        _ => true,
    }
}

/// The step after the members were updated for time `i` of a round.
pub open spec fn after_users(i: u8) -> (LoopState, LoopAction) {
    if i != USER_ROUNDS - 1 {
        (LoopState::InnerSleep(i), LoopAction::Sleep(LOOP_SLEEP_SECS))
    } else {
        (LoopState::OuterSleep, LoopAction::Sleep(LOOP_SLEEP_SECS))
    }
}

/// The loop before its first step, and what it asks for first.
pub fn loop_start() -> (r: (LoopState, LoopAction))
    ensures
        r.0 == LoopState::OuterSleep,
        r.1 == LoopAction::Sleep(LOOP_SLEEP_SECS),
{
    (LoopState::OuterSleep, LoopAction::Sleep(LOOP_SLEEP_SECS))
}

/// One step of the update loop. Each round sleeps, then refreshes the names
/// unless paused; where that fails it notifies the staff and starts a new
/// round. Then it updates the members four times, sleeping between them,
/// and stops early where the loop is paused. A failed update of the members
/// is notified and the round goes on.
pub fn loop_step(st: LoopState, ev: LoopEvent) -> (r: (LoopState, LoopAction))
    requires
        loop_wf(st),
        loop_expects(st, ev),
    ensures
        loop_wf(r.0),
        match (st, ev) {
            (LoopState::OuterSleep, LoopEvent::Slept { paused }) => if paused {
                r.0 == LoopState::OuterSleep && r.1 == LoopAction::Sleep(LOOP_SLEEP_SECS)
            } else {
                r.0 == LoopState::Igns && r.1 == LoopAction::UpdateIgns
            },
            (LoopState::Igns, LoopEvent::IgnsDone { ok, paused }) => if !ok {
                r.0 == LoopState::NotifyThenOuter && (r.1 matches LoopAction::Notify(t) && t@ == igns_failed_text())
            } else if paused {
                r.0 == LoopState::OuterSleep && r.1 == LoopAction::Sleep(LOOP_SLEEP_SECS)
            } else {
                r.0 == LoopState::Users(0) && r.1 == LoopAction::UpdateUsers
            },
            (LoopState::NotifyThenOuter, LoopEvent::Notified) => r.0 == LoopState::OuterSleep
                && r.1 == LoopAction::Sleep(LOOP_SLEEP_SECS),
            (LoopState::Users(i), LoopEvent::UsersDone { ok }) => if !ok {
                r.0 == LoopState::NotifyThenInner(i) && (r.1 matches LoopAction::Notify(t) && t@ == users_failed_text())
            } else {
                r == after_users(i)
            },
            (LoopState::NotifyThenInner(i), LoopEvent::Notified) => r == after_users(i),
            (LoopState::InnerSleep(i), LoopEvent::Slept { paused }) => if paused {
                r.0 == LoopState::OuterSleep && r.1 == LoopAction::Sleep(LOOP_SLEEP_SECS)
            } else {
                r.0 == LoopState::Users((i + 1) as u8) && r.1 == LoopAction::UpdateUsers
            },
            _ => false,
        },
{
    match (st, ev) {
        (LoopState::OuterSleep, LoopEvent::Slept { paused }) => if paused {
            (LoopState::OuterSleep, LoopAction::Sleep(LOOP_SLEEP_SECS))
        } else {
            (LoopState::Igns, LoopAction::UpdateIgns)
        },
        (LoopState::Igns, LoopEvent::IgnsDone { ok, paused }) => if !ok {
            (LoopState::NotifyThenOuter, LoopAction::Notify(owned("there was an error in the update loop while getting IGNs.")))
        } else if paused {
            (LoopState::OuterSleep, LoopAction::Sleep(LOOP_SLEEP_SECS))
        } else {
            (LoopState::Users(0), LoopAction::UpdateUsers)
        },
        (LoopState::NotifyThenOuter, LoopEvent::Notified) => (LoopState::OuterSleep, LoopAction::Sleep(LOOP_SLEEP_SECS)),
        (LoopState::Users(i), LoopEvent::UsersDone { ok }) => if !ok {
            (LoopState::NotifyThenInner(i), LoopAction::Notify(owned("there was an error in the update loop while updating members.")))
        } else if i != USER_ROUNDS - 1 {
            (LoopState::InnerSleep(i), LoopAction::Sleep(LOOP_SLEEP_SECS))
        } else {
            (LoopState::OuterSleep, LoopAction::Sleep(LOOP_SLEEP_SECS))
        },
        (LoopState::NotifyThenInner(i), LoopEvent::Notified) => if i != USER_ROUNDS - 1 {
            (LoopState::InnerSleep(i), LoopAction::Sleep(LOOP_SLEEP_SECS))
        } else {
            (LoopState::OuterSleep, LoopAction::Sleep(LOOP_SLEEP_SECS))
        },
        (LoopState::InnerSleep(i), LoopEvent::Slept { paused }) => if paused {
            (LoopState::OuterSleep, LoopAction::Sleep(LOOP_SLEEP_SECS))
        } else {
            (LoopState::Users(i + 1), LoopAction::UpdateUsers)
        },
        (st, _) => (st, LoopAction::Sleep(LOOP_SLEEP_SECS)),
    }
}

/// Seconds waited after each stored name is checked.
pub const IGN_DELAY_SECS: u64 = 10;

/// Where a refresh of the stored names stands.
pub enum IgnStage {
    /// Waiting for the members of the Discord guild.
    AwaitMembers,
    /// Waiting for the stored links of the verified members.
    AwaitLinked,
    /// Waiting for the current name of the current link's account.
    AwaitIgn,
    /// Waiting for the new name to be stored.
    AwaitStore,
    /// Waiting before the next link.
    AwaitSleep,
    /// Finished.
    Finished,
}

/// What a refresh of the stored names asks for next.
pub enum IgnAction {
    /// Fetch the members of the Discord guild.
    FetchMembers,
    /// Fetch the stored links of these users.
    FetchLinked(Vec<i64>),
    /// Look up the account with this UUID.
    FetchIgn(String),
    /// Store this name for this user.
    Store { user_id: i64, ign: String },
    /// Wait this many seconds.
    Sleep(u64),
    /// Finished, with the outcome.
    Finish(Result<(), UpdateIgnsError>),
}

/// What came back from the last action.
pub enum IgnEvent {
    /// The members of the Discord guild.
    Members(Result<Vec<Member>, GetGuildMembersError>),
    /// The stored links.
    Linked(Result<Vec<User>, DatabaseError>),
    /// The account looked up.
    Ign(Result<UserIdResponse, MinecraftUserRequestError>),
    /// How many rows took the new name.
    Stored(Result<usize, DatabaseError>),
    /// The wait is over.
    Slept,
}

/// A refresh of the stored names: for each stored link of a verified member,
/// the account's current name replaces the stored one where they differ.
pub struct IgnRefresh {
    pub verified: u64,
    pub users: Vec<User>,
    pub index: usize,
    pub stage: IgnStage,
}

impl IgnRefresh {
    /// What every refresh keeps: while a link is worked on, it is the
    /// current one and has a UUID.
    pub open spec fn wf(&self) -> bool {
        &&& self.index <= self.users@.len()
        &&& (self.stage is AwaitIgn || self.stage is AwaitStore || self.stage is AwaitSleep) ==> {
            &&& self.index < self.users@.len()
            &&& self.users@[self.index as int].uuid is Some
        }
    }

    /// Whether `ev` is what the current stage waits for.
    pub open spec fn expects(&self, ev: IgnEvent) -> bool {
        match self.stage {
            IgnStage::AwaitMembers => ev is Members,
            IgnStage::AwaitLinked => ev is Linked,
            IgnStage::AwaitIgn => ev is Ign,
            IgnStage::AwaitStore => ev is Stored,
            IgnStage::AwaitSleep => ev is Slept,
            IgnStage::Finished => false,
        }
    }

    /// Whether `self`, with the action `a`, has moved on to the link at
    /// `index`: finished once all are done, failed at a link without a
    /// UUID, else looking up that link's account.
    pub open spec fn moved_to(&self, a: IgnAction, index: int) -> bool {
        &&& self.index == index
        &&& if index >= self.users@.len() {
            self.stage is Finished && a == IgnAction::Finish(Ok(()))
        } else {
            match self.users@[index].uuid {
                None => self.stage is Finished
                    && a == IgnAction::Finish(Err(UpdateIgnsError::InvalidDbUser(self.users@[index].id))),
                Some(u) => self.stage is AwaitIgn && (a matches IgnAction::FetchIgn(x) && x@ == u@),
            }
        }
    }

    /// Starts a refresh for the members with role `verified`.
    pub fn start(verified: u64) -> (r: (IgnRefresh, IgnAction))
        ensures
            r.0.wf(),
            r.0.verified == verified,
            r.0.stage is AwaitMembers,
            r.1 is FetchMembers,
    {
        (IgnRefresh { verified, users: Vec::new(), index: 0, stage: IgnStage::AwaitMembers }, IgnAction::FetchMembers)
    }

    fn advance(&mut self) -> (a: IgnAction)
        requires
            old(self).index <= old(self).users@.len(),
        ensures
            final(self).wf(),
            final(self).moved_to(a, old(self).index as int),
            final(self).users == old(self).users,
            final(self).verified == old(self).verified,
    {
        if self.index >= self.users.len() {
            self.stage = IgnStage::Finished;
            return IgnAction::Finish(Ok(()));
        }
        match ign_lookup_uuid(&self.users[self.index]) {
            Ok(u) => {
                self.stage = IgnStage::AwaitIgn;
                IgnAction::FetchIgn(u)
            },
            Err(e) => {
                self.stage = IgnStage::Finished;
                IgnAction::Finish(Err(e))
            },
        }
    }

    /// Takes in what the last action gave back, and says what comes next.
    pub fn step(&mut self, ev: IgnEvent) -> (a: IgnAction)
        requires
            old(self).wf(),
            old(self).expects(ev),
        ensures
            final(self).wf(),
            final(self).verified == old(self).verified,
            match ev {
                IgnEvent::Members(Err(e)) => final(self).stage is Finished
                    && a == IgnAction::Finish(Err(UpdateIgnsError::GetGuildMembers(e))),
                IgnEvent::Members(Ok(ms)) => final(self).stage is AwaitLinked
                    && (a matches IgnAction::FetchLinked(ids)
                        && ids@ == verified_ids(ms@.map_values(|m: Member| m@), old(self).verified)),
                IgnEvent::Linked(Err(e)) => final(self).stage is Finished
                    && a == IgnAction::Finish(Err(UpdateIgnsError::Database(e))),
                IgnEvent::Linked(Ok(us)) => final(self).users == us && final(self).moved_to(a, 0),
                IgnEvent::Ign(Err(e)) => final(self).stage is Finished
                    && a == IgnAction::Finish(Err(UpdateIgnsError::MinecraftUserRequestError(e))),
                IgnEvent::Ign(Ok(acc)) => {
                    let stored = old(self).users@[old(self).index as int].ign;
                    &&& final(self).users == old(self).users
                    &&& final(self).index == old(self).index
                    &&& if stored is None || stored->0@ != acc.name@ {
                        final(self).stage is AwaitStore && (a matches IgnAction::Store { user_id, ign }
                            && user_id == old(self).users@[old(self).index as int].id && ign@ == acc.name@)
                    } else {
                        final(self).stage is AwaitSleep && a == IgnAction::Sleep(IGN_DELAY_SECS)
                    }
                },
                IgnEvent::Stored(Err(e)) => final(self).stage is Finished
                    && a == IgnAction::Finish(Err(UpdateIgnsError::Database(e))),
                IgnEvent::Stored(Ok(_)) => final(self).users == old(self).users
                    && final(self).index == old(self).index
                    && final(self).stage is AwaitSleep && a == IgnAction::Sleep(IGN_DELAY_SECS),
                IgnEvent::Slept => final(self).users == old(self).users
                    && final(self).moved_to(a, old(self).index + 1),
            },
    {
        match ev {
            IgnEvent::Members(Err(e)) => {
                self.stage = IgnStage::Finished;
                IgnAction::Finish(Err(UpdateIgnsError::GetGuildMembers(e)))
            },
            IgnEvent::Members(Ok(ms)) => {
                self.stage = IgnStage::AwaitLinked;
                IgnAction::FetchLinked(verified_member_ids(&ms, self.verified))
            },
            IgnEvent::Linked(Err(e)) => {
                self.stage = IgnStage::Finished;
                IgnAction::Finish(Err(UpdateIgnsError::Database(e)))
            },
            IgnEvent::Linked(Ok(us)) => {
                self.users = us;
                self.index = 0;
                self.advance()
            },
            IgnEvent::Ign(Err(e)) => {
                self.stage = IgnStage::Finished;
                IgnAction::Finish(Err(UpdateIgnsError::MinecraftUserRequestError(e)))
            },
            IgnEvent::Ign(Ok(acc)) => {
                let user = &self.users[self.index];
                if ign_needs_update(&user.ign, acc.name.as_str()) {
                    let user_id = user.id;
                    self.stage = IgnStage::AwaitStore;
                    IgnAction::Store { user_id, ign: acc.name }
                } else {
                    self.stage = IgnStage::AwaitSleep;
                    IgnAction::Sleep(IGN_DELAY_SECS)
                }
            },
            IgnEvent::Stored(Err(e)) => {
                self.stage = IgnStage::Finished;
                IgnAction::Finish(Err(UpdateIgnsError::Database(e)))
            },
            IgnEvent::Stored(Ok(_)) => {
                self.stage = IgnStage::AwaitSleep;
                IgnAction::Sleep(IGN_DELAY_SECS)
            },
            IgnEvent::Slept => {
                let n = self.users.len();
                assert(self.index < n);
                self.index = self.index + 1;
                self.advance()
            },
        }
    }
}

} // verus!
