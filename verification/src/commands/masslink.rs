//! `masslink`: link every member with the verified role whose shown name is
//! a Minecraft account that names the member on Hypixel; for the bot's
//! owners only.
use vstd::prelude::*;
use crate::commands::{
    check_owner, embeds_response, is_owner, plain_embed, CommandData, CommandError,
    CommandErrorView, CommandResponseBuilder, MissingRequirement,
};
use crate::database::DatabaseError;
use crate::minecraft::updates::{contains_u64, Member, MemberView};
use crate::minecraft::{
    GetGuildMembersError, LinkedDiscordRequestError, MinecraftUserRequestError, UserIdResponse,
};
use crate::models::User;
use crate::text::{append_str, decimal, owned, signed_decimal, text_eq, write_i64, write_u64};

verus! {

/// How the command is used.
pub const USAGE: &'static str = "masslink => Link all users with the Verified role by checking their nickname.\nSyntax: masslink";

/// Seconds a user waits between two uses.
pub const COOLDOWN_SECS: u64 = 600;

/// Seconds waited before each member is looked up.
pub const DELAY_SECS: u64 = 10;

/// Only the bot's owners may link everyone.
pub fn check_gen_requirements(cmd: &CommandData) -> (r: Result<(), MissingRequirement>)
    requires
        cmd.author_of() is Some,
    ensures
        r is Ok <==> is_owner(cmd.author_of()->0),
        r matches Err(m) ==> m is BotOwnerOnly,
{
    check_owner(cmd)
}

/// The members with the verified role, in order.
pub open spec fn verified_members(ms: Seq<MemberView>, verified: u64) -> Seq<MemberView>
    decreases ms.len(),
{
    if ms.len() == 0 {
        Seq::empty()
    } else {
        let rest = verified_members(ms.drop_last(), verified);
        if ms.last().roles.contains(verified) {
            rest.push(ms.last())
        } else {
            rest
        }
    }
}

/// Keeps the members with the verified role.
pub fn filter_verified(members: Vec<Member>, verified: u64) -> (r: Vec<Member>)
    ensures
        r@.map_values(|m: Member| m@) == verified_members(members@.map_values(|m: Member| m@), verified),
{
    let ghost mv = members@.map_values(|m: Member| m@);
    let n = members.len();
    let mut members = members;
    let mut out: Vec<Member> = Vec::new();
    let mut rest: Vec<Member> = Vec::new();
    // Take the members from the back, then put the kept ones back in order.
    let mut i: usize = n;
    proof {
        assert(mv.take(n as int) =~= mv);
        assert(verified_members(mv, verified) + rest@.reverse().map_values(|m: Member| m@) =~= verified_members(mv, verified));
    }
    while i > 0
        invariant
            i <= n,
            members@.len() == i,
            members@.map_values(|m: Member| m@) == mv.take(i as int),
            mv.len() == n,
            verified_members(mv, verified) == verified_members(mv.take(i as int), verified) + rest@.reverse().map_values(|m: Member| m@),
        decreases i,
    {
        let m = members.pop().unwrap();
        assert(mv.take(i as int).drop_last() =~= mv.take(i - 1));
        assert(mv.take(i as int).last() == m@);
        if contains_u64(&m.roles, verified) {
            proof {
                assert(rest@.push(m).reverse() =~= seq![m].add(rest@.reverse()));
                assert(seq![m].add(rest@.reverse()).map_values(|x: Member| x@) =~= seq![m@].add(rest@.reverse().map_values(|x: Member| x@)));
            }
            rest.push(m);
        }
        i = i - 1;
        proof {
            assert(members@.map_values(|x: Member| x@) =~= mv.take(i as int));
        }
    }
    assert(mv.take(0) =~= Seq::<MemberView>::empty());
    let k = rest.len();
    let mut j: usize = 0;
    while j < k
        invariant
            j <= k,
            k == rest@.len() + j,
            out@.map_values(|m: Member| m@) + rest@.reverse().map_values(|m: Member| m@) == verified_members(mv, verified),
        decreases k - j,
    {
        let ghost before = rest@;
        let m = rest.pop().unwrap();
        proof {
            assert(before.reverse() =~= seq![m].add(rest@.reverse()));
            assert(out@.push(m).map_values(|x: Member| x@) =~= out@.map_values(|x: Member| x@).push(m@));
            assert(seq![m].add(rest@.reverse()).map_values(|x: Member| x@) =~= seq![m@].add(rest@.reverse().map_values(|x: Member| x@)));
        }
        out.push(m);
        j = j + 1;
    }
    assert(rest@.reverse() =~= Seq::<Member>::empty());
    assert(out@.map_values(|m: Member| m@) + Seq::<Member>::empty().map_values(|m: Member| m@) =~= out@.map_values(|m: Member| m@));
    out
}

/// The name under which a member is looked up: the nickname, else the
/// global name, else the username.
pub open spec fn potential_ign(m: MemberView) -> Seq<char> {
    match m.nick {
        Some(n) => n,
        None => match m.global_name {
            Some(g) => g,
            None => m.user_name,
        },
    }
}

/// How a span of `secs` whole seconds is written.
pub open spec fn duration_text(secs: nat) -> Seq<char> {
    if secs == 0 {
        "0ns"@
    } else {
        decimal(secs) + "s"@
    }
}

/// The text that announces how many members will be looked at.
pub open spec fn announcement_text(n: nat) -> Seq<char> {
    "There are "@ + decimal(n) + " members with the verified role.\n**Approximate time needed:** `"@
        + duration_text((DELAY_SECS * n) as nat) + "`."@
}

/// The text that sums up a finished run.
pub open spec fn summary_text(already: nat, successful: nat, total: nat) -> Seq<char> {
    "**Already linked:** `"@ + decimal(already) + "`\n**Successful:** `"@ + decimal(successful)
        + "`\n**Failed:** `"@ + decimal((total - successful - already) as nat) + "`\n**Total:** `"@
        + decimal(total) + "`"@
}

/// The text shown where a member's id is too high for the database.
pub open spec fn id_too_high_text(id: u64) -> Seq<char> {
    "An user id is too high: <@"@ + decimal(id as nat) + "> (`"@ + decimal(id as nat) + "`)."@
}

/// The text shown where looking up a member's account failed.
pub open spec fn uuid_failed_text(id: i64) -> Seq<char> {
    "Error while fetching minecraft UUID of user <@"@ + signed_decimal(id as int) + "> (`"@
        + signed_decimal(id as int) + "`)."@
}

/// The text shown where looking up the Discord account on Hypixel failed.
pub open spec fn discord_failed_text(id: i64) -> Seq<char> {
    "Error while fetching linked username of user <@"@ + signed_decimal(id as int) + "> (`"@
        + signed_decimal(id as int) + "`)."@
}

/// The text shown where storing a member's link failed.
pub open spec fn insert_failed_text(id: i64) -> Seq<char> {
    "Error while inserting data in database for user <@"@ + signed_decimal(id as int) + "> (`"@
        + signed_decimal(id as int) + "`)"@
}

/// The text shown where the members could not be fetched.
pub open spec fn fetch_failed_text() -> Seq<char> {
    "Failed to fetch guild members."@
}

/// Where a run of `masslink` stands.
pub enum MassLinkStage {
    /// Waiting for the announcement to be sent.
    Announce,
    /// Waiting for the current member's stored link.
    AwaitLinked,
    /// Waiting before the current member is looked up.
    AwaitSleep,
    /// Waiting for the Minecraft account of the current member's name.
    AwaitAccount,
    /// Waiting for the Discord account linked on Hypixel to that account.
    AwaitDiscord,
    /// Waiting for the current member's link to be stored.
    AwaitInsert,
    /// Finished.
    Finished,
}

/// What a run of `masslink` asks for next.
pub enum MassLinkAction {
    /// Answer the command with this.
    Reply(CommandResponseBuilder),
    /// Look up the stored link of this user.
    FetchLinked(i64),
    /// Wait this many seconds.
    Sleep(u64),
    /// Look up the Minecraft account with this name.
    FetchAccount(String),
    /// Look up the Discord account linked on Hypixel to this UUID.
    FetchDiscord(String),
    /// Store this link.
    Insert { user_id: i64, ign: String, uuid: String },
    /// Finished: follow up with the summary, or end with the error.
    Finish(Result<CommandResponseBuilder, CommandError>),
}

/// What came back from the last action.
pub enum MassLinkEvent {
    /// The answer was sent, or not.
    Replied(Result<(), CommandError>),
    /// The stored link of the current member, if any.
    Linked(Result<Option<User>, DatabaseError>),
    /// The wait is over.
    Slept,
    /// The Minecraft account looked up.
    Account(Result<UserIdResponse, MinecraftUserRequestError>),
    /// The Discord account linked on Hypixel.
    Discord(Result<String, LinkedDiscordRequestError>),
    /// How many rows were stored.
    Inserted(Result<usize, DatabaseError>),
}

/// A run of `masslink`: the members with the verified role, the index of
/// the current one, and how many were linked already or are linked now.
pub struct MassLinkFlow {
    pub members: Vec<Member>,
    pub index: usize,
    pub already: usize,
    pub successful: usize,
    /// The database id of the current member.
    pub user_id: i64,
    /// The Minecraft account found for the current member, once known.
    pub name: String,
    pub uuid: String,
    pub stage: MassLinkStage,
}

impl MassLinkFlow {
    /// The members as values.
    pub open spec fn members_view(&self) -> Seq<MemberView> {
        self.members@.map_values(|m: Member| m@)
    }

    /// What every run keeps: the counts never pass the members looked at,
    /// and while a member is worked on, it is the current one and its id
    /// fits the database.
    pub open spec fn wf(&self) -> bool {
        &&& self.index <= self.members@.len()
        &&& self.already + self.successful <= self.index
        &&& (self.stage is AwaitLinked || self.stage is AwaitSleep || self.stage is AwaitAccount
            || self.stage is AwaitDiscord || self.stage is AwaitInsert) ==> {
            &&& self.index < self.members@.len()
            &&& self.members@[self.index as int].user_id <= i64::MAX
            &&& self.user_id == self.members@[self.index as int].user_id as i64
        }
        &&& self.stage is Announce ==> self.index == 0 && self.already == 0 && self.successful == 0
    }

    /// Whether `ev` is what the current stage waits for.
    pub open spec fn expects(&self, ev: MassLinkEvent) -> bool {
        match self.stage {
            MassLinkStage::Announce => ev is Replied,
            MassLinkStage::AwaitLinked => ev is Linked,
            MassLinkStage::AwaitSleep => ev is Slept,
            MassLinkStage::AwaitAccount => ev is Account,
            MassLinkStage::AwaitDiscord => ev is Discord,
            MassLinkStage::AwaitInsert => ev is Inserted,
            MassLinkStage::Finished => false,
        }
    }

    /// Whether `self`, with the action `a`, is the run moved on to the
    /// member at `index`: the summary once all are done, an error for an id
    /// the database cannot store, else the lookup of that member's link.
    pub open spec fn moved_to(&self, a: MassLinkAction, index: int) -> bool {
        let n = self.members@.len();
        &&& self.index == index
        &&& if index >= n {
            &&& self.stage is Finished
            &&& a matches MassLinkAction::Finish(Ok(b))
            &&& b@ == embeds_response(seq![plain_embed(Some("Masslink complete"@), Some(summary_text(self.already as nat, self.successful as nat, n)))])
        } else if self.members@[index as int].user_id > i64::MAX {
            &&& self.stage is Finished
            &&& a matches MassLinkAction::Finish(Err(e))
            &&& e@ == CommandErrorView::Specific(id_too_high_text(self.members@[index as int].user_id))
        } else {
            &&& self.stage is AwaitLinked
            &&& self.user_id == self.members@[index as int].user_id as i64
            &&& a == MassLinkAction::FetchLinked(self.members@[index as int].user_id as i64)
        }
    }

    /// Starts a run on the guild's members, or on the failure to fetch them:
    /// announces how many members have the verified role and about how long
    /// the run takes.
    pub fn start(fetched: Result<Vec<Member>, GetGuildMembersError>, verified: u64) -> (r: (MassLinkFlow, MassLinkAction))
        ensures
            r.0.wf(),
            fetched is Err ==> r.0.stage is Finished
                && (r.1 matches MassLinkAction::Finish(Err(e)) && e@ == CommandErrorView::Specific(fetch_failed_text())),
            fetched matches Ok(ms) ==> {
                let kept = verified_members(ms@.map_values(|m: Member| m@), verified);
                &&& r.0.members_view() == kept
                &&& if kept.len() > u32::MAX {
                    r.0.stage is Finished && (r.1 matches MassLinkAction::Finish(Err(e)) && e@ == CommandErrorView::Generic)
                } else {
                    &&& r.0.stage is Announce
                    &&& r.1 matches MassLinkAction::Reply(b)
                    &&& b@ == embeds_response(seq![plain_embed(Some("Masslink"@), Some(announcement_text(kept.len())))])
                }
            },
    {
        let members = match fetched {
            Ok(ms) => filter_verified(ms, verified),
            Err(_) => {
                return (
                    MassLinkFlow {
                        members: Vec::new(),
                        index: 0,
                        already: 0,
                        successful: 0,
                        user_id: 0,
                        name: String::new(),
                        uuid: String::new(),
                        stage: MassLinkStage::Finished,
                    },
                    MassLinkAction::Finish(Err(CommandError::Specific(owned("Failed to fetch guild members.")))),
                );
            },
        };
        let n = members.len();
        let mut flow = MassLinkFlow {
            members,
            index: 0,
            already: 0,
            successful: 0,
            user_id: 0,
            name: String::new(),
            uuid: String::new(),
            stage: MassLinkStage::Finished,
        };
        if n > 4294967295usize {
            return (flow, MassLinkAction::Finish(Err(CommandError::Generic)));
        }
        let mut m = owned("There are ");
        write_u64(&mut m, n as u64);
        append_str(&mut m, " members with the verified role.\n**Approximate time needed:** `");
        let secs: u64 = 10 * (n as u64);
        if secs == 0 {
            append_str(&mut m, "0ns");
        } else {
            write_u64(&mut m, secs);
            append_str(&mut m, "s");
        }
        append_str(&mut m, "`.");
        proof {
            if secs == 0 {
                assert(m@ =~= announcement_text(n as nat));
            } else {
                assert(m@ =~= announcement_text(n as nat));
            }
        }
        flow.stage = MassLinkStage::Announce;
        (flow, MassLinkAction::Reply(CommandResponseBuilder::new().etd(owned("Masslink"), m)))
    }

    /// Moves on to the member at `self.index`.
    fn advance(&mut self) -> (a: MassLinkAction)
        requires
            old(self).index <= old(self).members@.len(),
            old(self).already + old(self).successful <= old(self).index,
        ensures
            final(self).wf(),
            final(self).moved_to(a, old(self).index as int),
            final(self).members == old(self).members,
            final(self).already == old(self).already,
            final(self).successful == old(self).successful,
    {
        let n = self.members.len();
        if self.index >= n {
            self.stage = MassLinkStage::Finished;
            let total = n;
            let failed = total - self.successful - self.already;
            let mut m = owned("**Already linked:** `");
            write_u64(&mut m, self.already as u64);
            append_str(&mut m, "`\n**Successful:** `");
            write_u64(&mut m, self.successful as u64);
            append_str(&mut m, "`\n**Failed:** `");
            write_u64(&mut m, failed as u64);
            append_str(&mut m, "`\n**Total:** `");
            write_u64(&mut m, total as u64);
            append_str(&mut m, "`");
            return MassLinkAction::Finish(Ok(CommandResponseBuilder::new().etd(owned("Masslink complete"), m)));
        }
        let id = self.members[self.index].user_id;
        if id > 9223372036854775807u64 {
            self.stage = MassLinkStage::Finished;
            let mut m = owned("An user id is too high: <@");
            write_u64(&mut m, id);
            append_str(&mut m, "> (`");
            write_u64(&mut m, id);
            append_str(&mut m, "`).");
            return MassLinkAction::Finish(Err(CommandError::Specific(m)));
        }
        self.user_id = id as i64;
        self.stage = MassLinkStage::AwaitLinked;
        MassLinkAction::FetchLinked(id as i64)
    }

    /// Leaves the current member and moves on to the next one.
    fn skip(&mut self) -> (a: MassLinkAction)
        requires
            old(self).index < old(self).members@.len(),
            old(self).already + old(self).successful <= old(self).index + 1,
        ensures
            final(self).wf(),
            final(self).moved_to(a, old(self).index + 1),
            final(self).members == old(self).members,
            final(self).already == old(self).already,
            final(self).successful == old(self).successful,
    {
        let n = self.members.len();
        assert(self.index < n);
        self.index = self.index + 1;
        self.advance()
    }

    /// Takes in what the last action gave back, and says what comes next.
    pub fn step(&mut self, ev: MassLinkEvent) -> (a: MassLinkAction)
        requires
            old(self).wf(),
            old(self).expects(ev),
        ensures
            final(self).wf(),
            final(self).members == old(self).members,
            match ev {
                MassLinkEvent::Replied(Err(e)) => final(self).stage is Finished
                    && a == MassLinkAction::Finish(Err(e)),
                MassLinkEvent::Replied(Ok(())) => final(self).moved_to(a, 0),
                MassLinkEvent::Linked(Err(_)) => final(self).stage is Finished
                    && (a matches MassLinkAction::Finish(Err(e)) && e@ == CommandErrorView::Generic),
                MassLinkEvent::Linked(Ok(Some(_))) => final(self).already == old(self).already + 1
                    && final(self).successful == old(self).successful
                    && final(self).moved_to(a, old(self).index + 1),
                MassLinkEvent::Linked(Ok(None)) => final(self).stage is AwaitSleep
                    && final(self).index == old(self).index
                    && a == MassLinkAction::Sleep(DELAY_SECS),
                MassLinkEvent::Slept => final(self).stage is AwaitAccount
                    && final(self).index == old(self).index
                    && (a matches MassLinkAction::FetchAccount(n)
                        && n@ == potential_ign(old(self).members_view()[old(self).index as int])),
                MassLinkEvent::Account(Err(MinecraftUserRequestError::InvalidName))
                | MassLinkEvent::Account(Err(MinecraftUserRequestError::UserNotFound)) =>
                    final(self).already == old(self).already && final(self).successful == old(self).successful
                    && final(self).moved_to(a, old(self).index + 1),
                MassLinkEvent::Account(Err(_)) => final(self).stage is Finished
                    && (a matches MassLinkAction::Finish(Err(e))
                        && e@ == CommandErrorView::Specific(uuid_failed_text(old(self).user_id))),
                MassLinkEvent::Account(Ok(acc)) => final(self).stage is AwaitDiscord
                    && final(self).index == old(self).index
                    && final(self).name@ == acc.name@ && final(self).uuid@ == acc.id@
                    && (a matches MassLinkAction::FetchDiscord(u) && u@ == acc.id@),
                MassLinkEvent::Discord(Err(LinkedDiscordRequestError::UserNotFound))
                | MassLinkEvent::Discord(Err(LinkedDiscordRequestError::UserNotLinked)) =>
                    final(self).already == old(self).already && final(self).successful == old(self).successful
                    && final(self).moved_to(a, old(self).index + 1),
                MassLinkEvent::Discord(Err(_)) => final(self).stage is Finished
                    && (a matches MassLinkAction::Finish(Err(e))
                        && e@ == CommandErrorView::Specific(discord_failed_text(old(self).user_id))),
                MassLinkEvent::Discord(Ok(d)) => if d@ == old(self).members_view()[old(self).index as int].user_name {
                    &&& final(self).stage is AwaitInsert
                    &&& final(self).index == old(self).index
                    &&& a matches MassLinkAction::Insert { user_id, ign, uuid }
                    &&& user_id == old(self).user_id
                    &&& ign@ == old(self).name@
                    &&& uuid@ == old(self).uuid@
                } else {
                    final(self).already == old(self).already && final(self).successful == old(self).successful
                        && final(self).moved_to(a, old(self).index + 1)
                },
                MassLinkEvent::Inserted(Err(_)) => final(self).stage is Finished
                    && (a matches MassLinkAction::Finish(Err(e)) && e@ == CommandErrorView::Generic),
                MassLinkEvent::Inserted(Ok(n)) => if n == 1 {
                    final(self).already == old(self).already && final(self).successful == old(self).successful + 1
                        && final(self).moved_to(a, old(self).index + 1)
                } else {
                    final(self).stage is Finished
                        && (a matches MassLinkAction::Finish(Err(e))
                            && e@ == CommandErrorView::Specific(insert_failed_text(old(self).user_id)))
                },
            },
    {
        match ev {
            MassLinkEvent::Replied(Err(e)) => {
                self.stage = MassLinkStage::Finished;
                MassLinkAction::Finish(Err(e))
            },
            MassLinkEvent::Replied(Ok(())) => self.advance(),
            MassLinkEvent::Linked(Err(_)) => {
                self.stage = MassLinkStage::Finished;
                MassLinkAction::Finish(Err(CommandError::Generic))
            },
            MassLinkEvent::Linked(Ok(Some(_))) => {
                let n = self.members.len();
                assert(self.already < n);
                self.already = self.already + 1;
                self.skip()
            },
            MassLinkEvent::Linked(Ok(None)) => {
                self.stage = MassLinkStage::AwaitSleep;
                MassLinkAction::Sleep(DELAY_SECS)
            },
            MassLinkEvent::Slept => {
                self.stage = MassLinkStage::AwaitAccount;
                let m = &self.members[self.index];
                let name = match &m.nick {
                    Some(n) => n.clone(),
                    None => match &m.global_name {
                        Some(g) => g.clone(),
                        None => m.user_name.clone(),
                    },
                };
                MassLinkAction::FetchAccount(name)
            },
            MassLinkEvent::Account(Err(err)) => match err {
                MinecraftUserRequestError::InvalidName | MinecraftUserRequestError::UserNotFound => {
                    self.skip()
                },
                _ => {
                    self.stage = MassLinkStage::Finished;
                    let mut m = owned("Error while fetching minecraft UUID of user <@");
                    write_i64(&mut m, self.user_id);
                    append_str(&mut m, "> (`");
                    write_i64(&mut m, self.user_id);
                    append_str(&mut m, "`).");
                    MassLinkAction::Finish(Err(CommandError::Specific(m)))
                },
            },
            MassLinkEvent::Account(Ok(acc)) => {
                let UserIdResponse { id, name } = acc;
                self.stage = MassLinkStage::AwaitDiscord;
                let u = id.clone();
                self.name = name;
                self.uuid = id;
                MassLinkAction::FetchDiscord(u)
            },
            MassLinkEvent::Discord(Err(err)) => match err {
                LinkedDiscordRequestError::UserNotFound | LinkedDiscordRequestError::UserNotLinked => {
                    self.skip()
                },
                _ => {
                    self.stage = MassLinkStage::Finished;
                    let mut m = owned("Error while fetching linked username of user <@");
                    write_i64(&mut m, self.user_id);
                    append_str(&mut m, "> (`");
                    write_i64(&mut m, self.user_id);
                    append_str(&mut m, "`).");
                    MassLinkAction::Finish(Err(CommandError::Specific(m)))
                },
            },
            MassLinkEvent::Discord(Ok(d)) => {
                if text_eq(d.as_str(), self.members[self.index].user_name.as_str()) {
                    self.stage = MassLinkStage::AwaitInsert;
                    MassLinkAction::Insert { user_id: self.user_id, ign: self.name.clone(), uuid: self.uuid.clone() }
                } else {
                    self.skip()
                }
            },
            MassLinkEvent::Inserted(Err(_)) => {
                self.stage = MassLinkStage::Finished;
                MassLinkAction::Finish(Err(CommandError::Generic))
            },
            MassLinkEvent::Inserted(Ok(n)) => {
                if n == 1 {
                    let n = self.members.len();
                    assert(self.successful < n);
                    self.successful = self.successful + 1;
                    self.skip()
                } else {
                    self.stage = MassLinkStage::Finished;
                    let mut m = owned("Error while inserting data in database for user <@");
                    write_i64(&mut m, self.user_id);
                    append_str(&mut m, "> (`");
                    write_i64(&mut m, self.user_id);
                    append_str(&mut m, "`)");
                    MassLinkAction::Finish(Err(CommandError::Specific(m)))
                }
            },
        }
    }
}


/// The name a member is looked up under is the first it shows of its
/// nickname, its global name and its username.
pub proof fn law_lookup_name_is_shown_name(m: MemberView)
    ensures
        m.nick matches Some(n) ==> potential_ign(m) == n,
        m.nick is None ==> (m.global_name matches Some(g) ==> potential_ign(m) == g),
        (m.nick is None && m.global_name is None) ==> potential_ign(m) == m.user_name,
{
}

} // verus!
