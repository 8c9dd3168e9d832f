//! The bot's configuration.
use vstd::prelude::*;
use crate::text::text_eq;

verus! {

/// The bot's configuration.
pub struct BotConfig {
    pub token: String,
    pub database_url: String,
    pub api_key: String,
    pub guild_id: u64,
    pub verified_role_id: u64,
    pub nick_bypass_role: u64,
    pub notification_channel: u64,
    pub notification_mention: String,
    pub no_permission: u64,
    pub guilds: Vec<BotConfigGuild>,
}

/// A Hypixel guild whose members get roles: its name, the role of its
/// members, and the role of each of its ranks.
pub struct BotConfigGuild {
    pub name: String,
    pub role: u64,
    /// The role of each rank, by the rank's name. No name occurs twice.
    pub ranks: Vec<(String, u64)>,
}

/// The role of the rank named `rank`.
pub open spec fn rank_role(ranks: Seq<(String, u64)>, rank: Seq<char>) -> Option<u64>
    decreases ranks.len(),
{
    if ranks.len() == 0 {
        None
    } else if ranks[0].0@ == rank {
        Some(ranks[0].1)
    } else {
        rank_role(ranks.drop_first(), rank)
    }
}

/// The roles of all the ranks.
pub open spec fn rank_roles(ranks: Seq<(String, u64)>) -> Seq<u64> {
    ranks.map_values(|r: (String, u64)| r.1)
}

impl BotConfigGuild {
    /// No rank name occurs twice.
    pub open spec fn wf(&self) -> bool {
        forall|i: int, j: int| 0 <= i < j < self.ranks@.len() ==> #[trigger] self.ranks@[i].0@ != #[trigger] self.ranks@[j].0@
    }

    /// The role of the rank named `rank`.
    pub fn rank_role(&self, rank: &str) -> (r: Option<u64>)
        ensures
            r == rank_role(self.ranks@, rank@),
    {
        let n = self.ranks.len();
        let mut i: usize = 0;
        assert(self.ranks@.skip(0) =~= self.ranks@);
        while i < n
            invariant
                n == self.ranks@.len(),
                i <= n,
                rank_role(self.ranks@.skip(i as int), rank@) == rank_role(self.ranks@, rank@),
            decreases n - i,
        {
            let ghost rest = self.ranks@.skip(i as int);
            assert(rest[0] == self.ranks@[i as int]);
            assert(rest.drop_first() =~= self.ranks@.skip(i + 1));
            if text_eq(self.ranks[i].0.as_str(), rank) {
                return Some(self.ranks[i].1);
            }
            i = i + 1;
        }
        None
    }

    /// The roles of all the ranks.
    pub fn rank_roles(&self) -> (r: Vec<u64>)
        ensures
            r@ == rank_roles(self.ranks@),
    {
        let n = self.ranks.len();
        let mut out: Vec<u64> = Vec::new();
        let mut i: usize = 0;
        while i < n
            invariant
                n == self.ranks@.len(),
                i <= n,
                out@ == rank_roles(self.ranks@.take(i as int)),
            decreases n - i,
        {
            out.push(self.ranks[i].1);
            assert(rank_roles(self.ranks@.take(i + 1)) =~= rank_roles(self.ranks@.take(i as int)).push(self.ranks@[i as int].1));
            i = i + 1;
        }
        assert(self.ranks@.take(n as int) =~= self.ranks@);
        out
    }
}

} // verus!
