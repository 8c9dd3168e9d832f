//! Per-user cooldowns of a command. Times are nanoseconds on a monotonic clock.
use vstd::prelude::*;

verus! {

/// The map that a list of (user, expiry) pairs stands for; a later pair for
/// the same user wins.
pub open spec fn map_of(s: Seq<(u64, u64)>) -> Map<u64, u64>
    decreases s.len(),
{
    if s.len() == 0 {
        Map::empty()
    } else {
        map_of(s.drop_last()).insert(s.last().0, s.last().1)
    }
}

/// No user occurs twice.
pub open spec fn unique_users(s: Seq<(u64, u64)>) -> bool {
    forall|i: int, j: int| 0 <= i < j < s.len() ==> #[trigger] s[i].0 != #[trigger] s[j].0
}

/// The entries of `m` that have not expired at time `now`.
pub open spec fn live_at(m: Map<u64, u64>, now: u64) -> Map<u64, u64> {
    Map::new(|k: u64| m.contains_key(k) && now < m[k], |k: u64| m[k])
}

/// The outcome of a cooldown check by `user` on the map `m` of expiries: the
/// map after it and, where the user is still on cooldown at `t_check`, the
/// time left. A user who is not on cooldown is let through: the expired
/// entries are dropped at `t_clean`, and the user's cooldown runs from
/// `t_add` for `duration`.
pub open spec fn check_outcome(m: Map<u64, u64>, duration: u64, user: u64, t_check: u64, t_clean: u64, t_add: u64) -> (Map<u64, u64>, Option<u64>) {
    if m.contains_key(user) && t_check < m[user] {
        (m, Some((m[user] - t_check) as u64))
    } else {
        (live_at(m, t_clean).insert(user, (t_add + duration) as u64), None)
    }
}

/// The cooldown of one command: when each user may run it again.
pub struct CommandCooldown {
    entries: Vec<(u64, u64)>,
    duration: u64,
}

proof fn lemma_map_of_absent(s: Seq<(u64, u64)>, k: u64)
    requires
        forall|i: int| 0 <= i < s.len() ==> #[trigger] s[i].0 != k,
    ensures
        !map_of(s).contains_key(k),
    decreases s.len(),
{
    if s.len() > 0 {
        lemma_map_of_absent(s.drop_last(), k);
    }
}

proof fn lemma_map_of_at(s: Seq<(u64, u64)>, i: int)
    requires
        unique_users(s),
        0 <= i < s.len(),
    ensures
        map_of(s).contains_key(s[i].0),
        map_of(s)[s[i].0] == s[i].1,
    decreases s.len(),
{
    if i < s.len() - 1 {
        lemma_map_of_at(s.drop_last(), i);
    }
}

proof fn lemma_map_of_keys(s: Seq<(u64, u64)>, k: u64)
    requires
        map_of(s).contains_key(k),
    ensures
        exists|i: int| 0 <= i < s.len() && #[trigger] s[i].0 == k,
    decreases s.len(),
{
    if s.last().0 != k {
        lemma_map_of_keys(s.drop_last(), k);
        let i = choose|i: int| 0 <= i < s.len() - 1 && #[trigger] s.drop_last()[i].0 == k;
        assert(s[i].0 == k);
    }
}

impl CommandCooldown {
    /// The map from each user to the time at which the user's cooldown ends.
    pub closed spec fn expiries(&self) -> Map<u64, u64> {
        map_of(self.entries@)
    }

    /// How long the command stays on cooldown after a use.
    pub closed spec fn period(&self) -> u64 {
        self.duration
    }

    /// The invariant: each user has one entry at most.
    pub closed spec fn wf(&self) -> bool {
        unique_users(self.entries@)
    }

    /// A cooldown of `duration` with no user on it.
    pub fn new(duration: u64) -> (c: Self)
        ensures
            c.wf(),
            c.expiries() == Map::<u64, u64>::empty(),
            c.period() == duration,
    {
        CommandCooldown { entries: Vec::new(), duration }
    }

    /// The time at which `user`'s cooldown ends, if the user has one.
    fn lookup(&self, user: u64) -> (r: Option<u64>)
        requires
            self.wf(),
        ensures
            r == (if self.expiries().contains_key(user) {
                Some(self.expiries()[user])
            } else {
                None
            }),
    {
        let n = self.entries.len();
        let mut i: usize = 0;
        while i < n
            invariant
                n == self.entries@.len(),
                unique_users(self.entries@),
                i <= n,
                forall|j: int| 0 <= j < i ==> #[trigger] self.entries@[j].0 != user,
            decreases n - i,
        {
            if self.entries[i].0 == user {
                proof {
                    lemma_map_of_at(self.entries@, i as int);
                }
                return Some(self.entries[i].1);
            }
            i = i + 1;
        }
        proof {
            lemma_map_of_absent(self.entries@, user);
        }
        None
    }

    /// Drops the entries that have expired at `now`.
    fn clean(&mut self, now: u64)
        requires
            old(self).wf(),
        ensures
            final(self).wf(),
            final(self).expiries() == live_at(old(self).expiries(), now),
            final(self).period() == old(self).period(),
    {
        let ghost s = self.entries@;
        let mut kept: Vec<(u64, u64)> = Vec::new();
        let n = self.entries.len();
        let mut i: usize = 0;
        while i < n
            invariant
                s == self.entries@,
                unique_users(s),
                n == s.len(),
                i <= n,
                unique_users(kept@),
                forall|a: int| 0 <= a < kept@.len() ==> exists|b: int| 0 <= b < i && #[trigger] kept@[a] == #[trigger] s[b],
                map_of(kept@) == live_at(map_of(s.take(i as int)), now),
            decreases n - i,
        {
            let e = self.entries[i];
            let ghost prev = kept@;
            assert(s.take(i + 1).drop_last() =~= s.take(i as int));
            assert(s.take(i + 1).last() == e);
            proof {
                // `e`'s user has no entry among the first `i`.
                assert forall|b: int| 0 <= b < i implies #[trigger] s.take(i as int)[b].0 != e.0 by {
                    assert(s[b].0 != s[i as int].0);
                }
                lemma_map_of_absent(s.take(i as int), e.0);
            }
            if now < e.1 {
                kept.push(e);
                proof {
                    assert forall|a: int, c: int| 0 <= a < c < kept@.len() implies #[trigger] kept@[a].0 != #[trigger] kept@[c].0 by {
                        if c == kept@.len() - 1 {
                            let b = choose|b: int| 0 <= b < i && #[trigger] prev[a] == #[trigger] s[b];
                            assert(kept@[a] == prev[a]);
                            assert(s[b].0 != s[i as int].0);
                        } else {
                            assert(kept@[a] == prev[a] && kept@[c] == prev[c]);
                        }
                    }
                    assert forall|a: int| 0 <= a < kept@.len() implies exists|b: int| 0 <= b < i + 1 && #[trigger] kept@[a] == #[trigger] s[b] by {
                        if a == kept@.len() - 1 {
                            assert(kept@[a] == s[i as int]);
                        } else {
                            assert(kept@[a] == prev[a]);
                            let b = choose|b: int| 0 <= b < i && #[trigger] prev[a] == #[trigger] s[b];
                            assert(kept@[a] == s[b]);
                        }
                    }
                    assert(kept@.drop_last() =~= prev);
                    assert(map_of(kept@) =~= live_at(map_of(s.take(i + 1)), now));
                }
            } else {
                proof {
                    assert(map_of(kept@) =~= live_at(map_of(s.take(i + 1)), now));
                }
            }
            i = i + 1;
        }
        assert(s.take(n as int) =~= s);
        self.entries = kept;
    }

    /// Gives `user` a cooldown that ends at `until`.
    fn set(&mut self, user: u64, until: u64)
        requires
            old(self).wf(),
        ensures
            final(self).wf(),
            final(self).expiries() == old(self).expiries().insert(user, until),
            final(self).period() == old(self).period(),
    {
        let ghost s = self.entries@;
        let mut rest: Vec<(u64, u64)> = Vec::new();
        let n = self.entries.len();
        let mut i: usize = 0;
        while i < n
            invariant
                s == self.entries@,
                unique_users(s),
                n == s.len(),
                i <= n,
                unique_users(rest@),
                forall|a: int| 0 <= a < rest@.len() ==> #[trigger] rest@[a].0 != user,
                forall|a: int| 0 <= a < rest@.len() ==> exists|b: int| 0 <= b < i && #[trigger] rest@[a] == #[trigger] s[b],
                map_of(rest@) == map_of(s.take(i as int)).remove(user),
            decreases n - i,
        {
            let e = self.entries[i];
            let ghost prev = rest@;
            assert(s.take(i + 1).drop_last() =~= s.take(i as int));
            assert(s.take(i + 1).last() == e);
            if e.0 != user {
                rest.push(e);
                proof {
                    assert forall|a: int, c: int| 0 <= a < c < rest@.len() implies #[trigger] rest@[a].0 != #[trigger] rest@[c].0 by {
                        if c == rest@.len() - 1 {
                            let b = choose|b: int| 0 <= b < i && #[trigger] prev[a] == #[trigger] s[b];
                            assert(rest@[a] == prev[a]);
                            assert(s[b].0 != s[i as int].0);
                        } else {
                            assert(rest@[a] == prev[a] && rest@[c] == prev[c]);
                        }
                    }
                    assert forall|a: int| 0 <= a < rest@.len() implies exists|b: int| 0 <= b < i + 1 && #[trigger] rest@[a] == #[trigger] s[b] by {
                        if a == rest@.len() - 1 {
                            assert(rest@[a] == s[i as int]);
                        } else {
                            assert(rest@[a] == prev[a]);
                            let b = choose|b: int| 0 <= b < i && #[trigger] prev[a] == #[trigger] s[b];
                            assert(rest@[a] == s[b]);
                        }
                    }
                    assert(rest@.drop_last() =~= prev);
                    assert(map_of(rest@) =~= map_of(s.take(i + 1)).remove(user));
                }
            } else {
                proof {
                    assert(map_of(rest@) =~= map_of(s.take(i + 1)).remove(user));
                }
            }
            i = i + 1;
        }
        assert(s.take(n as int) =~= s);
        let ghost prev = rest@;
        rest.push((user, until));
        proof {
            assert(rest@.drop_last() =~= prev);
            assert forall|a: int, c: int| 0 <= a < c < rest@.len() implies #[trigger] rest@[a].0 != #[trigger] rest@[c].0 by {
                if c == rest@.len() - 1 {
                    assert(rest@[a] == prev[a]);
                } else {
                    assert(rest@[a] == prev[a] && rest@[c] == prev[c]);
                }
            }
            assert(map_of(rest@) =~= map_of(s).insert(user, until));
        }
        self.entries = rest;
    }

    /// Checks whether `user` may run the command. Where the user is still on
    /// cooldown at `t_check`, this gives the time left and changes nothing.
    /// Otherwise the user is let through: the expired entries are dropped at
    /// `t_clean` and the user's cooldown runs from `t_add`. The three times
    /// are readings of a monotonic clock, in that order.
    pub fn check(&mut self, user: u64, t_check: u64, t_clean: u64, t_add: u64) -> (r: Option<u64>)
        requires
            old(self).wf(),
            t_check <= t_clean <= t_add,
            t_add + old(self).period() <= u64::MAX,
        ensures
            final(self).wf(),
            final(self).period() == old(self).period(),
            (final(self).expiries(), r) == check_outcome(
                old(self).expiries(),
                old(self).period(),
                user,
                t_check,
                t_clean,
                t_add,
            ),
    {
        if let Some(time) = self.lookup(user) {
            if t_check < time {
                return Some(time - t_check);
            }
        }
        self.clean(t_clean);
        let until = t_add + self.duration;
        self.set(user, until);
        None
    }
}

/// A user let through is on cooldown right after: a second check before the
/// cooldown's period has passed since the first is refused with the time
/// left until its end.
pub proof fn law_cooldown_blocks_repeat(
    m: Map<u64, u64>,
    duration: u64,
    user: u64,
    t1: u64,
    t2: u64,
    t3: u64,
    u1: u64,
    u2: u64,
    u3: u64,
)
    requires
        check_outcome(m, duration, user, t1, t2, t3).1 is None,
        t3 + duration <= u64::MAX,
        u1 < t3 + duration,
    ensures
        check_outcome(check_outcome(m, duration, user, t1, t2, t3).0, duration, user, u1, u2, u3)
            == (check_outcome(m, duration, user, t1, t2, t3).0, Some((t3 + duration - u1) as u64)),
{
}

/// A refused check changes nothing, and the time it gives is the time left
/// until the user's cooldown ends.
pub proof fn law_refused_check_changes_nothing(
    m: Map<u64, u64>,
    duration: u64,
    user: u64,
    t1: u64,
    t2: u64,
    t3: u64,
)
    requires
        check_outcome(m, duration, user, t1, t2, t3).1 is Some,
    ensures
        check_outcome(m, duration, user, t1, t2, t3).0 == m,
        m.contains_key(user),
        t1 + check_outcome(m, duration, user, t1, t2, t3).1->0 == m[user],
{
}

/// Once a user's cooldown has ended, the next check lets the user through.
pub proof fn law_cooldown_ends(
    m: Map<u64, u64>,
    duration: u64,
    user: u64,
    t1: u64,
    t2: u64,
    t3: u64,
)
    requires
        m.contains_key(user) ==> m[user] <= t1,
    ensures
        check_outcome(m, duration, user, t1, t2, t3).1 is None,
{
}


/// A user is let through exactly when it has no cooldown that lasts past
/// the time of the check.
pub proof fn law_check_passes_iff_no_running_cooldown(
    m: Map<u64, u64>,
    duration: u64,
    user: u64,
    t1: u64,
    t2: u64,
    t3: u64,
)
    ensures
        check_outcome(m, duration, user, t1, t2, t3).1 is None <==> !(m.contains_key(user) && t1 < m[user]),
{
}

/// A check that lets `user` through starts the user's cooldown, drops the
/// other users' entries that have expired at the time of the cleaning, and
/// keeps every other entry as it was.
pub proof fn law_pass_keeps_other_users(
    m: Map<u64, u64>,
    duration: u64,
    user: u64,
    t1: u64,
    t2: u64,
    t3: u64,
)
    requires
        check_outcome(m, duration, user, t1, t2, t3).1 is None,
        t3 + duration <= u64::MAX,
    ensures
        check_outcome(m, duration, user, t1, t2, t3).0.contains_key(user),
        check_outcome(m, duration, user, t1, t2, t3).0[user] == t3 + duration,
        forall|k: u64|
            k != user ==> (#[trigger] check_outcome(m, duration, user, t1, t2, t3).0.contains_key(k)
                <==> (m.contains_key(k) && t2 < m[k])),
        forall|k: u64|
            k != user && #[trigger] check_outcome(m, duration, user, t1, t2, t3).0.contains_key(k)
                ==> check_outcome(m, duration, user, t1, t2, t3).0[k] == m[k],
{
}

} // verus!
