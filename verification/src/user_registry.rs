//! Per-room registry of how many live sessions each user has. Join/leave
//! notifications are edge-triggered from these counts: only the transitions
//! 0 -> 1 (first session) and 1 -> 0 (last session) are externally visible.

use vstd::prelude::*;

verus! {

/// One user's live-session count within a room.
pub struct UserSessionCount {
    pub user_id: String,
    pub sessions: u64,
}

/// Sessions that `entries` gives to `user`: the sum of the counts of the
/// entries carrying that user id.
pub open spec fn count_in(entries: Seq<UserSessionCount>, user: Seq<char>) -> nat
    decreases entries.len(),
{
    if entries.len() == 0 {
        0
    } else {
        count_in(entries.drop_last(), user) + (if entries.last().user_id@ == user {
            entries.last().sessions as nat
        } else {
            0
        })
    }
}

/// Whether a user's join is announced: exactly when the user had no session
/// before it.
pub open spec fn emits_joined(sessions_before: nat) -> bool {
    sessions_before == 0
}

/// Whether a user's leave is announced: exactly when the leaving session was
/// the user's last one.
pub open spec fn emits_left(sessions_before: nat) -> bool {
    sessions_before == 1
}

/// Well-formed entries: one entry per user, and no entry for a user with no
/// session left.
pub open spec fn entries_wf(entries: Seq<UserSessionCount>) -> bool {
    &&& forall|i: int, j: int|
        0 <= i < j < entries.len() ==> entries[i].user_id@ != entries[j].user_id@
    &&& forall|i: int| 0 <= i < entries.len() ==> entries[i].sessions >= 1
}

proof fn lemma_count_absent(entries: Seq<UserSessionCount>, user: Seq<char>)
    requires
        forall|j: int| 0 <= j < entries.len() ==> entries[j].user_id@ != user,
    ensures
        count_in(entries, user) == 0,
    decreases entries.len(),
{
    if entries.len() > 0 {
        lemma_count_absent(entries.drop_last(), user);
    }
}

proof fn lemma_count_at(entries: Seq<UserSessionCount>, i: int, user: Seq<char>)
    requires
        0 <= i < entries.len(),
        entries[i].user_id@ == user,
        entries_wf(entries),
    ensures
        count_in(entries, user) == entries[i].sessions as nat,
    decreases entries.len(),
{
    if i == entries.len() - 1 {
        lemma_count_absent(entries.drop_last(), user);
    } else {
        lemma_count_at(entries.drop_last(), i, user);
    }
}

proof fn lemma_count_update(entries: Seq<UserSessionCount>, i: int, e: UserSessionCount, user: Seq<char>)
    requires
        0 <= i < entries.len(),
        e.user_id@ == entries[i].user_id@,
    ensures
        user != entries[i].user_id@ ==> count_in(entries.update(i, e), user) == count_in(
            entries,
            user,
        ),
        user == entries[i].user_id@ ==> count_in(entries.update(i, e), user)
            + entries[i].sessions as nat == count_in(entries, user) + e.sessions as nat,
    decreases entries.len(),
{
    let upd = entries.update(i, e);
    if i == entries.len() - 1 {
        assert(upd.drop_last() =~= entries.drop_last());
    } else {
        assert(upd.drop_last() =~= entries.drop_last().update(i, e));
        assert(upd.last() == entries.last());
        lemma_count_update(entries.drop_last(), i, e, user);
    }
}

proof fn lemma_count_remove(entries: Seq<UserSessionCount>, i: int, user: Seq<char>)
    requires
        0 <= i < entries.len(),
    ensures
        user != entries[i].user_id@ ==> count_in(entries.remove(i), user) == count_in(
            entries,
            user,
        ),
        user == entries[i].user_id@ ==> count_in(entries.remove(i), user)
            + entries[i].sessions as nat == count_in(entries, user),
    decreases entries.len(),
{
    let rem = entries.remove(i);
    if i == entries.len() - 1 {
        assert(rem =~= entries.drop_last());
    } else {
        assert(rem.drop_last() =~= entries.drop_last().remove(i));
        assert(rem.last() == entries.last());
        lemma_count_remove(entries.drop_last(), i, user);
    }
}

proof fn lemma_count_push(entries: Seq<UserSessionCount>, e: UserSessionCount, user: Seq<char>)
    ensures
        count_in(entries.push(e), user) == count_in(entries, user) + (if e.user_id@ == user {
            e.sessions as nat
        } else {
            0
        }),
{
    assert(entries.push(e).drop_last() =~= entries);
    assert(entries.push(e).last() == e);
}

proof fn lemma_count_pos(entries: Seq<UserSessionCount>, user: Seq<char>)
    requires
        count_in(entries, user) > 0,
    ensures
        exists|j: int| 0 <= j < entries.len() && entries[j].user_id@ == user,
    decreases entries.len(),
{
    if entries.len() > 0 {
        if entries.last().user_id@ == user {
            assert(entries[entries.len() - 1].user_id@ == user);
        } else {
            lemma_count_pos(entries.drop_last(), user);
            let j = choose|j: int|
                0 <= j < entries.drop_last().len() && entries.drop_last()[j].user_id@ == user;
            assert(entries[j].user_id@ == user);
        }
    }
}

proof fn lemma_wf_remove(entries: Seq<UserSessionCount>, i: int)
    requires
        0 <= i < entries.len(),
        entries_wf(entries),
    ensures
        entries_wf(entries.remove(i)),
{
    let rem = entries.remove(i);
    assert forall|k: int, l: int| 0 <= k < l < rem.len() implies rem[k].user_id@
        != rem[l].user_id@ by {
        assert(rem[k] == (if k < i { entries[k] } else { entries[k + 1] }));
        assert(rem[l] == (if l < i { entries[l] } else { entries[l + 1] }));
    }
    assert forall|k: int| 0 <= k < rem.len() implies rem[k].sessions >= 1 by {
        assert(rem[k] == (if k < i { entries[k] } else { entries[k + 1] }));
    }
}

/// Law: join/leave deduplication. A user's session counts move by one per
/// join or leave; `insert`/`remove` report exactly `emits_joined` /
/// `emits_left` of the count before the move, and a room hands a
/// participation event to its bus exactly under the same conditions (see the
/// `spec_sent` clauses of `ChatRoom::join` and `ChatRoom::leave`). So for a
/// user starting with no session who joins with two sessions and then leaves
/// both: the first join (count 0) is the only announced one, leaving one of
/// the two sessions (count 2) announces nothing, leaving the last (count 1)
/// announces the one `Left`, and a spurious further leave (count 0)
/// announces nothing.
pub proof fn lemma_join_leave_dedup()
    ensures
        emits_joined(0),
        !emits_joined(1),
        !emits_left(2),
        emits_left(1),
        !emits_left(0),
{
}

/// Tracks, for one room, which users are present and with how many sessions.
pub struct UserRegistry {
    entries: Vec<UserSessionCount>,
}

impl UserRegistry {
    /// The number of live sessions recorded for `user`.
    pub closed spec fn spec_count(&self, user: Seq<char>) -> nat {
        count_in(self.entries@, user)
    }

    /// Well-formed: one entry per user, and no entry for a user with no
    /// session left.
    pub closed spec fn wf(&self) -> bool {
        entries_wf(self.entries@)
    }

    pub fn new() -> (r: Self)
        ensures
            r.wf(),
            forall|u: Seq<char>| r.spec_count(u) == 0,
    {
        UserRegistry { entries: Vec::new() }
    }

    /// Records one more live session for `user_id` and reports whether it is
    /// the user's first one.
    pub fn insert(&mut self, user_id: &String) -> (first: bool)
        requires
            old(self).wf(),
            old(self).spec_count(user_id@) < u64::MAX,
        ensures
            final(self).wf(),
            first == emits_joined(old(self).spec_count(user_id@)),
            final(self).spec_count(user_id@) == old(self).spec_count(user_id@) + 1,
            forall|u: Seq<char>|
                u != user_id@ ==> final(self).spec_count(u) == old(self).spec_count(u),
    {
        let n = self.entries.len();
        let mut i: usize = 0;
        while i < n
            invariant
                0 <= i <= n,
                n == self.entries@.len(),
                *self == *old(self),
                old(self).wf(),
                old(self).spec_count(user_id@) < u64::MAX,
                forall|k: int| 0 <= k < i ==> self.entries@[k].user_id@ != user_id@,
            decreases n - i,
        {
            if self.entries[i].user_id == *user_id {
                proof {
                    lemma_count_at(self.entries@, i as int, user_id@);
                }
                let s = self.entries[i].sessions;
                self.entries[i].sessions = s + 1;
                proof {
                    let e = self.entries@[i as int];
                    lemma_count_update(old(self).entries@, i as int, e, user_id@);
                    assert forall|u: Seq<char>| u != user_id@ implies self.spec_count(u) == old(
                        self,
                    ).spec_count(u) by {
                        lemma_count_update(old(self).entries@, i as int, e, u);
                    }
                }
                return false;
            }
            i += 1;
        }
        proof {
            lemma_count_absent(self.entries@, user_id@);
        }
        let entry = UserSessionCount { user_id: user_id.clone(), sessions: 1 };
        self.entries.push(entry);
        proof {
            lemma_count_push(old(self).entries@, entry, user_id@);
            assert forall|u: Seq<char>| u != user_id@ implies self.spec_count(u) == old(
                self,
            ).spec_count(u) by {
                lemma_count_push(old(self).entries@, entry, u);
            }
        }
        true
    }

    /// Removes one live session of `user_id` and reports whether it was the
    /// user's last one. A remove for a user with no session is a caller's
    /// logic error; the count is clamped at zero and nothing is reported.
    pub fn remove(&mut self, user_id: &String) -> (last: bool)
        requires
            old(self).wf(),
        ensures
            final(self).wf(),
            last == emits_left(old(self).spec_count(user_id@)),
            old(self).spec_count(user_id@) > 0 ==> final(self).spec_count(user_id@) == old(
                self,
            ).spec_count(user_id@) - 1,
            old(self).spec_count(user_id@) == 0 ==> final(self).spec_count(user_id@) == 0,
            forall|u: Seq<char>|
                u != user_id@ ==> final(self).spec_count(u) == old(self).spec_count(u),
    {
        let n = self.entries.len();
        let mut i: usize = 0;
        while i < n
            invariant
                0 <= i <= n,
                n == self.entries@.len(),
                *self == *old(self),
                old(self).wf(),
                forall|k: int| 0 <= k < i ==> self.entries@[k].user_id@ != user_id@,
            decreases n - i,
        {
            if self.entries[i].user_id == *user_id {
                proof {
                    lemma_count_at(self.entries@, i as int, user_id@);
                }
                let s = self.entries[i].sessions;
                if s == 1 {
                    self.entries.remove(i);
                    proof {
                        lemma_count_remove(old(self).entries@, i as int, user_id@);
                        assert forall|u: Seq<char>| u != user_id@ implies self.spec_count(u)
                            == old(self).spec_count(u) by {
                            lemma_count_remove(old(self).entries@, i as int, u);
                        }
                        lemma_wf_remove(old(self).entries@, i as int);
                    }
                    return true;
                } else {
                    self.entries[i].sessions = s - 1;
                    proof {
                        let e = self.entries@[i as int];
                        lemma_count_update(old(self).entries@, i as int, e, user_id@);
                        assert forall|u: Seq<char>| u != user_id@ implies self.spec_count(u)
                            == old(self).spec_count(u) by {
                            lemma_count_update(old(self).entries@, i as int, e, u);
                        }
                    }
                    return false;
                }
            }
            i += 1;
        }
        proof {
            lemma_count_absent(self.entries@, user_id@);
        }
        false
    }

    /// The ids of the users with at least one live session, one each, in no
    /// promised order.
    pub fn get_unique_user_ids(&self) -> (r: Vec<String>)
        requires
            self.wf(),
        ensures
            forall|k: int| 0 <= k < r@.len() ==> self.spec_count(#[trigger] r@[k]@) > 0,
            forall|u: Seq<char>|
                self.spec_count(u) > 0 ==> exists|k: int| 0 <= k < r@.len() && #[trigger] r@[k]@
                    == u,
            forall|k: int, l: int| 0 <= k < l < r@.len() ==> r@[k]@ != r@[l]@,
    {
        let n = self.entries.len();
        let mut r: Vec<String> = Vec::new();
        let mut i: usize = 0;
        while i < n
            invariant
                0 <= i <= n,
                n == self.entries@.len(),
                self.wf(),
                r@.len() == i,
                forall|k: int| 0 <= k < i ==> r@[k]@ == self.entries@[k].user_id@,
            decreases n - i,
        {
            r.push(self.entries[i].user_id.clone());
            i += 1;
        }
        proof {
            assert forall|k: int| 0 <= k < r@.len() implies self.spec_count(#[trigger] r@[k]@)
                > 0 by {
                lemma_count_at(self.entries@, k, r@[k]@);
            }
            assert forall|u: Seq<char>| self.spec_count(u) > 0 implies exists|k: int|
                0 <= k < r@.len() && #[trigger] r@[k]@ == u by {
                lemma_count_pos(self.entries@, u);
                let j = choose|j: int|
                    0 <= j < self.entries@.len() && self.entries@[j].user_id@ == u;
                assert(r@[j]@ == u);
            }
        }
        r
    }
}

} // verus!
