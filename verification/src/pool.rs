//! The pool of identities: hands out each roster entry at most once.

use crate::config::auth::{AuthEntryView, DummyAuthConfig, DummyAuthEntry, Group, GroupView};
use vstd::prelude::*;

verus! {

/// A user and group that a test case may act as.
pub type Principal = DummyAuthEntry;

/// The pool has handed out every entry of its roster.
#[derive(Clone, Copy, Debug, PartialEq, Eq, Structural)]
pub struct PoolExhausted {}

/// Hands out the entries of a roster, in roster order, each at most once.
///
/// Users and groups are counted separately: taking a principal does not use
/// up a group, nor the other way round. Nothing is ever handed back, so what
/// has been taken stays taken for as long as the pool lives.
pub struct PrincipalPool {
    roster: Vec<DummyAuthEntry>,
    principals_taken: usize,
    groups_taken: usize,
}

/// A pool as contracts see it.
pub struct PoolView {
    /// The roster the pool was made from.
    pub roster: Seq<AuthEntryView>,
    /// How many principals have been handed out.
    pub principals_taken: nat,
    /// How many groups have been handed out.
    pub groups_taken: nat,
}

impl PoolView {
    /// Neither count exceeds the roster.
    pub open spec fn wf(self) -> bool {
        self.principals_taken <= self.roster.len() && self.groups_taken <= self.roster.len()
    }

    /// The principals handed out so far, oldest first.
    pub open spec fn issued(self) -> Seq<AuthEntryView> {
        self.roster.take(self.principals_taken as int)
    }

    /// The groups handed out so far, oldest first.
    pub open spec fn issued_groups(self) -> Seq<GroupView> {
        self.roster.take(self.groups_taken as int).map_values(|entry: AuthEntryView| entry.group)
    }

    /// The pool after one more principal has been taken.
    pub open spec fn after_principal(self) -> PoolView {
        PoolView { principals_taken: self.principals_taken + 1, ..self }
    }

    /// The pool after one more group has been taken.
    pub open spec fn after_group(self) -> PoolView {
        PoolView { groups_taken: self.groups_taken + 1, ..self }
    }

    /// The pool after `n` more principals have been taken.
    pub open spec fn after_principals(self, n: nat) -> PoolView
        decreases n,
    {
        if n == 0 {
            self
        } else {
            self.after_principals((n - 1) as nat).after_principal()
        }
    }
}

/// No two entries of the roster name the same user.
pub open spec fn distinct_users(roster: Seq<AuthEntryView>) -> bool {
    forall|i: int, j: int|
        0 <= i < j < roster.len() ==> (#[trigger] roster[i]).user.uid != (#[trigger] roster[j]).user.uid
}

/// No two entries of the roster name the same group.
pub open spec fn distinct_groups(roster: Seq<AuthEntryView>) -> bool {
    forall|i: int, j: int|
        0 <= i < j < roster.len() ==> (#[trigger] roster[i]).group.gid != (
        #[trigger] roster[j]).group.gid
}

impl View for PrincipalPool {
    type V = PoolView;

    closed spec fn view(&self) -> PoolView {
        PoolView {
            roster: self.roster@.map_values(|entry: DummyAuthEntry| entry@),
            principals_taken: self.principals_taken as nat,
            groups_taken: self.groups_taken as nat,
        }
    }
}

impl PrincipalPool {
    #[verifier::type_invariant]
    spec fn inv(self) -> bool {
        self.principals_taken <= self.roster.len() && self.groups_taken <= self.roster.len()
    }

    /// A pool over `roster` from which nothing has been taken.
    pub fn new(roster: Vec<DummyAuthEntry>) -> (pool: PrincipalPool)
        ensures
            pool@.roster == roster@.map_values(|entry: DummyAuthEntry| entry@),
            pool@.principals_taken == 0,
            pool@.groups_taken == 0,
            pool@.wf(),
    {
        PrincipalPool { roster, principals_taken: 0, groups_taken: 0 }
    }

    /// A pool over the roster of `config` from which nothing has been taken.
    pub fn from_config(config: &DummyAuthConfig) -> (pool: PrincipalPool)
        ensures
            pool@.roster == config.entries@.map_values(|entry: DummyAuthEntry| entry@),
            pool@.roster.len() == 3,
            pool@.principals_taken == 0,
            pool@.groups_taken == 0,
            pool@.wf(),
            config.spec_users_distinct() ==> distinct_users(pool@.roster),
    {
        let mut roster: Vec<DummyAuthEntry> = Vec::new();
        roster.push(config.entries[0].clone());
        roster.push(config.entries[1].clone());
        roster.push(config.entries[2].clone());
        assert(roster@.map_values(|entry: DummyAuthEntry| entry@) =~= config.entries@.map_values(
            |entry: DummyAuthEntry| entry@,
        ));
        PrincipalPool { roster, principals_taken: 0, groups_taken: 0 }
    }

    /// How many principals are left to take.
    pub fn principals_left(&self) -> (left: usize)
        ensures
            self@.wf(),
            left == self@.roster.len() - self@.principals_taken,
    {
        proof {
            use_type_invariant(self);
        }
        self.roster.len() - self.principals_taken
    }

    /// How many groups are left to take.
    pub fn groups_left(&self) -> (left: usize)
        ensures
            self@.wf(),
            left == self@.roster.len() - self@.groups_taken,
    {
        proof {
            use_type_invariant(self);
        }
        self.roster.len() - self.groups_taken
    }

    /// Takes the next principal of the roster.
    ///
    /// Fails, and leaves the pool as it was, exactly when every principal has
    /// been taken already.
    pub fn new_principal(&mut self) -> (r: Result<Principal, PoolExhausted>)
        ensures
            old(self)@.wf(),
            final(self)@.wf(),
            match r {
                Ok(principal) => {
                    &&& old(self)@.principals_taken < old(self)@.roster.len()
                    &&& principal@ == old(self)@.roster[old(self)@.principals_taken as int]
                    &&& final(self)@ == old(self)@.after_principal()
                    &&& final(self)@.issued() == old(self)@.issued().push(principal@)
                },
                Err(_) => {
                    &&& old(self)@.principals_taken == old(self)@.roster.len()
                    &&& final(self)@ == old(self)@
                },
            },
    {
        proof {
            use_type_invariant(&*self);
        }
        if self.principals_taken >= self.roster.len() {
            return Err(PoolExhausted {  });
        }
        let principal: Principal = self.roster[self.principals_taken].clone();
        self.principals_taken = self.principals_taken + 1;
        proof {
            assert(final(self)@.issued() =~= old(self)@.issued().push(principal@));
        }
        Ok(principal)
    }

    /// Takes the group of the next roster entry whose group has not been
    /// taken.
    ///
    /// Fails, and leaves the pool as it was, exactly when every group has
    /// been taken already.
    pub fn new_group(&mut self) -> (r: Result<Group, PoolExhausted>)
        ensures
            old(self)@.wf(),
            final(self)@.wf(),
            match r {
                Ok(group) => {
                    &&& old(self)@.groups_taken < old(self)@.roster.len()
                    &&& group@ == old(self)@.roster[old(self)@.groups_taken as int].group
                    &&& final(self)@ == old(self)@.after_group()
                    &&& final(self)@.issued_groups() == old(self)@.issued_groups().push(group@)
                },
                Err(_) => {
                    &&& old(self)@.groups_taken == old(self)@.roster.len()
                    &&& final(self)@ == old(self)@
                },
            },
    {
        proof {
            use_type_invariant(&*self);
        }
        if self.groups_taken >= self.roster.len() {
            return Err(PoolExhausted {  });
        }
        let group: Group = self.roster[self.groups_taken].group.clone();
        self.groups_taken = self.groups_taken + 1;
        proof {
            assert(final(self)@.issued_groups() =~= old(self)@.issued_groups().push(group@));
        }
        Ok(group)
    }
}

/// Whatever has been taken from a pool, in whatever number of calls, no user
/// was handed out twice, provided the roster names no user twice.
pub proof fn lemma_no_double_allocation(pool: PoolView, i: int, j: int)
    requires
        pool.wf(),
        distinct_users(pool.roster),
        0 <= i < j < pool.issued().len(),
    ensures
        pool.issued()[i].user.uid != pool.issued()[j].user.uid,
        pool.issued()[i] != pool.issued()[j],
{
    assert(pool.issued()[i] == pool.roster[i]);
    assert(pool.issued()[j] == pool.roster[j]);
}

/// Whatever the roster holds, no position of it was handed out twice: the
/// principals taken are the first so many entries of the roster, each once.
pub proof fn lemma_issued_is_prefix(pool: PoolView, n: nat)
    requires
        pool.wf(),
        pool.principals_taken + n <= pool.roster.len(),
    ensures
        pool.after_principals(n).wf(),
        pool.after_principals(n).roster == pool.roster,
        pool.after_principals(n).principals_taken == pool.principals_taken + n,
        pool.after_principals(n).groups_taken == pool.groups_taken,
        pool.after_principals(n).issued() == pool.roster.take((pool.principals_taken + n) as int),
        pool.issued() == pool.after_principals(n).issued().take(pool.principals_taken as int),
    decreases n,
{
    if n > 0 {
        lemma_issued_is_prefix(pool, (n - 1) as nat);
    }
    assert(pool.issued() =~= pool.after_principals(n).issued().take(pool.principals_taken as int));
}

/// No group was handed out twice either, provided the roster names no group
/// twice.
pub proof fn lemma_no_double_group(pool: PoolView, i: int, j: int)
    requires
        pool.wf(),
        distinct_groups(pool.roster),
        0 <= i < j < pool.issued_groups().len(),
    ensures
        pool.issued_groups()[i].gid != pool.issued_groups()[j].gid,
{
    assert(pool.issued_groups()[i] == pool.roster[i].group);
    assert(pool.issued_groups()[j] == pool.roster[j].group);
}

} // verus!
