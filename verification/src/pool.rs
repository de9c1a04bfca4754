//! The sets of command lists that workers record on, and who holds each set.

use vstd::prelude::*;

verus! {

/// The number of a set of command lists.
#[derive(Clone, Copy, Debug, PartialEq, Eq, Structural, Hash)]
pub struct CommandListSetId(pub usize);

/// How many sets there are.
pub const NUM_SETS: usize = 12;

/// Which sets are leased, and where the search for a free one goes on.
#[derive(Debug)]
pub struct CommandListPool {
    pub sets_in_use: Vec<bool>,
    pub next_set: usize,
    /// How many command lists each set has.
    pub command_lists: usize,
}

#[derive(Clone, Copy, Debug, PartialEq, Eq, Structural)]
pub enum LeaseState {
    Recording,
    Released,
}

/// The exclusive use of a set.
#[derive(Debug)]
pub struct CommandListLease {
    pub id: CommandListSetId,
    pub state: LeaseState,
}

impl CommandListPool {
    pub open spec fn wf(self) -> bool {
        &&& self.sets_in_use@.len() == NUM_SETS
        &&& self.command_lists > 0
    }

    /// The set that the search looks at after `tries` others. The counter of searches starts
    /// over after its last value.
    pub open spec fn candidate(self, tries: int) -> int {
        let counter = self.next_set + tries;
        (if counter > usize::MAX {
            counter - usize::MAX - 1
        } else {
            counter
        }) % self.sets_in_use@.len() as int
    }

    /// The set is leased.
    pub open spec fn leased(self, id: CommandListSetId) -> bool {
        id.0 < self.sets_in_use@.len() && self.sets_in_use@[id.0 as int]
    }

    /// The search finds a free set after `tries` leased ones.
    pub open spec fn found_after(self, tries: int) -> bool {
        &&& 0 <= tries < self.sets_in_use@.len()
        &&& !self.sets_in_use@[self.candidate(tries)]
        &&& forall|earlier: int|
            0 <= earlier < tries ==> self.sets_in_use@[#[trigger] self.candidate(earlier)]
    }

    /// The search finds a free set.
    pub open spec fn has_free(self) -> bool {
        exists|tries: int| self.found_after(tries)
    }

    /// A pool with a command list for each worker, and at least one, in each set.
    pub fn new(workers: usize) -> (pool: CommandListPool)
        ensures
            pool.wf(),
            pool.next_set == 0,
            pool.command_lists == if workers == 0 { 1 } else { workers },
            forall|i: int| 0 <= i < NUM_SETS ==> !#[trigger] pool.sets_in_use@[i],
    {
        let mut sets_in_use: Vec<bool> = Vec::new();
        while sets_in_use.len() < NUM_SETS
            invariant
                sets_in_use@.len() <= NUM_SETS,
                forall|i: int| 0 <= i < sets_in_use@.len() ==> !#[trigger] sets_in_use@[i],
            decreases NUM_SETS - sets_in_use@.len(),
        {
            sets_in_use.push(false);
        }
        CommandListPool {
            sets_in_use,
            next_set: 0,
            command_lists: if workers == 0 {
                1
            } else {
                workers
            },
        }
    }

    /// Looks for a free set: how many leased ones come before it.
    pub fn find_free(&self) -> (tries: Option<usize>)
        requires
            self.wf(),
        ensures
            match tries {
                Some(tries) => self.found_after(tries as int),
                None => !self.has_free(),
            },
    {
        let mut tries: usize = 0;
        let mut counter: usize = self.next_set;
        while tries < self.sets_in_use.len()
            invariant
                self.wf(),
                tries <= self.sets_in_use@.len(),
                counter == (if self.next_set + tries > usize::MAX {
                    self.next_set + tries - usize::MAX - 1
                } else {
                    self.next_set + tries
                }),
                forall|earlier: int|
                    0 <= earlier < tries ==> self.sets_in_use@[#[trigger] self.candidate(earlier)],
            decreases self.sets_in_use@.len() - tries,
        {
            let set: usize = counter % self.sets_in_use.len();
            assert(set == self.candidate(tries as int));
            if !self.sets_in_use[set] {
                return Some(tries);
            }
            counter = if counter == usize::MAX {
                0
            } else {
                counter + 1
            };
            tries += 1;
        }
        assert forall|found: int| !self.found_after(found) by {
            if 0 <= found < self.sets_in_use@.len() {
                assert(self.sets_in_use@[self.candidate(found)]);
            }
        }
        None
    }

    /// Leases the first free set that the search finds.
    pub fn acquire_set(&mut self) -> (id: CommandListSetId)
        requires
            old(self).wf(),
            old(self).has_free(),
        ensures
            final(self).wf(),
            !old(self).leased(id),
            exists|tries: int| #[trigger]
                old(self).found_after(tries) && id.0 == old(self).candidate(tries)
                    && final(self).next_set == (if old(self).next_set + tries + 1 > usize::MAX {
                    old(self).next_set + tries - usize::MAX
                } else {
                    old(self).next_set + tries + 1
                }),
            final(self).sets_in_use@ == old(self).sets_in_use@.update(id.0 as int, true),
            final(self).command_lists == old(self).command_lists,
    {
        let mut tries: usize = 0;
        let mut counter: usize = self.next_set;
        match self.find_free() {
            Some(found) => {
                tries = found;
            },
            None => {},
        }
        assert(self.found_after(tries as int));
        let room: usize = usize::MAX - counter;
        if tries > room {
            counter = tries - room - 1;
        } else {
            counter = counter + tries;
        }
        let set: usize = counter % self.sets_in_use.len();
        assert(set == self.candidate(tries as int));
        self.sets_in_use.set(set, true);
        self.next_set = if counter == usize::MAX {
            0
        } else {
            counter + 1
        };
        CommandListSetId(set)
    }

    /// Gives a leased set back.
    pub fn release_set(&mut self, set: CommandListSetId)
        requires
            old(self).wf(),
            old(self).leased(set),
        ensures
            final(self).wf(),
            final(self).sets_in_use@ == old(self).sets_in_use@.update(set.0 as int, false),
            final(self).next_set == old(self).next_set,
            final(self).command_lists == old(self).command_lists,
    {
        self.sets_in_use.set(set.0, false);
    }

    /// Leases a set for recording.
    pub fn begin(&mut self) -> (lease: CommandListLease)
        requires
            old(self).wf(),
            old(self).has_free(),
        ensures
            final(self).wf(),
            !old(self).leased(lease.id),
            final(self).leased(lease.id),
            exists|tries: int| #[trigger]
                old(self).found_after(tries) && lease.id.0 == old(self).candidate(tries)
                    && final(self).next_set == (if old(self).next_set + tries + 1 > usize::MAX {
                    old(self).next_set + tries - usize::MAX
                } else {
                    old(self).next_set + tries + 1
                }),
            final(self).sets_in_use@ == old(self).sets_in_use@.update(lease.id.0 as int, true),
            final(self).command_lists == old(self).command_lists,
            lease.state == LeaseState::Recording,
    {
        let id = self.acquire_set();
        CommandListLease { id, state: LeaseState::Recording }
    }

    /// The command list of a set that a worker records on.
    pub fn get_command_list(&self, thread: usize) -> (index: usize)
        requires
            self.wf(),
        ensures
            index == thread % self.command_lists,
            index < self.command_lists,
    {
        thread % self.command_lists
    }

    /// Whether a set has a command list with a number.
    pub fn get_command_list_manual(&self, set: CommandListSetId, index: usize) -> (place: Option<(
        usize,
        usize,
    )>)
        requires
            self.wf(),
        ensures
            place == if set.0 < NUM_SETS && index < self.command_lists {
                Some((set.0, index))
            } else {
                None
            },
    {
        if set.0 < self.sets_in_use.len() && index < self.command_lists {
            Some((set.0, index))
        } else {
            None
        }
    }
}

impl CommandListLease {
    /// The lease has the pool's set for itself, until it gave it back.
    pub open spec fn held(self, pool: CommandListPool) -> bool {
        self.state == LeaseState::Recording ==> pool.leased(self.id)
    }

    pub fn id(&self) -> (id: CommandListSetId)
        ensures
            id == self.id,
    {
        self.id
    }

    /// Ends the recording: the set, whose lists are then executed in order, is given back.
    pub fn finish(&mut self, pool: &mut CommandListPool)
        requires
            old(pool).wf(),
            old(self).state == LeaseState::Recording,
            old(self).held(*old(pool)),
        ensures
            final(pool).wf(),
            final(pool).sets_in_use@ == old(pool).sets_in_use@.update(old(self).id.0 as int, false),
            final(pool).next_set == old(pool).next_set,
            final(pool).command_lists == old(pool).command_lists,
            final(self).id == old(self).id,
            final(self).state == LeaseState::Released,
    {
        pool.release_set(self.id);
        self.state = LeaseState::Released;
    }

    /// Drops the lease: a set that was not given back is given back.
    pub fn abandon(self, pool: &mut CommandListPool)
        requires
            old(pool).wf(),
            self.held(*old(pool)),
        ensures
            final(pool).wf(),
            final(pool).sets_in_use@ == if self.state == LeaseState::Recording {
                old(pool).sets_in_use@.update(self.id.0 as int, false)
            } else {
                old(pool).sets_in_use@
            },
            final(pool).next_set == old(pool).next_set,
            final(pool).command_lists == old(pool).command_lists,
    {
        match self.state {
            LeaseState::Recording => {
                pool.release_set(self.id);
            },
            LeaseState::Released => {},
        }
    }
}

/// While the counter does not start over, the search finds a free set wherever there is one.
pub proof fn law_a_free_set_is_found(pool: CommandListPool, free: int)
    requires
        pool.wf(),
        pool.next_set + NUM_SETS <= usize::MAX,
        0 <= free < NUM_SETS,
        !pool.sets_in_use@[free],
    ensures
        pool.has_free(),
{
    let start = pool.next_set as int % NUM_SETS as int;
    let ahead = if free >= start {
        free - start
    } else {
        free + NUM_SETS - start
    };
    assert((pool.next_set + ahead) % 12 == free) by (nonlinear_arith)
        requires
            start == pool.next_set as int % 12,
            0 <= start < 12,
            0 <= free < 12,
            free >= start ==> ahead == free - start,
            free < start ==> ahead == free + 12 - start,
    ;
    assert(pool.candidate(ahead) == free);
    lemma_first_free(pool, ahead);
}

proof fn lemma_first_free(pool: CommandListPool, tries: int)
    requires
        0 <= tries < pool.sets_in_use@.len(),
        !pool.sets_in_use@[pool.candidate(tries)],
    ensures
        pool.has_free(),
    decreases tries,
{
    if forall|earlier: int|
        0 <= earlier < tries ==> pool.sets_in_use@[#[trigger] pool.candidate(earlier)] {
        assert(pool.found_after(tries));
    } else {
        let earlier = choose|earlier: int|
            0 <= earlier < tries && !pool.sets_in_use@[#[trigger] pool.candidate(earlier)];
        lemma_first_free(pool, earlier);
    }
}

/// Two leases that are held at the same time have different sets: a set that is leased stays
/// out of reach until it is given back.
pub proof fn law_leases_are_exclusive(
    before: CommandListPool,
    after: CommandListPool,
    held: CommandListSetId,
    acquired: CommandListSetId,
)
    requires
        before.wf(),
        before.leased(held),
        !before.leased(acquired),
        after.sets_in_use@ == before.sets_in_use@.update(acquired.0 as int, true),
        acquired.0 < NUM_SETS,
    ensures
        held != acquired,
        after.leased(held),
        after.leased(acquired),
{
}

} // verus!
