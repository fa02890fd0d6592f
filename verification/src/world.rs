//! The core's view of the populated world: which entities carry the
//! win-trigger classification, and whether the single player entity exists.
//!
//! Entities are plain identifiers handed out by the world itself.  The
//! win-trigger tag is a read-only classification assigned at level setup;
//! the player handle is a singleton by construction (an `Option`, never a
//! list), which enforces the at-most-one-player invariant directly.

use vstd::prelude::*;

verus! {

/// `count` consecutive identifiers starting at `start`.
pub open spec fn spec_id_range(start: u64, count: nat) -> Seq<u64> {
    Seq::new(count, |i: int| (start + i) as u64)
}

/// Identifiers, tags and the player singleton for the running level.
pub struct World {
    next_id: u64,
    player: Option<u64>,
    triggers: Vec<u64>,
}

impl World {
    /// The next identifier the world would hand out; every identifier
    /// already handed out is smaller.
    pub closed spec fn spec_next_id(&self) -> u64 {
        self.next_id
    }

    /// The player entity's identifier, if a player currently exists.
    pub closed spec fn spec_player(&self) -> Option<u64> {
        self.player
    }

    /// The identifiers of all entities tagged as win triggers, in spawn
    /// order.
    pub closed spec fn spec_triggers(&self) -> Seq<u64> {
        self.triggers@
    }

    /// Whether `id` carries the win-trigger tag.
    pub open spec fn spec_is_win_trigger(&self, id: u64) -> bool {
        self.spec_triggers().contains(id)
    }

    /// Identifiers already handed out stay below `next_id`, so a fresh
    /// identifier never collides with an existing entity.
    pub open spec fn wf(&self) -> bool {
        &&& (forall|i: int|
            0 <= i < self.spec_triggers().len() ==> self.spec_triggers()[i]
                < self.spec_next_id())
        &&& (self.spec_player() matches Option::Some(p) ==> p < self.spec_next_id())
    }

    /// This world with the player removed and everything else untouched.
    pub closed spec fn spec_without_player(&self) -> World {
        World { next_id: self.next_id, player: Option::None, triggers: self.triggers }
    }

    /// How many more entities can be spawned before identifiers run out.
    pub open spec fn spec_can_spawn(&self, n: int) -> bool {
        self.spec_next_id() + n <= u64::MAX
    }

    /// An empty world: no entities, no player.
    pub fn new() -> (r: World)
        ensures
            r.wf(),
            r.spec_next_id() == 0,
            r.spec_player() == Option::<u64>::None,
            r.spec_triggers() == Seq::<u64>::empty(),
    {
        World { next_id: 0, player: Option::None, triggers: Vec::new() }
    }

    /// Spawn one entity tagged as a win trigger and return its identifier.
    pub fn spawn_win_trigger(&mut self) -> (id: u64)
        requires
            old(self).wf(),
            old(self).spec_can_spawn(1),
        ensures
            final(self).wf(),
            id == old(self).spec_next_id(),
            final(self).spec_next_id() == old(self).spec_next_id() + 1,
            final(self).spec_player() == old(self).spec_player(),
            final(self).spec_triggers() == old(self).spec_triggers().push(id),
    {
        let id = self.next_id;
        self.triggers.push(id);
        self.next_id = self.next_id + 1;
        proof {
            assert forall|i: int|
                0 <= i < self.spec_triggers().len() implies self.spec_triggers()[i]
                < self.spec_next_id() by {
                if i < old(self).spec_triggers().len() {
                    assert(self.spec_triggers()[i] == old(self).spec_triggers()[i]);
                } else {
                    assert(self.spec_triggers()[i] == id);
                }
            }
        }
        id
    }

    /// Level setup: spawn `count` win-trigger volumes in one go.  Their
    /// identifiers are consecutive, starting at the world's next free one.
    pub fn spawn_triggers(&mut self, count: u64)
        requires
            old(self).wf(),
            old(self).spec_can_spawn(count as int),
        ensures
            final(self).wf(),
            final(self).spec_next_id() == old(self).spec_next_id() + count,
            final(self).spec_player() == old(self).spec_player(),
            final(self).spec_triggers() == old(self).spec_triggers() + spec_id_range(
                old(self).spec_next_id(),
                count as nat,
            ),
    {
        let mut n: u64 = 0;
        while n < count
            invariant
                0 <= n <= count,
                old(self).wf(),
                old(self).spec_can_spawn(count as int),
                self.wf(),
                self.spec_next_id() == old(self).spec_next_id() + n,
                self.spec_player() == old(self).spec_player(),
                self.spec_triggers() == old(self).spec_triggers() + spec_id_range(
                    old(self).spec_next_id(),
                    n as nat,
                ),
            decreases count - n,
        {
            let id = self.spawn_win_trigger();
            n = n + 1;
            proof {
                assert(self.spec_triggers() =~= old(self).spec_triggers() + spec_id_range(
                    old(self).spec_next_id(),
                    n as nat,
                ));
            }
        }
    }

    /// Spawn the player entity if none exists; with a player already
    /// present this is a no-op returning `None`, which keeps the player a
    /// singleton.
    pub fn spawn_player(&mut self) -> (r: Option<u64>)
        requires
            old(self).wf(),
            old(self).spec_can_spawn(1),
        ensures
            final(self).wf(),
            final(self).spec_triggers() == old(self).spec_triggers(),
            old(self).spec_player() is Some ==> {
                &&& r == Option::<u64>::None
                &&& final(self).spec_player() == old(self).spec_player()
                &&& final(self).spec_next_id() == old(self).spec_next_id()
            },
            old(self).spec_player() is None ==> {
                &&& r == Option::Some(old(self).spec_next_id())
                &&& final(self).spec_player() == Option::Some(old(self).spec_next_id())
                &&& final(self).spec_next_id() == old(self).spec_next_id() + 1
            },
    {
        if self.player.is_some() {
            Option::None
        } else {
            let id = self.next_id;
            self.player = Option::Some(id);
            self.next_id = self.next_id + 1;
            proof {
                assert forall|i: int|
                    0 <= i < self.spec_triggers().len() implies self.spec_triggers()[i]
                    < self.spec_next_id() by {
                    assert(old(self).spec_triggers()[i] < old(self).spec_next_id());
                }
            }
            Option::Some(id)
        }
    }

    /// Remove the player entity.  A missing player is tolerated silently:
    /// it may already be gone, and the result is the same — no player.
    pub fn despawn_player(&mut self) -> (r: Option<u64>)
        ensures
            old(self).wf() ==> final(self).wf(),
            *final(self) == old(self).spec_without_player(),
            r == old(self).spec_player(),
            final(self).spec_player() == Option::<u64>::None,
            final(self).spec_next_id() == old(self).spec_next_id(),
            final(self).spec_triggers() == old(self).spec_triggers(),
    {
        let r = self.player;
        self.player = Option::None;
        proof {
            if old(self).wf() {
                assert forall|i: int|
                    0 <= i < self.spec_triggers().len() implies self.spec_triggers()[i]
                    < self.spec_next_id() by {
                    assert(old(self).spec_triggers()[i] < old(self).spec_next_id());
                }
            }
        }
        r
    }

    /// Whether a player entity currently exists.
    pub fn has_player(&self) -> (r: bool)
        ensures
            r == (self.spec_player() is Some),
    {
        self.player.is_some()
    }

    /// The player entity's identifier, if one exists.
    pub fn player_id(&self) -> (r: Option<u64>)
        ensures
            r == self.spec_player(),
    {
        self.player
    }

    /// Whether `id` carries the win-trigger tag: a direct membership check
    /// against the classification assigned at level setup.
    pub fn is_win_trigger(&self, id: u64) -> (r: bool)
        ensures
            r == self.spec_is_win_trigger(id),
    {
        let mut i: usize = 0;
        while i < self.triggers.len()
            invariant
                0 <= i <= self.triggers.len(),
                forall|j: int| 0 <= j < i ==> self.triggers@[j] != id,
            decreases self.triggers.len() - i,
        {
            if self.triggers[i] == id {
                return true;
            }
            i = i + 1;
        }
        false
    }

    /// The win-trigger identifiers, in spawn order.
    pub fn trigger_ids(&self) -> (r: &Vec<u64>)
        ensures
            r@ == self.spec_triggers(),
    {
        &self.triggers
    }

    /// How many win triggers the level holds.
    pub fn trigger_count(&self) -> (r: usize)
        ensures
            r == self.spec_triggers().len(),
    {
        self.triggers.len()
    }
}

} // verus!
