//! The game's finite state machine: the `GameState` value itself and the
//! double-buffered store that owns it.
//!
//! Every transition goes through [`StateStore`]: systems record an intent
//! with [`StateStore::request`] during a tick, and the scheduler applies the
//! most recent intent once, at the tick's commit point, with
//! [`StateStore::commit`].  Requesting the current state again is a benign
//! no-op for downstream consumers, which compare old and new state before
//! doing work.

use vstd::prelude::*;

verus! {

/// The five phases of the game.  `Loading` is the only initial value; once
/// the asset loader hands control to the menu it is never re-entered.
#[derive(Clone, Copy, PartialEq, Eq, Structural, Debug, Hash)]
pub enum GameState {
    Loading,
    Menu,
    Game,
    Pause,
    Win,
}

/// Owner of the current `GameState` and of the pending-next-state slot.
///
/// The current value changes only at [`StateStore::commit`], which the
/// scheduler invokes exactly once per tick after all systems have run, so
/// within a tick every reader observes the same state.  Multiple requests in
/// one tick resolve last-write-wins.
pub struct StateStore {
    current: GameState,
    pending: Option<GameState>,
}

impl StateStore {
    /// The last committed state.
    pub closed spec fn spec_current(&self) -> GameState {
        self.current
    }

    /// The most recently requested next state, if any request is
    /// outstanding since the last commit.
    pub closed spec fn spec_pending(&self) -> Option<GameState> {
        self.pending
    }

    /// The state a commit would move to: the pending request if one exists,
    /// otherwise the current state.
    pub open spec fn spec_commit_target(&self) -> GameState {
        match self.spec_pending() {
            Option::Some(s) => s,
            Option::None => self.spec_current(),
        }
    }

    /// The store as it stands after recording a request for `next`.
    pub closed spec fn spec_after_request(&self, next: GameState) -> StateStore {
        StateStore { current: self.current, pending: Option::Some(next) }
    }

    /// The store as it stands after the tick's commit point.
    pub closed spec fn spec_after_commit(&self) -> StateStore {
        StateStore { current: self.spec_commit_target(), pending: Option::None }
    }

    /// A fresh store: the game starts in `Loading` with nothing requested.
    pub fn new() -> (r: StateStore)
        ensures
            r.spec_current() == GameState::Loading,
            r.spec_pending() == Option::<GameState>::None,
    {
        StateStore { current: GameState::Loading, pending: Option::None }
    }

    /// The last committed value; never the value of a not-yet-committed
    /// request.
    pub fn get(&self) -> (r: GameState)
        ensures
            r == self.spec_current(),
    {
        self.current
    }

    /// Record the intent to move to `next` at the tick's commit point.
    /// A later request in the same tick overwrites this one (last write
    /// wins); the committed state is untouched until [`StateStore::commit`].
    pub fn request(&mut self, next: GameState)
        ensures
            *final(self) == old(self).spec_after_request(next),
            final(self).spec_current() == old(self).spec_current(),
            final(self).spec_pending() == Option::Some(next),
    {
        self.pending = Option::Some(next);
    }

    /// Apply the most recently requested state, if any, and clear the
    /// pending slot.  With no outstanding request the current state is kept.
    pub fn commit(&mut self)
        ensures
            *final(self) == old(self).spec_after_commit(),
            final(self).spec_current() == old(self).spec_commit_target(),
            final(self).spec_pending() == Option::<GameState>::None,
    {
        if let Option::Some(next) = self.pending {
            self.current = next;
        }
        self.pending = Option::None;
    }
}

/// A request followed by the tick's commit moves the store to exactly the
/// requested state, with nothing left pending.
pub proof fn lemma_request_then_commit(store: StateStore, next: GameState)
    ensures
        store.spec_after_request(next).spec_after_commit().spec_current() == next,
        store.spec_after_request(next).spec_after_commit().spec_pending() == Option::<
            GameState,
        >::None,
{
}

} // verus!
