//! The transition controller: the one consumer of `GameOver` events and the
//! one place terminal side effects happen.
//!
//! When at least one `GameOver` event exists this tick, the controller
//! honors only the most recently enqueued one (last write wins), performs
//! the terminal side effects — request the one-shot sound, despawn the
//! player (a missing player is tolerated silently) — records the event's
//! target with the state store, and flushes the whole queue so no stale
//! event leaks into the next tick.

use crate::events::EventQueue;
use crate::events::GameOver;
use crate::state::GameState;
use crate::state::StateStore;
use crate::world::World;
use vstd::prelude::*;

verus! {

/// What the controller asked the outside collaborators to do this tick.
/// The embedding shell performs these: it plays the one-shot sample if
/// `sound` is set; `despawned` reports which entity left the world.
#[derive(Clone, Copy, PartialEq, Eq, Structural, Debug)]
pub struct TerminalEffects {
    pub sound: bool,
    pub despawned: Option<u64>,
}

/// The pending request a resolve leaves behind: the last-enqueued event's
/// target if any event exists, otherwise whatever was pending before.
pub open spec fn spec_resolved_pending(
    evs: Seq<GameOver>,
    store: StateStore,
) -> Option<GameState> {
    if evs.len() > 0 {
        Option::Some(evs.last().target)
    } else {
        store.spec_pending()
    }
}

/// Consume this tick's `GameOver` events.
///
/// With an empty queue nothing happens.  Otherwise: the sound request is
/// issued, the player is despawned (silently tolerated if already gone),
/// the last event's target is requested from the store, and the queue is
/// cleared unconditionally — earlier events of the tick are discarded.
pub fn resolve_game_over(
    game_overs: &mut EventQueue<GameOver>,
    store: &mut StateStore,
    world: &mut World,
) -> (fx: TerminalEffects)
    ensures
        final(store).spec_pending() == spec_resolved_pending(old(game_overs)@, *old(store)),
        final(store).spec_current() == old(store).spec_current(),
        old(world).wf() ==> final(world).wf(),
        final(world).spec_next_id() == old(world).spec_next_id(),
        final(world).spec_triggers() == old(world).spec_triggers(),
        final(world).spec_player() == if old(game_overs)@.len() > 0 {
            Option::<u64>::None
        } else {
            old(world).spec_player()
        },
        old(game_overs)@.len() == 0 ==> {
            &&& final(game_overs)@ == old(game_overs)@
            &&& *final(store) == *old(store)
            &&& *final(world) == *old(world)
            &&& fx == (TerminalEffects { sound: false, despawned: Option::None })
        },
        old(game_overs)@.len() > 0 ==> {
            &&& final(game_overs)@ == Seq::<GameOver>::empty()
            &&& *final(store) == old(store).spec_after_request(old(game_overs)@.last().target)
            &&& *final(world) == old(world).spec_without_player()
            &&& fx == (TerminalEffects { sound: true, despawned: old(world).spec_player() })
        },
{
    match game_overs.last() {
        Option::None => TerminalEffects { sound: false, despawned: Option::None },
        Option::Some(ev) => {
            let despawned = world.despawn_player();
            store.request(ev.target);
            game_overs.clear();
            TerminalEffects { sound: true, despawned }
        },
    }
}

/// Last write wins: for every nonempty sequence of `GameOver` events
/// enqueued in one tick, resolving them and then committing yields exactly
/// one state transition, to the target of the last-enqueued event — and the
/// resolve itself leaves the queue empty, as its contract states.
pub proof fn lemma_last_write_wins(evs: Seq<GameOver>, store: StateStore)
    requires
        evs.len() > 0,
    ensures
        spec_resolved_pending(evs, store) == Option::Some(evs.last().target),
        store.spec_after_request(evs.last().target).spec_after_commit().spec_current()
            == evs.last().target,
{
    crate::state::lemma_request_then_commit(store, evs.last().target);
}

} // verus!
