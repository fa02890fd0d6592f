//! The collision reducer: consumes every `CollisionWith` event of the tick,
//! in arrival order, and emits one `GameOver(Win)` event per collision whose
//! entity carries the win-trigger tag.
//!
//! Non-winning collisions produce nothing.  Several winning collisions in
//! one tick each emit a `GameOver`; the transition controller honors only
//! the last, an accepted idempotent redundancy since every emitted target is
//! the same `Win` state.

use crate::events::CollisionWith;
use crate::events::EventQueue;
use crate::events::GameOver;
use crate::state::GameState;
use crate::world::World;
use vstd::prelude::*;

verus! {

/// The `GameOver` events that a sequence of collisions produces, given the
/// set-like sequence of win-trigger identifiers: one `GameOver(Win)` per
/// winning collision, in arrival order.
pub open spec fn spec_emitted(evs: Seq<CollisionWith>, triggers: Seq<u64>) -> Seq<GameOver>
    decreases evs.len(),
{
    if evs.len() == 0 {
        Seq::<GameOver>::empty()
    } else {
        spec_emitted(evs.drop_last(), triggers) + if triggers.contains(evs.last().entity) {
            seq![GameOver { target: GameState::Win }]
        } else {
            Seq::<GameOver>::empty()
        }
    }
}

/// Drain the collision channel: append to the game-over channel exactly the
/// events that [`spec_emitted`] describes, and leave the collision channel
/// empty.
pub fn reduce(
    world: &World,
    collisions: &mut EventQueue<CollisionWith>,
    game_overs: &mut EventQueue<GameOver>,
)
    ensures
        final(collisions)@ == Seq::<CollisionWith>::empty(),
        final(game_overs)@ == old(game_overs)@ + spec_emitted(
            old(collisions)@,
            world.spec_triggers(),
        ),
{
    let ghost evs = collisions@;
    let n = collisions.len();
    let mut i: usize = 0;
    while i < n
        invariant
            n == evs.len(),
            0 <= i <= n,
            collisions@ == evs,
            game_overs@ == old(game_overs)@ + spec_emitted(
                evs.take(i as int),
                world.spec_triggers(),
            ),
        decreases n - i,
    {
        let ev = *collisions.get(i);
        if world.is_win_trigger(ev.entity) {
            game_overs.push(GameOver { target: GameState::Win });
        }
        proof {
            assert(evs.take(i + 1).drop_last() =~= evs.take(i as int));
            assert(evs.take(i + 1).last() == evs[i as int]);
        }
        i = i + 1;
    }
    proof {
        assert(evs.take(n as int) =~= evs);
    }
    collisions.clear();
}

/// A collision with an entity that is not tagged as a win trigger produces
/// no `GameOver` event.
pub proof fn lemma_non_trigger_emits_nothing(entity: u64, triggers: Seq<u64>)
    requires
        !triggers.contains(entity),
    ensures
        spec_emitted(seq![CollisionWith { entity }], triggers) == Seq::<GameOver>::empty(),
{
    let s = seq![CollisionWith { entity }];
    assert(s.last() == (CollisionWith { entity }));
    assert(s.drop_last() =~= Seq::<CollisionWith>::empty());
    assert(spec_emitted(s.drop_last(), triggers) =~= Seq::<GameOver>::empty());
    assert(spec_emitted(s, triggers) =~= Seq::<GameOver>::empty());
}

/// A collision with an entity tagged as a win trigger produces exactly one
/// `GameOver` event, whose target is the `Win` state.
pub proof fn lemma_trigger_emits_one_win(entity: u64, triggers: Seq<u64>)
    requires
        triggers.contains(entity),
    ensures
        spec_emitted(seq![CollisionWith { entity }], triggers) == seq![
            GameOver { target: GameState::Win },
        ],
{
    let s = seq![CollisionWith { entity }];
    assert(s.last() == (CollisionWith { entity }));
    assert(s.drop_last() =~= Seq::<CollisionWith>::empty());
    assert(spec_emitted(s.drop_last(), triggers) =~= Seq::<GameOver>::empty());
    assert(spec_emitted(s, triggers) =~= seq![GameOver { target: GameState::Win }]);
}

/// Every event the reducer emits targets the `Win` state, whatever the
/// collisions were: the reducer is the only core producer of game-over
/// events, so downstream consumers may rely on `Win` targets.
pub proof fn lemma_emitted_targets_win(evs: Seq<CollisionWith>, triggers: Seq<u64>)
    ensures
        forall|i: int|
            0 <= i < spec_emitted(evs, triggers).len() ==> spec_emitted(evs, triggers)[i]
                == (GameOver { target: GameState::Win }),
    decreases evs.len(),
{
    if evs.len() > 0 {
        lemma_emitted_targets_win(evs.drop_last(), triggers);
    }
}

} // verus!
