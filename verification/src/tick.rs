//! The scheduler: one explicit, dependency-respecting order for the core's
//! systems, on two cadences.
//!
//! The per-frame cadence ([`GameApp::update_tick`]) runs input handling,
//! the proximity watcher, the collision reducer and the transition
//! controller, commits the state store exactly once, and — edge-triggered,
//! only when the committed state differs from the one the previous tick
//! ended in — performs the lazy one-shot setups and re-evaluates cameras
//! and panels for the new state.  The fixed-timestep cadence
//! ([`GameApp::fixed_tick`]) maps key state to a locomotion intent,
//! decoupled from the render frame rate.  Requests made by several systems
//! in one tick resolve last-write-wins at the commit point.

use crate::control::CamVector;
use crate::control::KeyInput;
use crate::control::WalkIntent;
use crate::control::control_step;
use crate::control::spec_walk_intent;
use crate::events::CollisionWith;
use crate::events::EventQueue;
use crate::events::GameOver;
use crate::mode::GameCameraState;
use crate::mode::MenuCameraState;
use crate::mode::Panel;
use crate::mode::Scene;
use crate::mode::SceneView;
use crate::mode::spec_applied;
use crate::reducer::reduce;
use crate::reducer::spec_emitted;
use crate::state::GameState;
use crate::state::StateStore;
use crate::transition::resolve_game_over;
use crate::ui::Interaction;
use crate::ui::loading_step;
use crate::ui::pause_key_step;
use crate::ui::quit_button_step;
use crate::ui::start_button_step;
use crate::watcher::poll;
use crate::world::World;
use crate::world::spec_id_range;
use vstd::prelude::*;

verus! {

/// How many win-trigger volumes level setup places.
pub const TRIGGER_VOLUMES: u64 = 9;

/// Everything the outside collaborators report for one per-frame tick.
#[derive(Clone, Copy, PartialEq, Eq, Structural, Debug)]
pub struct TickInput {
    /// All asset collections are loaded (the loader's signal).
    pub assets_ready: bool,
    /// Interaction state of the start ("Start Game" / "Play Again" /
    /// "Resume") button, if one is on screen.
    pub start_button: Interaction,
    /// Interaction state of the quit button, if one is on screen.
    pub quit_button: Interaction,
    /// The pause key was pressed this tick (an edge, not a level).
    pub pause_just_pressed: bool,
    /// The player's proximity sensor: the contacted entity, if any.
    pub sensor_contact: Option<u64>,
}

/// What the shell must do after one per-frame tick.
#[derive(Clone, Copy, PartialEq, Eq, Structural, Debug)]
pub struct TickEffects {
    /// Play the one-shot game-over sample.
    pub sound: bool,
    /// This entity left the world and should be despawned outside too.
    pub despawned: Option<u64>,
    /// A player entity was spawned, with this identifier.
    pub spawned_player: Option<u64>,
    /// The quit button asked for process exit.
    pub exit: bool,
}

/// The whole orchestration core: state store, the two event channels, the
/// world model, the scene the mode switcher steers, and the scheduler's own
/// change-detection and run-once bookkeeping.
pub struct GameApp {
    pub store: StateStore,
    pub collisions: EventQueue<CollisionWith>,
    pub game_overs: EventQueue<GameOver>,
    pub world: World,
    pub scene: Scene,
    /// The state the previous tick ended in; the mode switcher runs only
    /// when the committed state differs from it.
    pub prev_state: GameState,
    /// Menu setup already ran (once, the first tick `Menu` was entered).
    pub menu_built: bool,
    /// Level and gameplay-camera setup already ran (once, the first tick
    /// `Game` was entered).
    pub level_built: bool,
}

/// The collision events the watcher contributes this tick: one per sensed
/// contact, and only while playing.
pub open spec fn spec_sensed(current: GameState, sensor_contact: Option<u64>) -> Seq<
    CollisionWith,
> {
    match sensor_contact {
        Option::Some(entity) if current is Game => seq![CollisionWith { entity }],
        _ => Seq::<CollisionWith>::empty(),
    }
}

/// The game-over events this tick produces from the sensor reading.
pub open spec fn spec_fired(current: GameState, input: TickInput, triggers: Seq<u64>) -> Seq<
    GameOver,
> {
    spec_emitted(spec_sensed(current, input.sensor_contact), triggers)
}

/// The state request left pending just before the commit point, after the
/// scheduler's fixed system order: start button, pause key, loading
/// handoff, then the transition controller — the last writer wins.
pub open spec fn spec_requested(current: GameState, input: TickInput, triggers: Seq<u64>) -> Option<
    GameState,
> {
    let in_menus = current is Menu || current is Win || current is Pause;
    let after_start: Option<GameState> = if in_menus && input.start_button is Pressed {
        Option::Some(GameState::Game)
    } else {
        Option::None
    };
    let after_pause: Option<GameState> = if input.pause_just_pressed && current is Game {
        Option::Some(GameState::Pause)
    } else if input.pause_just_pressed && current is Pause {
        Option::Some(GameState::Game)
    } else {
        after_start
    };
    let after_loading: Option<GameState> = if input.assets_ready && current is Loading {
        Option::Some(GameState::Menu)
    } else {
        after_pause
    };
    let evs = spec_fired(current, input, triggers);
    if evs.len() > 0 {
        Option::Some(evs.last().target)
    } else {
        after_loading
    }
}

/// The state one tick commits, from the state it started in.
pub open spec fn spec_next_state(current: GameState, input: TickInput, triggers: Seq<u64>)
    -> GameState {
    match spec_requested(current, input, triggers) {
        Option::Some(s) => s,
        Option::None => current,
    }
}

/// The scene as the tick leaves it when the state changed to `next`: after
/// the lazy one-shot setups that `next` calls for, re-evaluated for `next`.
pub open spec fn spec_scene_after_change(
    v: SceneView,
    menu_built: bool,
    level_built: bool,
    next: GameState,
) -> SceneView {
    let v1 = if next is Menu && !menu_built {
        SceneView {
            menu_camera: Option::Some(MenuCameraState { active: true }),
            game_camera: v.game_camera,
            panels: v.panels + seq![
                Panel { shown_in: GameState::Menu, visible: true },
                Panel { shown_in: GameState::Win, visible: false },
                Panel { shown_in: GameState::Pause, visible: false },
            ],
        }
    } else {
        v
    };
    let v2 = if next is Game && !level_built {
        SceneView {
            menu_camera: v1.menu_camera,
            game_camera: Option::Some(GameCameraState { active: true, cursor_lock: true }),
            panels: v1.panels,
        }
    } else {
        v1
    };
    spec_applied(v2, next)
}

/// `Loading` is the only initial state and is never re-entered once left:
/// no system requests it — buttons request `Game`, the pause key toggles
/// `Game` and `Pause`, the loader hands off to `Menu`, and every game-over
/// event the reducer emits targets `Win` — so no tick started outside
/// `Loading` commits back into it.
pub proof fn lemma_loading_never_reentered(
    current: GameState,
    input: TickInput,
    triggers: Seq<u64>,
)
    requires
        !(current is Loading),
    ensures
        !(spec_next_state(current, input, triggers) is Loading),
{
    let evs = spec_fired(current, input, triggers);
    if evs.len() > 0 {
        crate::reducer::lemma_emitted_targets_win(
            spec_sensed(current, input.sensor_contact),
            triggers,
        );
        assert(evs.last() == (GameOver { target: GameState::Win }));
    }
}

impl GameApp {
    /// The cross-tick invariant: the world is well formed, both event
    /// channels were drained by the previous tick, no request is pending
    /// across the commit boundary, and the change detector saw the current
    /// state.
    pub open spec fn wf(&self) -> bool {
        &&& self.world.wf()
        &&& self.store.spec_pending() is None
        &&& self.prev_state == self.store.spec_current()
        &&& self.collisions@ == Seq::<CollisionWith>::empty()
        &&& self.game_overs@ == Seq::<GameOver>::empty()
    }

    /// A fresh core: `Loading`, an empty world and scene, nothing built.
    pub fn new() -> (r: GameApp)
        ensures
            r.wf(),
            r.store.spec_current() == GameState::Loading,
            r.world.spec_next_id() == 0,
            r.world.spec_player() == Option::<u64>::None,
            r.world.spec_triggers() == Seq::<u64>::empty(),
            r.scene@.menu_camera == Option::<MenuCameraState>::None,
            r.scene@.game_camera == Option::<GameCameraState>::None,
            r.scene@.panels == Seq::<Panel>::empty(),
            !r.menu_built,
            !r.level_built,
    {
        GameApp {
            store: StateStore::new(),
            collisions: EventQueue::new(),
            game_overs: EventQueue::new(),
            world: World::new(),
            scene: Scene::new(),
            prev_state: GameState::Loading,
            menu_built: false,
            level_built: false,
        }
    }

    /// One per-frame tick, in the fixed system order: buttons, pause key,
    /// loading handoff, proximity watcher, collision reducer, transition
    /// controller, the one commit, then — only if the state changed — the
    /// lazy one-shot setups and the mode switch; finally the player spawn
    /// gate, which (re)spawns the player whenever `Game` is active with no
    /// player alive.
    pub fn update_tick(&mut self, input: TickInput) -> (fx: TickEffects)
        requires
            old(self).wf(),
            old(self).world.spec_can_spawn(TRIGGER_VOLUMES + 1),
        ensures
            final(self).wf(),
            ({
                let current = old(self).store.spec_current();
                let triggers = old(self).world.spec_triggers();
                let next = spec_next_state(current, input, triggers);
                let fired = spec_fired(current, input, triggers).len() > 0;
                let level_spawn = next != current && next is Game && !old(self).level_built;
                let base_id = old(self).world.spec_next_id() + if level_spawn {
                    TRIGGER_VOLUMES as int
                } else {
                    0int
                };
                let player_after = if fired {
                    Option::<u64>::None
                } else {
                    old(self).world.spec_player()
                };
                let respawn = next is Game && player_after is None;
                &&& final(self).store.spec_current() == next
                &&& final(self).prev_state == next
                &&& final(self).menu_built == (old(self).menu_built || (next != current
                    && next is Menu))
                &&& final(self).level_built == (old(self).level_built || (next != current
                    && next is Game))
                &&& final(self).world.spec_triggers() == if level_spawn {
                    triggers + spec_id_range(old(self).world.spec_next_id(), TRIGGER_VOLUMES as nat)
                } else {
                    triggers
                }
                &&& final(self).world.spec_player() == if respawn {
                    Option::Some(base_id as u64)
                } else {
                    player_after
                }
                &&& final(self).scene@ == if next != current {
                    spec_scene_after_change(
                        old(self).scene@,
                        old(self).menu_built,
                        old(self).level_built,
                        next,
                    )
                } else {
                    old(self).scene@
                }
                &&& fx.sound == fired
                &&& fx.despawned == if fired {
                    old(self).world.spec_player()
                } else {
                    Option::<u64>::None
                }
                &&& fx.spawned_player == if respawn {
                    Option::Some(base_id as u64)
                } else {
                    Option::<u64>::None
                }
                &&& fx.exit == ((current is Menu || current is Win || current is Pause)
                    && input.quit_button is Pressed)
            }),
    {
        let current = self.store.get();
        let in_menus = matches!(current, GameState::Menu | GameState::Win | GameState::Pause);

        // Button systems run while any menu is on screen.
        let mut exit = false;
        if in_menus {
            start_button_step(input.start_button, &mut self.store);
            let (quit, _visual) = quit_button_step(input.quit_button);
            exit = quit;
        }

        // The pause toggle and the loader's handoff into the menu.
        pause_key_step(current, input.pause_just_pressed, &mut self.store);
        loading_step(current, input.assets_ready, &mut self.store);

        // The event pipeline: sensor to collision to game-over to request.
        if matches!(current, GameState::Game) {
            poll(input.sensor_contact, &mut self.collisions);
        }
        reduce(&self.world, &mut self.collisions, &mut self.game_overs);
        proof {
            assert(self.game_overs@ =~= spec_fired(
                current,
                input,
                old(self).world.spec_triggers(),
            ));
        }
        let terminal = resolve_game_over(&mut self.game_overs, &mut self.store, &mut self.world);

        // The one commit per tick.
        self.store.commit();
        let next = self.store.get();

        // Edge-triggered mode switch, with the lazy one-shot setups first
        // so freshly spawned cameras and panels are steered the same tick.
        if !(next == current) {
            if matches!(next, GameState::Menu) && !self.menu_built {
                self.scene.build_menus();
                self.menu_built = true;
            }
            if matches!(next, GameState::Game) && !self.level_built {
                self.scene.build_gameplay_camera();
                self.world.spawn_triggers(TRIGGER_VOLUMES);
                self.level_built = true;
            }
            proof {
                let v = old(self).scene@;
                let v1 = if next is Menu && !old(self).menu_built {
                    SceneView {
                        menu_camera: Option::Some(MenuCameraState { active: true }),
                        game_camera: v.game_camera,
                        panels: v.panels + seq![
                            Panel { shown_in: GameState::Menu, visible: true },
                            Panel { shown_in: GameState::Win, visible: false },
                            Panel { shown_in: GameState::Pause, visible: false },
                        ],
                    }
                } else {
                    v
                };
                let v2 = if next is Game && !old(self).level_built {
                    SceneView {
                        menu_camera: v1.menu_camera,
                        game_camera: Option::Some(
                            GameCameraState { active: true, cursor_lock: true },
                        ),
                        panels: v1.panels,
                    }
                } else {
                    v1
                };
                assert(self.scene@ =~= v2);
            }
            self.scene.apply_state(next);
            self.prev_state = next;
        }

        // The player spawn gate: (re)spawn whenever playing with no player.
        let mut spawned: Option<u64> = Option::None;
        if matches!(next, GameState::Game) && !self.world.has_player() {
            spawned = self.world.spawn_player();
        }

        TickEffects {
            sound: terminal.sound,
            despawned: terminal.despawned,
            spawned_player: spawned,
            exit,
        }
    }

    /// One fixed simulation step: map key state and camera orientation to
    /// the locomotion intent.  Runs only while playing; a missing player or
    /// camera makes the step a silent no-op for this tick.
    pub fn fixed_tick(&self, keys: KeyInput, camera_forward: Option<CamVector>) -> (r: Option<
        WalkIntent,
    >)
        ensures
            (r is Some) <==> (self.store.spec_current() is Game && self.world.spec_player() is Some
                && camera_forward is Some),
            self.store.spec_current() is Game && self.world.spec_player() is Some ==> r == (
            match camera_forward {
                Option::Some(cf) => Option::Some(spec_walk_intent(keys, cf)),
                Option::None => Option::None,
            }),
    {
        if !matches!(self.store.get(), GameState::Game) {
            return Option::None;
        }
        if !self.world.has_player() {
            return Option::None;
        }
        match camera_forward {
            Option::Some(cf) => Option::Some(control_step(keys, cf)),
            Option::None => Option::None,
        }
    }
}

} // verus!
