//! The mode switcher: on every state change it decides camera activity,
//! cursor lock and menu-panel visibility for the new state.
//!
//! The decision is a pure function of the new state: only `Game` activates
//! the gameplay camera and the cursor lock, every other state activates the
//! menu camera instead, and a panel is visible exactly when the state it
//! belongs to is current.  The scheduler invokes this edge-triggered — once
//! per tick in which the state changed — and a second application with no
//! intervening change is a proved no-op.

use crate::state::GameState;
use vstd::prelude::*;

verus! {

/// Camera and cursor decisions for one state.
#[derive(Clone, Copy, PartialEq, Eq, Structural, Debug)]
pub struct CameraFlags {
    pub gameplay_active: bool,
    pub menu_active: bool,
    pub cursor_lock: bool,
}

/// The camera configuration a state calls for: gameplay camera and cursor
/// lock in `Game`, menu camera everywhere else.
pub open spec fn spec_camera_flags(s: GameState) -> CameraFlags {
    CameraFlags { gameplay_active: s is Game, menu_active: !(s is Game), cursor_lock: s is Game }
}

/// Compute the camera configuration for `s`.
pub fn camera_flags(s: GameState) -> (r: CameraFlags)
    ensures
        r == spec_camera_flags(s),
        r.gameplay_active == (s is Game),
        r.menu_active == !r.gameplay_active,
        r.cursor_lock == r.gameplay_active,
{
    let game = matches!(s, GameState::Game);
    CameraFlags { gameplay_active: game, menu_active: !game, cursor_lock: game }
}

/// The menu camera's mutable state, as far as the core steers it.
#[derive(Clone, Copy, PartialEq, Eq, Structural, Debug)]
pub struct MenuCameraState {
    pub active: bool,
}

/// The gameplay (orbit) camera's mutable state, as far as the core steers
/// it: the core only flips its active flag and its cursor-lock flag.
#[derive(Clone, Copy, PartialEq, Eq, Structural, Debug)]
pub struct GameCameraState {
    pub active: bool,
    pub cursor_lock: bool,
}

/// One menu panel: it belongs to a state and is visible exactly when that
/// state is current.
#[derive(Clone, Copy, PartialEq, Eq, Structural, Debug)]
pub struct Panel {
    pub shown_in: GameState,
    pub visible: bool,
}

/// Everything in the scene the mode switcher touches.  A missing camera is
/// tolerated: the corresponding flag simply is not steered this tick.
#[derive(Clone, PartialEq, Debug)]
pub struct Scene {
    pub menu_camera: Option<MenuCameraState>,
    pub game_camera: Option<GameCameraState>,
    pub panels: Vec<Panel>,
}

/// The mathematical shadow of a [`Scene`].
#[verifier::ext_equal]
pub ghost struct SceneView {
    pub menu_camera: Option<MenuCameraState>,
    pub game_camera: Option<GameCameraState>,
    pub panels: Seq<Panel>,
}

impl View for Scene {
    type V = SceneView;

    closed spec fn view(&self) -> SceneView {
        SceneView {
            menu_camera: self.menu_camera,
            game_camera: self.game_camera,
            panels: self.panels@,
        }
    }
}

/// `p` after re-evaluating its visibility against the current state `s`.
pub open spec fn spec_panel_applied(p: Panel, s: GameState) -> Panel {
    Panel { shown_in: p.shown_in, visible: p.shown_in == s }
}

/// The scene after the mode switcher re-evaluates it for state `s`.
pub open spec fn spec_applied(v: SceneView, s: GameState) -> SceneView {
    SceneView {
        menu_camera: match v.menu_camera {
            Option::Some(_) => Option::Some(
                MenuCameraState { active: spec_camera_flags(s).menu_active },
            ),
            Option::None => Option::None,
        },
        game_camera: match v.game_camera {
            Option::Some(_) => Option::Some(
                GameCameraState {
                    active: spec_camera_flags(s).gameplay_active,
                    cursor_lock: spec_camera_flags(s).cursor_lock,
                },
            ),
            Option::None => Option::None,
        },
        panels: v.panels.map_values(|p: Panel| spec_panel_applied(p, s)),
    }
}

impl Scene {
    /// A scene with nothing spawned yet.
    pub fn new() -> (r: Scene)
        ensures
            r@.menu_camera == Option::<MenuCameraState>::None,
            r@.game_camera == Option::<GameCameraState>::None,
            r@.panels == Seq::<Panel>::empty(),
    {
        Scene { menu_camera: Option::None, game_camera: Option::None, panels: Vec::new() }
    }

    /// Lazy one-shot menu setup, run the first tick `Menu` is entered:
    /// spawn the menu camera and the three panels — the main menu visible,
    /// the win and pause panels hidden until their state arrives.
    pub fn build_menus(&mut self)
        ensures
            final(self)@.menu_camera == Option::Some(MenuCameraState { active: true }),
            final(self)@.game_camera == old(self)@.game_camera,
            final(self)@.panels == old(self)@.panels + seq![
                Panel { shown_in: GameState::Menu, visible: true },
                Panel { shown_in: GameState::Win, visible: false },
                Panel { shown_in: GameState::Pause, visible: false },
            ],
    {
        self.menu_camera = Option::Some(MenuCameraState { active: true });
        self.panels.push(Panel { shown_in: GameState::Menu, visible: true });
        self.panels.push(Panel { shown_in: GameState::Win, visible: false });
        self.panels.push(Panel { shown_in: GameState::Pause, visible: false });
        proof {
            assert(self@.panels =~= old(self)@.panels + seq![
                Panel { shown_in: GameState::Menu, visible: true },
                Panel { shown_in: GameState::Win, visible: false },
                Panel { shown_in: GameState::Pause, visible: false },
            ]);
        }
    }

    /// Lazy one-shot gameplay-camera setup, run the first tick `Game` is
    /// entered.  The camera spawns active with the cursor locked; the mode
    /// switcher re-evaluates both flags the same tick.
    pub fn build_gameplay_camera(&mut self)
        ensures
            final(self)@.game_camera == Option::Some(
                GameCameraState { active: true, cursor_lock: true },
            ),
            final(self)@.menu_camera == old(self)@.menu_camera,
            final(self)@.panels == old(self)@.panels,
    {
        self.game_camera = Option::Some(GameCameraState { active: true, cursor_lock: true });
    }

    /// Re-evaluate camera activity, cursor lock and panel visibility for
    /// the (newly committed) state `s`.
    pub fn apply_state(&mut self, s: GameState)
        ensures
            final(self)@ == spec_applied(old(self)@, s),
    {
        let flags = camera_flags(s);
        match &mut self.menu_camera {
            Option::Some(cam) => {
                cam.active = flags.menu_active;
            },
            Option::None => {},
        }
        match &mut self.game_camera {
            Option::Some(cam) => {
                cam.active = flags.gameplay_active;
                cam.cursor_lock = flags.cursor_lock;
            },
            Option::None => {},
        }
        let n = self.panels.len();
        let ghost orig = self.panels@;
        let ghost mcam = self@.menu_camera;
        let ghost gcam = self@.game_camera;
        let mut i: usize = 0;
        while i < n
            invariant
                n == self.panels@.len(),
                n == orig.len(),
                0 <= i <= n,
                self@.menu_camera == mcam,
                self@.game_camera == gcam,
                forall|j: int| 0 <= j < i ==> self.panels@[j] == spec_panel_applied(orig[j], s),
                forall|j: int| i <= j < n ==> self.panels@[j] == orig[j],
            decreases n - i,
        {
            let shown_in = self.panels[i].shown_in;
            self.panels[i].visible = shown_in == s;
            i = i + 1;
        }
        proof {
            assert(self@.panels =~= orig.map_values(|p: Panel| spec_panel_applied(p, s)));
            assert(self@ =~= spec_applied(old(self)@, s));
        }
    }
}

/// Idempotence of the mode switch: re-evaluating a scene for the same state
/// twice gives exactly the scene of the first evaluation, so a second call
/// with no intervening state change re-toggles nothing.
pub proof fn lemma_mode_switch_idempotent(v: SceneView, s: GameState)
    ensures
        spec_applied(spec_applied(v, s), s) == spec_applied(v, s),
{
    assert(spec_applied(spec_applied(v, s), s).panels =~= spec_applied(v, s).panels);
    assert(spec_applied(spec_applied(v, s), s) =~= spec_applied(v, s));
}

} // verus!
