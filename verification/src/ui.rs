//! Button and key handling: the thin mapping from widget interaction state
//! and key edges onto state-store requests.
//!
//! The UI collaborator renders the widgets and reports each button's
//! interaction state; the core's whole job here is to map `Pressed` on a
//! start button to a `Game` request, `Pressed` on a quit button to a
//! process-exit request, and the pause key to the `Game`/`Pause` toggle.
//! Button colors are visual feedback only; the core picks one of three
//! visual classes and the shell maps the class to concrete colors.

use crate::state::GameState;
use crate::state::StateStore;
use vstd::prelude::*;

verus! {

/// A button widget's interaction state, as the UI collaborator reports it.
#[derive(Clone, Copy, PartialEq, Eq, Structural, Debug)]
pub enum Interaction {
    Pressed,
    Hovered,
    Idle,
}

/// The visual class a button should show for an interaction state.
#[derive(Clone, Copy, PartialEq, Eq, Structural, Debug)]
pub enum ButtonVisual {
    Pressed,
    Hovered,
    Normal,
}

/// The visual feedback for an interaction state: each interaction maps to
/// its own class.
pub fn button_visual(interaction: Interaction) -> (r: ButtonVisual)
    ensures
        r == (match interaction {
            Interaction::Pressed => ButtonVisual::Pressed,
            Interaction::Hovered => ButtonVisual::Hovered,
            Interaction::Idle => ButtonVisual::Normal,
        }),
{
    match interaction {
        Interaction::Pressed => ButtonVisual::Pressed,
        Interaction::Hovered => ButtonVisual::Hovered,
        Interaction::Idle => ButtonVisual::Normal,
    }
}

/// The start button ("Start Game", "Play Again", "Resume"): a press
/// requests the `Game` state; hovering or nothing requests nothing.
pub fn start_button_step(interaction: Interaction, store: &mut StateStore) -> (r: ButtonVisual)
    ensures
        final(store).spec_current() == old(store).spec_current(),
        interaction is Pressed ==> *final(store) == old(store).spec_after_request(
            GameState::Game,
        ),
        interaction is Pressed ==> final(store).spec_pending() == Option::Some(GameState::Game),
        !(interaction is Pressed) ==> *final(store) == *old(store),
        r == (match interaction {
            Interaction::Pressed => ButtonVisual::Pressed,
            Interaction::Hovered => ButtonVisual::Hovered,
            Interaction::Idle => ButtonVisual::Normal,
        }),
{
    if matches!(interaction, Interaction::Pressed) {
        store.request(GameState::Game);
    }
    button_visual(interaction)
}

/// The quit button: a press asks the shell to exit the process; the core
/// itself changes nothing.
pub fn quit_button_step(interaction: Interaction) -> (r: (bool, ButtonVisual))
    ensures
        r.0 == (interaction is Pressed),
        r.1 == (match interaction {
            Interaction::Pressed => ButtonVisual::Pressed,
            Interaction::Hovered => ButtonVisual::Hovered,
            Interaction::Idle => ButtonVisual::Normal,
        }),
{
    (matches!(interaction, Interaction::Pressed), button_visual(interaction))
}

/// The pause toggle: while playing, the pause key requests `Pause`; while
/// paused, the same key requests `Game`; in any other state, or without a
/// fresh key press, nothing is requested.
pub fn pause_key_step(current: GameState, pause_just_pressed: bool, store: &mut StateStore)
    ensures
        final(store).spec_current() == old(store).spec_current(),
        (pause_just_pressed && current is Game) ==> *final(store) == old(
            store,
        ).spec_after_request(GameState::Pause),
        (pause_just_pressed && current is Game) ==> final(store).spec_pending() == Option::Some(
            GameState::Pause,
        ),
        (pause_just_pressed && current is Pause) ==> *final(store) == old(
            store,
        ).spec_after_request(GameState::Game),
        (pause_just_pressed && current is Pause) ==> final(store).spec_pending() == Option::Some(
            GameState::Game,
        ),
        !(pause_just_pressed && (current is Game || current is Pause)) ==> *final(store) == *old(
            store,
        ),
{
    if pause_just_pressed {
        match current {
            GameState::Game => store.request(GameState::Pause),
            GameState::Pause => store.request(GameState::Game),
            _ => {},
        }
    }
}

/// The asset loader's handoff: the first tick all asset collections report
/// loaded while still in `Loading`, request the menu.  `Loading` is never
/// requested by anything, so it is never re-entered once left.
pub fn loading_step(current: GameState, assets_ready: bool, store: &mut StateStore)
    ensures
        final(store).spec_current() == old(store).spec_current(),
        (assets_ready && current is Loading) ==> *final(store) == old(store).spec_after_request(
            GameState::Menu,
        ),
        (assets_ready && current is Loading) ==> final(store).spec_pending() == Option::Some(
            GameState::Menu,
        ),
        !(assets_ready && current is Loading) ==> *final(store) == *old(store),
{
    if assets_ready && matches!(current, GameState::Loading) {
        store.request(GameState::Menu);
    }
}

} // verus!
