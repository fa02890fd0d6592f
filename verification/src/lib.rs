//! Game-state and event orchestration core for a small 3D exploration game.
//!
//! A player-controlled sphere explores a ground plane dotted with trigger
//! volumes; touching any trigger ends the game in a win state.  Rendering,
//! audio, physics and UI layout are external collaborators; this crate holds
//! the part worth verifying: the finite state machine that gates which
//! systems run, the single-tick event channels that carry collision and
//! game-over signals, the reducer that turns tagged collisions into exactly
//! one committed transition, the camera/menu mode switcher, and the mapping
//! from raw key state to a movement intent for the locomotion solver.
//!
//! All geometry handed to the locomotion solver is carried in thousandths of
//! a world unit (milliunits), so that the whole pipeline stays in integer
//! arithmetic; the embedding shell converts to the solver's float vectors at
//! the boundary.

pub mod control;
pub mod events;
pub mod mode;
pub mod reducer;
pub mod state;
pub mod tick;
pub mod transition;
pub mod ui;
pub mod watcher;
pub mod world;
