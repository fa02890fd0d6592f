//! Control mapping, facing, mode switching and button visuals.

use fissile_core::control::{
    control_step, desired_facing, desired_velocity, CamVector, FacingDir, KeyInput,
    FLOAT_HEIGHT_MILLI, JUMP_HEIGHT_MILLI, SPEED_DIAG_MILLI, SPEED_MILLI,
};
use fissile_core::mode::{camera_flags, Panel, Scene};
use fissile_core::state::GameState;
use fissile_core::tick::{GameApp, TickInput};
use fissile_core::ui::{button_visual, ButtonVisual, Interaction};

fn no_keys() -> KeyInput {
    KeyInput { forward: false, back: false, left: false, right: false, jump: false }
}

#[test]
fn diagonal_input_is_normalized_not_doubled() {
    let v = desired_velocity(KeyInput { forward: true, right: true, ..no_keys() });
    assert_eq!(v.forward_milli, SPEED_DIAG_MILLI);
    assert_eq!(v.right_milli, SPEED_DIAG_MILLI);
    let mag2 = i64::from(v.forward_milli).pow(2) + i64::from(v.right_milli).pow(2);
    let speed2 = i64::from(SPEED_MILLI).pow(2);
    let just_under2 = i64::from(SPEED_MILLI - 1).pow(2);
    assert!(mag2 <= speed2 && mag2 > just_under2);
    assert!(mag2 < 2 * speed2);
}

#[test]
fn single_axis_input_gets_full_speed() {
    let v = desired_velocity(KeyInput { forward: true, ..no_keys() });
    assert_eq!((v.forward_milli, v.right_milli), (SPEED_MILLI, 0));
    let v = desired_velocity(KeyInput { left: true, ..no_keys() });
    assert_eq!((v.forward_milli, v.right_milli), (0, -SPEED_MILLI));
}

#[test]
fn no_movement_keys_yield_the_zero_vector() {
    let v = desired_velocity(no_keys());
    assert_eq!((v.forward_milli, v.right_milli), (0, 0));
    let v = desired_velocity(KeyInput { forward: true, back: true, ..no_keys() });
    assert_eq!((v.forward_milli, v.right_milli), (0, 0));
}

#[test]
fn camera_looking_straight_up_requests_no_facing() {
    let r = desired_facing(CamVector { x_milli: 0, y_milli: 1000, z_milli: 0 });
    assert_eq!(r, None);
    let r = desired_facing(CamVector { x_milli: 300, y_milli: 900, z_milli: -200 });
    assert_eq!(r, Some(FacingDir { x_milli: 300, z_milli: -200 }));
}

#[test]
fn control_step_bundles_the_whole_intent() {
    let intent = control_step(
        KeyInput { forward: true, jump: true, ..no_keys() },
        CamVector { x_milli: 0, y_milli: 0, z_milli: -1000 },
    );
    assert_eq!(intent.velocity.forward_milli, SPEED_MILLI);
    assert_eq!(intent.facing, Some(FacingDir { x_milli: 0, z_milli: -1000 }));
    assert_eq!(intent.float_height_milli, FLOAT_HEIGHT_MILLI);
    assert_eq!(intent.jump_height_milli, Some(JUMP_HEIGHT_MILLI));
    let intent = control_step(no_keys(), CamVector { x_milli: 0, y_milli: 1000, z_milli: 0 });
    assert_eq!(intent.jump_height_milli, None);
    assert_eq!(intent.facing, None);
}

#[test]
fn fixed_tick_is_gated_on_state_player_and_camera() {
    let mut app = GameApp::new();
    let cam = Some(CamVector { x_milli: 0, y_milli: 0, z_milli: -1000 });
    assert_eq!(app.fixed_tick(no_keys(), cam), None);
    app.update_tick(TickInput {
        assets_ready: true,
        start_button: Interaction::Idle,
        quit_button: Interaction::Idle,
        pause_just_pressed: false,
        sensor_contact: None,
    });
    app.update_tick(TickInput {
        assets_ready: true,
        start_button: Interaction::Pressed,
        quit_button: Interaction::Idle,
        pause_just_pressed: false,
        sensor_contact: None,
    });
    assert_eq!(app.store.get(), GameState::Game);
    assert_eq!(app.fixed_tick(no_keys(), None), None);
    let intent = app.fixed_tick(no_keys(), cam).expect("playing with player and camera");
    assert_eq!((intent.velocity.forward_milli, intent.velocity.right_milli), (0, 0));
}

#[test]
fn mode_switch_twice_changes_nothing() {
    let mut scene = Scene::new();
    scene.build_menus();
    scene.build_gameplay_camera();
    scene.apply_state(GameState::Game);
    let once = scene.clone();
    scene.apply_state(GameState::Game);
    assert_eq!(scene, once);
}

#[test]
fn camera_flags_follow_the_state() {
    for s in [
        GameState::Loading,
        GameState::Menu,
        GameState::Game,
        GameState::Pause,
        GameState::Win,
    ] {
        let f = camera_flags(s);
        assert_eq!(f.gameplay_active, s == GameState::Game);
        assert_eq!(f.menu_active, !f.gameplay_active);
        assert_eq!(f.cursor_lock, f.gameplay_active);
    }
}

#[test]
fn panel_visibility_tracks_its_state() {
    let mut scene = Scene::new();
    scene.build_menus();
    scene.apply_state(GameState::Pause);
    let shown: Vec<&Panel> = scene.panels.iter().filter(|p| p.visible).collect();
    assert_eq!(shown.len(), 1);
    assert_eq!(shown[0].shown_in, GameState::Pause);
}

#[test]
fn button_visual_tracks_interaction() {
    assert_eq!(button_visual(Interaction::Pressed), ButtonVisual::Pressed);
    assert_eq!(button_visual(Interaction::Hovered), ButtonVisual::Hovered);
    assert_eq!(button_visual(Interaction::Idle), ButtonVisual::Normal);
}
