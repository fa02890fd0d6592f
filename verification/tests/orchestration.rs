//! End-to-end tick scenarios and the transition controller.

use fissile_core::events::{EventQueue, GameOver};
use fissile_core::state::{GameState, StateStore};
use fissile_core::tick::{GameApp, TickInput};
use fissile_core::transition::resolve_game_over;
use fissile_core::ui::Interaction;
use fissile_core::world::World;

fn quiet_tick() -> TickInput {
    TickInput {
        assets_ready: true,
        start_button: Interaction::Idle,
        quit_button: Interaction::Idle,
        pause_just_pressed: false,
        sensor_contact: None,
    }
}

fn app_in_menu() -> GameApp {
    let mut app = GameApp::new();
    app.update_tick(quiet_tick());
    assert_eq!(app.store.get(), GameState::Menu);
    app
}

fn app_in_game() -> GameApp {
    let mut app = app_in_menu();
    app.update_tick(TickInput { start_button: Interaction::Pressed, ..quiet_tick() });
    assert_eq!(app.store.get(), GameState::Game);
    app
}

fn panel_visible(app: &GameApp, state: GameState) -> bool {
    app.scene
        .panels
        .iter()
        .find(|p| p.shown_in == state)
        .expect("panel exists")
        .visible
}

#[test]
fn transition_commits_last_enqueued_target_and_flushes() {
    let mut game_overs: EventQueue<GameOver> = EventQueue::new();
    let mut store = StateStore::new();
    let mut world = World::new();
    world.spawn_player();
    game_overs.push(GameOver { target: GameState::Win });
    game_overs.push(GameOver { target: GameState::Menu });
    let fx = resolve_game_over(&mut game_overs, &mut store, &mut world);
    store.commit();
    assert_eq!(store.get(), GameState::Menu);
    assert!(game_overs.is_empty());
    assert!(fx.sound);
    assert!(!world.has_player());
}

#[test]
fn transition_with_empty_queue_is_a_no_op() {
    let mut game_overs: EventQueue<GameOver> = EventQueue::new();
    let mut store = StateStore::new();
    let mut world = World::new();
    let fx = resolve_game_over(&mut game_overs, &mut store, &mut world);
    store.commit();
    assert_eq!(store.get(), GameState::Loading);
    assert!(!fx.sound);
    assert_eq!(fx.despawned, None);
}

#[test]
fn transition_tolerates_missing_player() {
    let mut game_overs: EventQueue<GameOver> = EventQueue::new();
    let mut store = StateStore::new();
    let mut world = World::new();
    game_overs.push(GameOver { target: GameState::Win });
    let fx = resolve_game_over(&mut game_overs, &mut store, &mut world);
    store.commit();
    assert_eq!(store.get(), GameState::Win);
    assert!(fx.sound);
    assert_eq!(fx.despawned, None);
}

#[test]
fn loading_waits_for_assets() {
    let mut app = GameApp::new();
    let fx = app.update_tick(TickInput { assets_ready: false, ..quiet_tick() });
    assert_eq!(app.store.get(), GameState::Loading);
    assert!(!fx.sound);
    let fx = app.update_tick(quiet_tick());
    assert_eq!(app.store.get(), GameState::Menu);
    assert!(!fx.exit);
}

#[test]
fn menu_start_button_launches_game() {
    let mut app = app_in_menu();
    assert!(panel_visible(&app, GameState::Menu));
    let fx = app.update_tick(TickInput { start_button: Interaction::Pressed, ..quiet_tick() });
    assert_eq!(app.store.get(), GameState::Game);
    assert!(app.scene.game_camera.expect("gameplay camera spawned").active);
    assert!(!app.scene.menu_camera.expect("menu camera spawned").active);
    assert!(app.scene.game_camera.unwrap().cursor_lock);
    assert_eq!(fx.spawned_player, app.world.player_id());
    assert!(app.world.has_player());
}

#[test]
fn win_trigger_contact_ends_game_in_win() {
    let mut app = app_in_game();
    let player = app.world.player_id().unwrap();
    let trigger = app.world.trigger_ids()[0];
    let fx = app.update_tick(TickInput { sensor_contact: Some(trigger), ..quiet_tick() });
    assert_eq!(app.store.get(), GameState::Win);
    assert!(fx.sound);
    assert_eq!(fx.despawned, Some(player));
    assert!(!app.world.has_player());
    assert!(panel_visible(&app, GameState::Win));
    assert!(!panel_visible(&app, GameState::Menu));
    assert!(!panel_visible(&app, GameState::Pause));
    assert!(!app.scene.game_camera.unwrap().active);
}

#[test]
fn non_trigger_contact_keeps_playing() {
    let mut app = app_in_game();
    let fx = app.update_tick(TickInput { sensor_contact: Some(987_654), ..quiet_tick() });
    assert_eq!(app.store.get(), GameState::Game);
    assert!(!fx.sound);
    assert!(app.world.has_player());
}

#[test]
fn escape_pauses_and_unpauses() {
    let mut app = app_in_game();
    app.update_tick(TickInput { pause_just_pressed: true, ..quiet_tick() });
    assert_eq!(app.store.get(), GameState::Pause);
    assert!(!app.scene.game_camera.unwrap().active);
    assert!(panel_visible(&app, GameState::Pause));
    app.update_tick(TickInput { pause_just_pressed: true, ..quiet_tick() });
    assert_eq!(app.store.get(), GameState::Game);
    assert!(app.scene.game_camera.unwrap().active);
    assert!(!panel_visible(&app, GameState::Pause));
}

#[test]
fn play_again_respawns_the_player() {
    let mut app = app_in_game();
    let trigger = app.world.trigger_ids()[0];
    app.update_tick(TickInput { sensor_contact: Some(trigger), ..quiet_tick() });
    assert_eq!(app.store.get(), GameState::Win);
    assert!(!app.world.has_player());
    let fx = app.update_tick(TickInput { start_button: Interaction::Pressed, ..quiet_tick() });
    assert_eq!(app.store.get(), GameState::Game);
    assert!(fx.spawned_player.is_some());
    assert!(app.world.has_player());
    assert_ne!(fx.spawned_player, fx.despawned);
}

#[test]
fn start_button_is_ignored_outside_the_menus() {
    let mut app = GameApp::new();
    let fx = app.update_tick(TickInput {
        assets_ready: false,
        start_button: Interaction::Pressed,
        ..quiet_tick()
    });
    assert_eq!(app.store.get(), GameState::Loading);
    assert!(!fx.exit);
}

#[test]
fn menu_tick_activates_the_menu_camera_only() {
    let app = app_in_menu();
    assert!(app.scene.menu_camera.expect("menu camera spawned").active);
    assert!(app.scene.game_camera.is_none());
    assert_eq!(app.scene.panels.len(), 3);
}

#[test]
fn quit_button_requests_exit() {
    let mut app = app_in_menu();
    let fx = app.update_tick(TickInput { quit_button: Interaction::Pressed, ..quiet_tick() });
    assert!(fx.exit);
    let fx = app.update_tick(quiet_tick());
    assert!(!fx.exit);
}

#[test]
fn level_setup_runs_once() {
    let mut app = app_in_game();
    assert_eq!(app.world.trigger_count(), 9);
    app.update_tick(TickInput { pause_just_pressed: true, ..quiet_tick() });
    app.update_tick(TickInput { pause_just_pressed: true, ..quiet_tick() });
    assert_eq!(app.world.trigger_count(), 9);
    assert_eq!(app.scene.panels.len(), 3);
}
