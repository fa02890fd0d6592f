//! Event pipeline: watcher, reducer, channels and the world model.

use fissile_core::events::{CollisionWith, EventQueue, GameOver};
use fissile_core::reducer::reduce;
use fissile_core::state::GameState;
use fissile_core::watcher::poll;
use fissile_core::world::World;

#[test]
fn collision_with_non_trigger_produces_no_game_over() {
    let mut world = World::new();
    let trigger = world.spawn_win_trigger();
    let ground = trigger + 1000;
    let mut collisions: EventQueue<CollisionWith> = EventQueue::new();
    let mut game_overs: EventQueue<GameOver> = EventQueue::new();
    collisions.push(CollisionWith { entity: ground });
    reduce(&world, &mut collisions, &mut game_overs);
    assert_eq!(game_overs.len(), 0);
    assert!(collisions.is_empty());
}

#[test]
fn collision_with_trigger_produces_exactly_one_win() {
    let mut world = World::new();
    let trigger = world.spawn_win_trigger();
    let mut collisions: EventQueue<CollisionWith> = EventQueue::new();
    let mut game_overs: EventQueue<GameOver> = EventQueue::new();
    collisions.push(CollisionWith { entity: trigger });
    reduce(&world, &mut collisions, &mut game_overs);
    assert_eq!(game_overs.len(), 1);
    assert_eq!(*game_overs.get(0), GameOver { target: GameState::Win });
    assert!(collisions.is_empty());
}

#[test]
fn reducer_emits_per_winning_collision_in_order() {
    let mut world = World::new();
    let t1 = world.spawn_win_trigger();
    let t2 = world.spawn_win_trigger();
    let mut collisions: EventQueue<CollisionWith> = EventQueue::new();
    let mut game_overs: EventQueue<GameOver> = EventQueue::new();
    collisions.push(CollisionWith { entity: t1 });
    collisions.push(CollisionWith { entity: 99 });
    collisions.push(CollisionWith { entity: t2 });
    reduce(&world, &mut collisions, &mut game_overs);
    assert_eq!(game_overs.len(), 2);
    assert_eq!(*game_overs.get(0), GameOver { target: GameState::Win });
    assert_eq!(*game_overs.get(1), GameOver { target: GameState::Win });
}

#[test]
fn watcher_emits_one_event_per_contact() {
    let mut collisions: EventQueue<CollisionWith> = EventQueue::new();
    poll(Some(7), &mut collisions);
    assert_eq!(collisions.len(), 1);
    assert_eq!(*collisions.get(0), CollisionWith { entity: 7 });
    poll(None, &mut collisions);
    assert_eq!(collisions.len(), 1);
}

#[test]
fn event_queue_last_write_and_clear() {
    let mut q: EventQueue<GameOver> = EventQueue::new();
    assert!(q.is_empty());
    assert_eq!(q.last(), None);
    q.push(GameOver { target: GameState::Win });
    q.push(GameOver { target: GameState::Menu });
    assert_eq!(q.len(), 2);
    assert_eq!(q.last(), Some(GameOver { target: GameState::Menu }));
    q.clear();
    assert!(q.is_empty());
}

#[test]
fn world_keeps_player_a_singleton() {
    let mut world = World::new();
    let first = world.spawn_player();
    assert!(first.is_some());
    let second = world.spawn_player();
    assert_eq!(second, None);
    assert_eq!(world.player_id(), first);
}

#[test]
fn world_tolerates_despawning_missing_player() {
    let mut world = World::new();
    assert_eq!(world.despawn_player(), None);
    let id = world.spawn_player().unwrap();
    assert_eq!(world.despawn_player(), Some(id));
    assert!(!world.has_player());
}

#[test]
fn win_trigger_classification_is_membership() {
    let mut world = World::new();
    let t = world.spawn_win_trigger();
    let p = world.spawn_player().unwrap();
    assert!(world.is_win_trigger(t));
    assert!(!world.is_win_trigger(p));
    assert!(!world.is_win_trigger(12345));
    assert_eq!(world.trigger_count(), 1);
    assert_eq!(world.trigger_ids()[0], t);
}
