use card_table::animator::{move_cards, MoveState, MoveThisCard};
use card_table::cards::CardDraggable;
use card_table::geom::{Transform, Vec2, Vec3};
use card_table::world::{Entity, EntityRec, World};

fn spawn_proxy(world: &mut World, x: i64, y: i64, z: i64) -> Entity {
    let mut rec = EntityRec::blank(Transform::at(Vec3 { x, y, z }));
    rec.draggable = Some(CardDraggable { card: None });
    world.spawn(rec)
}

fn spawn_visual(world: &mut World, x: i64, y: i64) -> Entity {
    world.spawn(EntityRec::blank(Transform::at(Vec3 { x, y, z: 0 })))
}

fn directive(target: Entity, st: u128, et: u128, freqs: (i8, i8, i8)) -> MoveThisCard {
    MoveThisCard {
        target: Some(target),
        start_position: Vec2 { x: 0, y: 0 },
        moving: MoveState::StartMove,
        time_at_start_of_move: st,
        time_to_finish_move: et,
        rotation_freqs: freqs,
    }
}

fn state_of(world: &World, e: Entity) -> Option<MoveState> {
    world.directive_of(e).map(|d| d.moving)
}

#[test]
fn full_lifecycle_start_to_removed() {
    let mut world = World::new();
    let proxy = spawn_proxy(&mut world, 100, 0, 5);
    let visual = spawn_visual(&mut world, 0, 0);
    assert!(world.attach_directive(visual, directive(proxy, 1000, 2000, (0, 1, 0))));

    // StartMove: captures the current position as the tween start and
    // enters Moving without touching the transform.
    move_cards(&mut world, 1000);
    assert_eq!(state_of(&world, visual), Some(MoveState::Moving));
    let d = world.directive_of(visual).unwrap();
    assert_eq!(d.start_position, Vec2 { x: 0, y: 0 });
    assert_eq!(
        world.transform_of(visual).unwrap().translation,
        Vec3 { x: 0, y: 0, z: 0 }
    );

    // Mid-window: half way there, half a turn about y.
    move_cards(&mut world, 1500);
    let tx = world.transform_of(visual).unwrap();
    assert_eq!(tx.translation, Vec3 { x: 50, y: 0, z: 0 });
    assert_eq!(tx.rotation, Vec3 { x: 0, y: 180, z: 0 });
    assert_eq!(state_of(&world, visual), Some(MoveState::Moving));

    // End of the window: exactly on the target, spin completed, EndMove.
    move_cards(&mut world, 2000);
    let tx = world.transform_of(visual).unwrap();
    assert_eq!(tx.translation, Vec3 { x: 100, y: 0, z: 0 });
    assert_eq!(tx.rotation, Vec3 { x: 0, y: 0, z: 0 });
    assert_eq!(state_of(&world, visual), Some(MoveState::EndMove));

    // EndMove -> RemoveComponent, then the directive is gone the frame
    // after, and the entity keeps its last computed position.
    move_cards(&mut world, 2001);
    assert_eq!(state_of(&world, visual), Some(MoveState::RemoveComponent));
    move_cards(&mut world, 2002);
    assert_eq!(world.directive_of(visual), None);
    assert_eq!(
        world.transform_of(visual).unwrap().translation,
        Vec3 { x: 100, y: 0, z: 0 }
    );
}

#[test]
fn position_is_monotone_toward_a_fixed_target() {
    let mut world = World::new();
    let proxy = spawn_proxy(&mut world, 200, -100, 0);
    let visual = spawn_visual(&mut world, 0, 0);
    assert!(world.attach_directive(visual, directive(proxy, 1000, 2000, (0, 0, 0))));
    move_cards(&mut world, 1000);
    let mut prev_x = 0;
    let mut t = 1000u128;
    while t <= 2000 {
        move_cards(&mut world, t);
        let tx = world.transform_of(visual).unwrap();
        assert!(tx.translation.x >= prev_x);
        assert!(tx.translation.x <= 200);
        prev_x = tx.translation.x;
        t += 50;
    }
    assert_eq!(prev_x, 200);
}

#[test]
fn chases_the_target_live_position() {
    let mut world = World::new();
    let proxy = spawn_proxy(&mut world, 100, 0, 0);
    let visual = spawn_visual(&mut world, 0, 0);
    assert!(world.attach_directive(visual, directive(proxy, 1000, 2000, (0, 0, 0))));
    move_cards(&mut world, 1000);
    move_cards(&mut world, 1500);
    assert_eq!(world.transform_of(visual).unwrap().translation.x, 50);

    // The proxy moves mid-flight; the tween tracks its current position,
    // not a frozen snapshot.
    let idx = proxy.0;
    let mut rec = world.entities[idx];
    rec.transform.translation = Vec3 { x: 200, y: 0, z: 0 };
    world.entities[idx] = rec;
    move_cards(&mut world, 1750);
    assert_eq!(world.transform_of(visual).unwrap().translation.x, 150);
}

#[test]
fn stale_target_is_skipped_and_retried() {
    let mut world = World::new();
    let proxy = spawn_proxy(&mut world, 100, 0, 0);
    let visual = spawn_visual(&mut world, 0, 0);
    assert!(world.attach_directive(visual, directive(proxy, 1000, 2000, (0, 1, 0))));
    move_cards(&mut world, 1000);
    assert_eq!(state_of(&world, visual), Some(MoveState::Moving));

    // The target disappears mid-flight: the frame skips the entity and
    // leaves both state and transform alone rather than failing for good.
    assert!(world.despawn(proxy));
    move_cards(&mut world, 1500);
    assert_eq!(state_of(&world, visual), Some(MoveState::Moving));
    assert_eq!(
        world.transform_of(visual).unwrap().translation,
        Vec3 { x: 0, y: 0, z: 0 }
    );
}

#[test]
fn directive_without_target_never_starts() {
    let mut world = World::new();
    let visual = spawn_visual(&mut world, 0, 0);
    let mut d = directive(Entity(999), 1000, 2000, (0, 0, 0));
    d.target = None;
    assert!(world.attach_directive(visual, d));
    move_cards(&mut world, 1500);
    assert_eq!(state_of(&world, visual), Some(MoveState::StartMove));
}

#[test]
fn at_most_one_directive_per_entity() {
    let mut world = World::new();
    let proxy = spawn_proxy(&mut world, 10, 0, 0);
    let visual = spawn_visual(&mut world, 0, 0);
    assert!(world.attach_directive(visual, directive(proxy, 0, 500, (0, 0, 0))));
    // Re-attaching over an in-flight directive is refused.
    assert!(!world.attach_directive(visual, directive(proxy, 0, 800, (0, 0, 0))));
    let d = world.directive_of(visual).unwrap();
    assert_eq!(d.time_to_finish_move, 500);
}

#[test]
fn attach_validates_handle_and_window() {
    let mut world = World::new();
    let proxy = spawn_proxy(&mut world, 10, 0, 0);
    let visual = spawn_visual(&mut world, 0, 0);
    // Unknown handle.
    assert!(!world.attach_directive(Entity(99), directive(proxy, 0, 500, (0, 0, 0))));
    // Dead handle.
    let dead = spawn_visual(&mut world, 0, 0);
    assert!(world.despawn(dead));
    assert!(!world.attach_directive(dead, directive(proxy, 0, 500, (0, 0, 0))));
    // A window that ends before it starts is ill-formed.
    assert!(!world.attach_directive(visual, directive(proxy, 1000, 500, (0, 0, 0))));
    assert_eq!(world.directive_of(visual), None);
}

#[test]
fn detach_reports_success_and_absence() {
    let mut world = World::new();
    let proxy = spawn_proxy(&mut world, 10, 0, 0);
    let visual = spawn_visual(&mut world, 0, 0);
    assert!(world.attach_directive(visual, directive(proxy, 0, 500, (0, 0, 0))));
    assert!(world.detach_directive(visual));
    assert_eq!(world.directive_of(visual), None);
    assert!(!world.detach_directive(visual));
}

#[test]
fn a_target_carrying_a_directive_does_not_resolve() {
    let mut world = World::new();
    let proxy = spawn_proxy(&mut world, 100, 0, 0);
    let visual = spawn_visual(&mut world, 0, 0);
    // The proxy itself is given a directive, so it is no longer a valid
    // target for anyone.
    let other = spawn_proxy(&mut world, -50, 0, 0);
    assert!(world.attach_directive(proxy, directive(other, 0, 10000, (0, 0, 0))));
    assert!(world.attach_directive(visual, directive(proxy, 1000, 2000, (0, 0, 0))));
    move_cards(&mut world, 1500);
    assert_eq!(state_of(&world, visual), Some(MoveState::StartMove));
}

#[test]
fn zero_length_window_snaps_to_target() {
    let mut world = World::new();
    let proxy = spawn_proxy(&mut world, 77, -33, 0);
    let visual = spawn_visual(&mut world, 0, 0);
    assert!(world.attach_directive(visual, directive(proxy, 1000, 1000, (1, 1, 1))));
    move_cards(&mut world, 900);
    assert_eq!(state_of(&world, visual), Some(MoveState::Moving));
    move_cards(&mut world, 950);
    // The degenerate window divides by zero in the naive formula; here it
    // snaps straight to the target with no spin.
    let tx = world.transform_of(visual).unwrap();
    assert_eq!(tx.translation, Vec3 { x: 77, y: -33, z: 0 });
    assert_eq!(tx.rotation, Vec3 { x: 0, y: 0, z: 0 });
    move_cards(&mut world, 1000);
    assert_eq!(state_of(&world, visual), Some(MoveState::EndMove));
}

#[test]
fn dead_entities_are_not_animated() {
    let mut world = World::new();
    let proxy = spawn_proxy(&mut world, 100, 0, 0);
    let visual = spawn_visual(&mut world, 0, 0);
    assert!(world.attach_directive(visual, directive(proxy, 1000, 2000, (0, 0, 0))));
    move_cards(&mut world, 1000);
    assert!(world.despawn(visual));
    move_cards(&mut world, 1500);
    // The record still holds the directive, untouched, but the dead entity
    // is invisible to every lookup.
    assert_eq!(world.directive_of(visual), None);
    assert_eq!(world.transform_of(visual), None);
}
