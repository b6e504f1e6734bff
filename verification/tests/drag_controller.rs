use card_table::animator::MoveState;
use card_table::cards::CardDraggable;
use card_table::drag::{drag, mouse_input, Dragging, MousePosition};
use card_table::geom::{Transform, Vec2, Vec3};
use card_table::world::{Entity, EntityRec, World};

fn spawn_proxy(world: &mut World, x: i64, y: i64, z: i64, card: Option<Entity>) -> Entity {
    let mut rec = EntityRec::blank(Transform::at(Vec3 { x, y, z }));
    rec.draggable = Some(CardDraggable { card });
    world.spawn(rec)
}

fn spawn_visual(world: &mut World) -> Entity {
    world.spawn(EntityRec::blank(Transform::at(Vec3 { x: 0, y: 0, z: 0 })))
}

fn at(x: i64, y: i64) -> MousePosition {
    MousePosition(Vec2 { x, y })
}

#[test]
fn press_inside_one_rectangle_grabs_that_proxy() {
    let mut world = World::new();
    let visual = spawn_visual(&mut world);
    let proxy = spawn_proxy(&mut world, 0, 0, 2, Some(visual));
    let mut state = Dragging::cleared();
    mouse_input(&mut world, &mut state, &at(10, 5), true, false, 0);
    assert_eq!(state.draggable, Some(proxy));
    assert_eq!(state.card_id, Some(proxy));
    assert_eq!(state.offset, Vec2 { x: 10, y: 5 });
    assert_eq!(state.card_start_position, Vec2 { x: 0, y: 0 });
    assert_eq!(state.card_draggable.card, Some(visual));
}

#[test]
fn press_on_the_rectangle_border_still_hits() {
    let mut world = World::new();
    let proxy = spawn_proxy(&mut world, 0, 0, 0, None);
    let mut state = Dragging::cleared();
    // The hit rectangle spans half the card size each way: 26 by 35.
    mouse_input(&mut world, &mut state, &at(26, -35), true, false, 0);
    assert_eq!(state.draggable, Some(proxy));
}

#[test]
fn press_outside_every_rectangle_changes_nothing() {
    let mut world = World::new();
    let _proxy = spawn_proxy(&mut world, 0, 0, 0, None);
    let mut state = Dragging::cleared();
    mouse_input(&mut world, &mut state, &at(27, 0), true, false, 0);
    assert_eq!(state.draggable, None);
    assert_eq!(state.card_id, None);
    mouse_input(&mut world, &mut state, &at(200, 200), true, false, 0);
    assert_eq!(state.draggable, None);
}

#[test]
fn overlapping_hits_prefer_the_farthest_centre() {
    let mut world = World::new();
    let a = spawn_proxy(&mut world, 0, 0, 0, None);
    let b = spawn_proxy(&mut world, 20, 0, 0, None);

    // Pointer close to a's centre, far from b's: b wins.
    let mut state = Dragging::cleared();
    mouse_input(&mut world, &mut state, &at(5, 0), true, false, 0);
    assert_eq!(state.draggable, Some(b));

    // Pointer close to b's centre, far from a's: a wins.
    let mut state = Dragging::cleared();
    mouse_input(&mut world, &mut state, &at(18, 0), true, false, 0);
    assert_eq!(state.draggable, Some(a));
}

#[test]
fn equal_distances_prefer_the_later_handle() {
    let mut world = World::new();
    let _a = spawn_proxy(&mut world, 0, 0, 0, None);
    let b = spawn_proxy(&mut world, 10, 0, 0, None);
    let mut state = Dragging::cleared();
    mouse_input(&mut world, &mut state, &at(5, 0), true, false, 0);
    assert_eq!(state.draggable, Some(b));
}

#[test]
fn drag_follows_pointer_at_recorded_offset_preserving_depth() {
    let mut world = World::new();
    let proxy = spawn_proxy(&mut world, 0, 0, 7, None);
    let mut state = Dragging::cleared();
    mouse_input(&mut world, &mut state, &at(10, 5), true, false, 0);

    drag(&mut world, &state, &at(-40, 20));
    let tx = world.transform_of(proxy).unwrap();
    assert_eq!(tx.translation, Vec3 { x: -50, y: 15, z: 7 });

    drag(&mut world, &state, &at(300, -300));
    let tx = world.transform_of(proxy).unwrap();
    assert_eq!(tx.translation, Vec3 { x: 290, y: -305, z: 7 });
}

#[test]
fn drag_without_grab_is_a_noop() {
    let mut world = World::new();
    let proxy = spawn_proxy(&mut world, 1, 2, 3, None);
    let state = Dragging::cleared();
    drag(&mut world, &state, &at(500, 500));
    assert_eq!(
        world.transform_of(proxy).unwrap().translation,
        Vec3 { x: 1, y: 2, z: 3 }
    );
}

#[test]
fn release_attaches_chase_directive_and_clears_grab() {
    let mut world = World::new();
    let visual = spawn_visual(&mut world);
    let proxy = spawn_proxy(&mut world, 0, 0, 0, Some(visual));
    let mut state = Dragging::cleared();
    mouse_input(&mut world, &mut state, &at(10, 5), true, false, 100);
    drag(&mut world, &state, &at(60, 80));

    mouse_input(&mut world, &mut state, &at(60, 80), false, true, 5000);

    // The *visual* entity now carries the directive, targeting the proxy,
    // starting from the pre-drag position over a 300 ms window with one
    // spin about y.
    let d = world.directive_of(visual).unwrap();
    assert_eq!(d.target, Some(proxy));
    assert_eq!(d.start_position, Vec2 { x: 0, y: 0 });
    assert_eq!(d.moving, MoveState::StartMove);
    assert_eq!(d.time_at_start_of_move, 5000);
    assert_eq!(d.time_to_finish_move, 5300);
    assert_eq!(d.rotation_freqs, (0, 1, 0));
    // The proxy itself carries none.
    assert_eq!(world.directive_of(proxy), None);
    // The grab is gone.
    assert_eq!(state.draggable, None);
    assert_eq!(state.card_id, None);
    assert_eq!(state.card_draggable.card, None);
}

#[test]
fn release_without_grab_is_a_noop() {
    let mut world = World::new();
    let visual = spawn_visual(&mut world);
    let _proxy = spawn_proxy(&mut world, 0, 0, 0, Some(visual));
    let mut state = Dragging::cleared();
    mouse_input(&mut world, &mut state, &at(0, 0), false, true, 1000);
    assert_eq!(world.directive_of(visual), None);
    assert_eq!(state.draggable, None);
}

#[test]
fn release_with_missing_visual_link_still_clears() {
    let mut world = World::new();
    let proxy = spawn_proxy(&mut world, 0, 0, 0, None);
    let mut state = Dragging::cleared();
    mouse_input(&mut world, &mut state, &at(0, 0), true, false, 0);
    assert_eq!(state.draggable, Some(proxy));
    mouse_input(&mut world, &mut state, &at(0, 0), false, true, 50);
    // Nothing to attach to, but the stale grab must not survive.
    assert_eq!(state.draggable, None);
    assert_eq!(state.card_id, None);
}

#[test]
fn stale_grab_on_despawned_proxy_is_harmless() {
    let mut world = World::new();
    let visual = spawn_visual(&mut world);
    let proxy = spawn_proxy(&mut world, 0, 0, 0, Some(visual));
    let mut state = Dragging::cleared();
    mouse_input(&mut world, &mut state, &at(3, 4), true, false, 0);
    assert!(world.despawn(proxy));

    // Applying the drag is a no-op on the vanished proxy.
    drag(&mut world, &state, &at(100, 100));
    assert_eq!(world.transform_of(proxy), None);

    // Releasing still clears the grab defensively.
    mouse_input(&mut world, &mut state, &at(100, 100), false, true, 10);
    assert_eq!(state.draggable, None);
    assert_eq!(state.card_id, None);
}

#[test]
fn regrab_in_the_frame_that_released() {
    let mut world = World::new();
    let visual = spawn_visual(&mut world);
    let proxy = spawn_proxy(&mut world, 0, 0, 0, Some(visual));
    let mut state = Dragging::cleared();
    mouse_input(&mut world, &mut state, &at(1, 1), true, false, 0);
    // Press and release in the same frame: the release is handled first,
    // then the press grabs again.
    mouse_input(&mut world, &mut state, &at(2, 2), true, true, 40);
    assert_eq!(state.draggable, Some(proxy));
    assert_eq!(state.offset, Vec2 { x: 2, y: 2 });
    assert!(world.directive_of(visual).is_some());
}
