use card_table::board::generate_board;
use card_table::geom::{Transform, Vec3};
use card_table::shuffle::{shuffle_step, ShuffleCard, ShuffleState};
use card_table::world::World;

#[test]
fn cycle_runs_start_moving_end_waiting_and_restarts() {
    let mut world = World::new();
    let _layout = generate_board(&mut world);
    let mut tx = Transform::at(Vec3 { x: 500, y: 500, z: 1 });
    let mut c = ShuffleCard::idle();
    assert_eq!(c.moving, ShuffleState::StartMove);

    // StartMove: a random live slot is chosen, the window drawn from now.
    shuffle_step(&world, &mut tx, &mut c, 10_000);
    assert_eq!(c.moving, ShuffleState::Moving);
    let target = c.target.expect("a slot should have been chosen");
    let slot_rec = world.record(target).expect("the target should be live");
    assert!(slot_rec.slot.is_some());
    assert_eq!(c.time_at_start_of_move, 10_000);
    assert!(c.time_to_finish_move >= 12_000 && c.time_to_finish_move <= 13_000);
    assert_eq!(c.start_position.x, 500);
    assert_eq!(c.start_position.y, 500);

    // The end of the window lands the card exactly on the slot, at its own
    // depth, and enters EndMove.
    let et = c.time_to_finish_move;
    shuffle_step(&world, &mut tx, &mut c, et);
    assert_eq!(c.moving, ShuffleState::EndMove);
    let slot_pos = slot_rec.transform.translation;
    assert_eq!(tx.translation, Vec3 { x: slot_pos.x, y: slot_pos.y, z: 1 });

    // EndMove schedules a randomized pause and waits.
    shuffle_step(&world, &mut tx, &mut c, et);
    assert_eq!(c.moving, ShuffleState::Waiting);
    assert!(c.next_move_at >= et + 1000 && c.next_move_at <= et + 2000);

    // Waiting gates the restart until the pause elapses.
    let resume = c.next_move_at;
    shuffle_step(&world, &mut tx, &mut c, resume - 1);
    assert_eq!(c.moving, ShuffleState::Waiting);
    shuffle_step(&world, &mut tx, &mut c, resume);
    assert_eq!(c.moving, ShuffleState::StartMove);

    // The cycle restarts: there is no terminal state.
    shuffle_step(&world, &mut tx, &mut c, resume);
    assert_eq!(c.moving, ShuffleState::Moving);
}

#[test]
fn a_board_without_slots_leaves_the_card_idle() {
    let world = World::new();
    let mut tx = Transform::at(Vec3 { x: 0, y: 0, z: 0 });
    let mut c = ShuffleCard::idle();
    shuffle_step(&world, &mut tx, &mut c, 0);
    assert_eq!(c.moving, ShuffleState::StartMove);
    assert!(c.target.is_none());
}

#[test]
fn a_vanished_slot_skips_the_frame_and_retries() {
    let mut world = World::new();
    let _layout = generate_board(&mut world);
    let mut tx = Transform::at(Vec3 { x: 300, y: 0, z: 0 });
    let mut c = ShuffleCard::idle();
    shuffle_step(&world, &mut tx, &mut c, 0);
    let target = c.target.unwrap();
    assert!(world.despawn(target));
    let before = tx.translation;
    shuffle_step(&world, &mut tx, &mut c, 100);
    assert_eq!(c.moving, ShuffleState::Moving);
    assert_eq!(tx.translation, before);
}
