use card_table::cards::{CardBack, CardFront};
use card_table::geom::{Transform, Vec3};
use card_table::orient::{card_visual_keep_back_up, card_visual_keep_face_up};
use card_table::world::{Entity, EntityRec, Visibility, World};

fn spawn_card_pair(world: &mut World, rot: Vec3) -> (Entity, Entity, Entity) {
    let parent = world.spawn(EntityRec::blank(Transform {
        translation: Vec3 { x: 0, y: 0, z: 0 },
        rotation: rot,
    }));
    let mut front = EntityRec::blank(Transform::at(Vec3 { x: 0, y: 0, z: 0 }));
    front.front = Some(CardFront);
    front.parent = Some(parent);
    let front_e = world.spawn(front);
    let mut back = EntityRec::blank(Transform::at(Vec3 { x: 0, y: 0, z: 0 }));
    back.back = Some(CardBack);
    back.parent = Some(parent);
    let back_e = world.spawn(back);
    (parent, front_e, back_e)
}

fn both_passes(world: &mut World) {
    card_visual_keep_face_up(world);
    card_visual_keep_back_up(world);
}

fn visibilities(world: &World, front: Entity, back: Entity) -> (Visibility, Visibility) {
    (
        world.record(front).unwrap().visibility,
        world.record(back).unwrap().visibility,
    )
}

#[test]
fn face_on_card_shows_front_hides_back() {
    let mut world = World::new();
    let (_p, front, back) = spawn_card_pair(&mut world, Vec3 { x: 0, y: 0, z: 0 });
    both_passes(&mut world);
    assert_eq!(
        visibilities(&world, front, back),
        (Visibility::Visible, Visibility::Hidden)
    );
}

#[test]
fn half_turn_about_y_swaps_the_faces() {
    let mut world = World::new();
    let (parent, front, back) = spawn_card_pair(&mut world, Vec3 { x: 0, y: 0, z: 0 });
    both_passes(&mut world);
    assert_eq!(
        visibilities(&world, front, back),
        (Visibility::Visible, Visibility::Hidden)
    );

    // Rotate the card 180 degrees about y: the shown face swaps.
    let idx = parent.0;
    let mut rec = world.entities[idx];
    rec.transform.rotation = Vec3 { x: 0, y: 180, z: 0 };
    world.entities[idx] = rec;
    both_passes(&mut world);
    assert_eq!(
        visibilities(&world, front, back),
        (Visibility::Hidden, Visibility::Visible)
    );
}

#[test]
fn half_turn_about_x_also_swaps_the_faces() {
    let mut world = World::new();
    let (_p, front, back) = spawn_card_pair(&mut world, Vec3 { x: 180, y: 0, z: 0 });
    both_passes(&mut world);
    assert_eq!(
        visibilities(&world, front, back),
        (Visibility::Hidden, Visibility::Visible)
    );
}

#[test]
fn double_flip_shows_the_front_again() {
    let mut world = World::new();
    let (_p, front, back) = spawn_card_pair(&mut world, Vec3 { x: 180, y: 180, z: 0 });
    both_passes(&mut world);
    assert_eq!(
        visibilities(&world, front, back),
        (Visibility::Visible, Visibility::Hidden)
    );
}

#[test]
fn edge_on_card_hides_both_faces() {
    let mut world = World::new();
    let (_p, front, back) = spawn_card_pair(&mut world, Vec3 { x: 0, y: 90, z: 0 });
    both_passes(&mut world);
    assert_eq!(
        visibilities(&world, front, back),
        (Visibility::Hidden, Visibility::Hidden)
    );
    let (_p, front, back) = spawn_card_pair(&mut world, Vec3 { x: 270, y: 0, z: 0 });
    both_passes(&mut world);
    assert_eq!(
        visibilities(&world, front, back),
        (Visibility::Hidden, Visibility::Hidden)
    );
}

#[test]
fn spin_about_z_never_hides_a_face_on_card() {
    let mut world = World::new();
    let (_p, front, back) = spawn_card_pair(&mut world, Vec3 { x: 0, y: 0, z: 180 });
    both_passes(&mut world);
    assert_eq!(
        visibilities(&world, front, back),
        (Visibility::Visible, Visibility::Hidden)
    );
}

#[test]
fn orphan_face_uses_its_own_rotation() {
    let mut world = World::new();
    let mut front = EntityRec::blank(Transform {
        translation: Vec3 { x: 0, y: 0, z: 0 },
        rotation: Vec3 { x: 0, y: 180, z: 0 },
    });
    front.front = Some(CardFront);
    let front_e = world.spawn(front);
    both_passes(&mut world);
    assert_eq!(world.record(front_e).unwrap().visibility, Visibility::Hidden);
}

#[test]
fn face_with_dead_parent_falls_back_to_its_own_rotation() {
    let mut world = World::new();
    let (parent, front, back) = spawn_card_pair(&mut world, Vec3 { x: 0, y: 180, z: 0 });
    assert!(world.despawn(parent));
    both_passes(&mut world);
    // The faces' own rotations are identity, so the front shows.
    assert_eq!(
        visibilities(&world, front, back),
        (Visibility::Visible, Visibility::Hidden)
    );
}
