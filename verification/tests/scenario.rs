use card_table::animator::MoveState;
use card_table::board::generate_board;
use card_table::deal::setup;
use card_table::drag::{Dragging, MousePosition};
use card_table::cards::CardDraggable;
use card_table::geom::{Transform, Vec2, Vec3};
use card_table::world::EntityRec;
use card_table::pipeline::frame;
use card_table::world::{Entity, Visibility, World};


const SLOTS: usize = 13;

/// Deal 52 cards, then advance the full pipeline past the 1000 ms deal
/// window: every visual must sit exactly on its proxy, carry no directive,
/// have completed whole spins, and show its front face.
#[test]
fn deal_52_cards_and_let_the_deal_animation_finish() {
    let mut world = World::new();
    let _layout = generate_board(&mut world);
    setup(&mut world, 0);
    assert_eq!(world.entity_count(), SLOTS + 52 * 4);

    let mut drag_state = Dragging::cleared();
    let pos = MousePosition(Vec2 { x: 10_000, y: 10_000 });
    let mut t: u128 = 0;
    while t <= 1000 {
        frame(&mut world, &mut drag_state, &pos, false, false, t);
        t += 100;
    }
    // Two more ticks drain EndMove and the removal state.
    frame(&mut world, &mut drag_state, &pos, false, false, 1001);
    frame(&mut world, &mut drag_state, &pos, false, false, 1002);

    for k in 0..52usize {
        let base = SLOTS + 4 * k;
        let visual = world.record(Entity(base)).unwrap();
        let front = world.record(Entity(base + 1)).unwrap();
        let back = world.record(Entity(base + 2)).unwrap();
        let proxy = world.record(Entity(base + 3)).unwrap();

        // The directive has detached itself.
        assert!(visual.directive.is_none());
        // The visual landed exactly on its proxy (at its own depth).
        assert_eq!(visual.transform.translation.x, proxy.transform.translation.x);
        assert_eq!(visual.transform.translation.y, proxy.transform.translation.y);
        assert_eq!(visual.transform.translation.z, 0);
        // Whole spins completed: the rotation is back to zero.
        assert_eq!(visual.transform.rotation.x, 0);
        assert_eq!(visual.transform.rotation.y, 0);
        assert_eq!(visual.transform.rotation.z, 0);
        // Face-on again, so the front shows and the back hides.
        assert_eq!(front.visibility, Visibility::Visible);
        assert_eq!(back.visibility, Visibility::Hidden);
        // Identity and linkage.
        assert_eq!(visual.visual.unwrap().index, k + 1);
        assert_eq!(proxy.draggable.unwrap().card, Some(Entity(base)));
        // The proxy landed inside the deal scatter and carries nothing.
        assert!(proxy.transform.translation.x.abs() <= 300);
        assert!(proxy.transform.translation.y.abs() <= 300);
        assert!(proxy.directive.is_none());
    }
}

/// Grab a card's proxy, drag it away, release it, and let the chase
/// animation land: the visual follows the proxy to where it was dropped.
#[test]
fn drag_a_card_and_watch_the_visual_chase_it() {
    let mut world = World::new();
    let visual_e = world.spawn(EntityRec::blank(Transform::at(Vec3 { x: 120, y: -40, z: 0 })));
    let mut proxy = EntityRec::blank(Transform::at(Vec3 { x: 120, y: -40, z: 6 }));
    proxy.draggable = Some(CardDraggable { card: Some(visual_e) });
    let proxy_e = world.spawn(proxy);
    let mut drag_state = Dragging::cleared();
    let idle = MousePosition(Vec2 { x: 10_000, y: 10_000 });
    let proxy_home = Vec3 { x: 120, y: -40, z: 6 };

    // Press right on the proxy's centre, drag it 400 units right and 100
    // up over a few frames, and release.
    let press_at = MousePosition(Vec2 { x: proxy_home.x, y: proxy_home.y });
    frame(&mut world, &mut drag_state, &press_at, true, false, 2000);
    assert_eq!(drag_state.draggable, Some(proxy_e));
    let dest = MousePosition(Vec2 { x: proxy_home.x + 400, y: proxy_home.y + 100 });
    frame(&mut world, &mut drag_state, &dest, false, false, 2016);
    let dragged = world.record(proxy_e).unwrap().transform.translation;
    assert_eq!(dragged.x, proxy_home.x + 400);
    assert_eq!(dragged.y, proxy_home.y + 100);
    assert_eq!(dragged.z, proxy_home.z);

    frame(&mut world, &mut drag_state, &dest, false, true, 2032);
    assert_eq!(drag_state.draggable, None);
    let d = world.record(visual_e).unwrap().directive.unwrap();
    assert_eq!(d.target, Some(proxy_e));
    assert_eq!(d.moving, MoveState::Moving);
    assert_eq!(d.time_to_finish_move, 2332);

    // Let the 300 ms chase play out, plus the detach ticks.
    for step in [2100u128, 2200, 2332, 2333, 2334] {
        frame(&mut world, &mut drag_state, &idle, false, false, step);
    }
    let visual = world.record(visual_e).unwrap();
    let proxy = world.record(proxy_e).unwrap();
    assert!(visual.directive.is_none());
    assert_eq!(visual.transform.translation.x, proxy.transform.translation.x);
    assert_eq!(visual.transform.translation.y, proxy.transform.translation.y);
}
