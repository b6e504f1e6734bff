//! Dealing the deck: creates the 52 cards at startup. Each card is a visual
//! entity at the origin carrying its identity and two face children, paired
//! 1:1 with a draggable proxy entity dropped at a random position; a move
//! directive is attached to the visual sending it to its proxy over a
//! 1000 ms window with random spin frequencies.

use vstd::prelude::*;
use crate::animator::{MoveState, MoveThisCard};
use crate::cards::{card_from_index, card_visual_of, CardBack, CardDraggable, CardFront};
use crate::geom::{xy, Transform, Vec2, Vec3, MAX_TIME_MS};
use crate::world::{Entity, EntityRec, Visibility, World};

verus! {

/// How far from the board centre, per axis, a dealt proxy may land.
pub const DEAL_SCATTER: i64 = 300;

/// How long the initial deal animation runs, in milliseconds.
pub const DEAL_MOVE_MS: u128 = 1000;

/// Relies on `rand::thread_rng` and `rand::Rng::gen_range` on the inclusive
/// range `lo..=hi`: returns a value within the bounds. `gen_range` panics
/// only on an empty range, which the contract excludes.
#[verifier::external_body]
pub(crate) fn random_in_range(lo: i64, hi: i64) -> (r: i64)
    requires
        lo <= hi,
    ensures
        lo <= r <= hi,
{
    rand::Rng::gen_range(&mut rand::thread_rng(), lo..=hi)
}

/// The identity-rotation transform at the origin, where every visual entity
/// starts.
pub open spec fn origin_transform() -> Transform {
    Transform {
        translation: Vec3 { x: 0, y: 0, z: 0 },
        rotation: Vec3 { x: 0, y: 0, z: 0 },
    }
}

/// The directive attached to a dealt visual: chase the proxy from the
/// proxy's drop position over the deal window, spinning about x and y.
pub open spec fn deal_directive(proxy: Entity, initial: Vec3, fx: i8, fy: i8, now: int) -> MoveThisCard {
    MoveThisCard {
        target: Option::Some(proxy),
        start_position: xy(initial),
        moving: MoveState::StartMove,
        time_at_start_of_move: now as u128,
        time_to_finish_move: (now + 1000) as u128,
        rotation_freqs: (fx, fy, 0i8),
    }
}

/// The record of a dealt card's visual entity: live at the origin, carrying
/// the card identity for deal index `k` and the chase directive.
pub open spec fn dealt_visual_rec(k: int, proxy: Entity, initial: Vec3, fx: i8, fy: i8, now: int) -> EntityRec {
    EntityRec {
        alive: true,
        transform: origin_transform(),
        directive: Option::Some(deal_directive(proxy, initial, fx, fy, now)),
        draggable: Option::None,
        visual: Option::Some(card_visual_of(k)),
        slot: Option::None,
        front: Option::None,
        back: Option::None,
        parent: Option::None,
        visibility: Visibility::Visible,
    }
}

/// The record of a face child: live at the origin, marked front or back,
/// linked to its parent visual.
pub open spec fn face_rec(parent: Entity, is_front: bool) -> EntityRec {
    EntityRec {
        alive: true,
        transform: origin_transform(),
        directive: Option::None,
        draggable: Option::None,
        visual: Option::None,
        slot: Option::None,
        front: if is_front {
            Option::Some(CardFront)
        } else {
            Option::None
        },
        back: if is_front {
            Option::None
        } else {
            Option::Some(CardBack)
        },
        parent: Option::Some(parent),
        visibility: Visibility::Visible,
    }
}

/// The record of a card's proxy: live at its random drop position, carrying
/// the draggable component that links back to the visual.
pub open spec fn proxy_rec(visual: Entity, initial: Vec3) -> EntityRec {
    EntityRec {
        alive: true,
        transform: Transform { translation: initial, rotation: Vec3 { x: 0, y: 0, z: 0 } },
        directive: Option::None,
        draggable: Option::Some(CardDraggable { card: Option::Some(visual) }),
        visual: Option::None,
        slot: Option::None,
        front: Option::None,
        back: Option::None,
        parent: Option::None,
        visibility: Visibility::Visible,
    }
}

/// Deals one card: spawns the visual (identity `i`, at the origin, with its
/// two face children) and its proxy at `initial`, and seeds the visual's
/// chase directive. Returns the visual and proxy handles.
pub fn deal_card(world: &mut World, i: usize, initial: Vec3, fx: i8, fy: i8, now: u128) -> (pair: (
    Entity,
    Entity,
))
    requires
        old(world).wf(),
        initial.wf(),
        now <= MAX_TIME_MS,
        i < usize::MAX,
        old(world).entities@.len() + 4 <= usize::MAX,
    ensures
        final(world).wf(),
        pair.0.0 == old(world).entities@.len(),
        pair.1.0 == old(world).entities@.len() + 3,
        final(world).entities@ == old(world).entities@ + seq![
            dealt_visual_rec(i as int, pair.1, initial, fx, fy, now as int),
            face_rec(pair.0, true),
            face_rec(pair.0, false),
            proxy_rec(pair.0, initial),
        ],
{
    let ghost s0 = world.entities@;
    let base: usize = world.entities.len();
    let visual_e = Entity(base);
    let proxy_e = Entity(base + 3);

    let identity = card_from_index(i);
    let origin = Vec3 { x: 0, y: 0, z: 0 };
    let directive = MoveThisCard {
        target: Some(proxy_e),
        start_position: initial.truncate(),
        moving: MoveState::StartMove,
        time_at_start_of_move: now,
        time_to_finish_move: now + 1000,
        rotation_freqs: (fx, fy, 0i8),
    };
    let mut visual = EntityRec::blank(Transform::at(origin));
    visual.visual = Some(identity);
    visual.directive = Some(directive);
    let _v = world.spawn(visual);

    let mut front = EntityRec::blank(Transform::at(origin));
    front.front = Some(CardFront);
    front.parent = Some(visual_e);
    let _f = world.spawn(front);

    let mut back = EntityRec::blank(Transform::at(origin));
    back.back = Some(CardBack);
    back.parent = Some(visual_e);
    let _b = world.spawn(back);

    let mut proxy = EntityRec::blank(Transform::at(initial));
    proxy.draggable = Some(CardDraggable { card: Some(visual_e) });
    let _p = world.spawn(proxy);

    proof {
        assert(world.entities@ =~= s0 + seq![
            dealt_visual_rec(i as int, proxy_e, initial, fx, fy, now as int),
            face_rec(visual_e, true),
            face_rec(visual_e, false),
            proxy_rec(visual_e, initial),
        ]);
    }
    (visual_e, proxy_e)
}

/// What one dealt card's four consecutive records, starting at `base`, look
/// like for deal index `k`: the visual with its identity and a chase
/// directive targeting the proxy three handles later, the two face
/// children, and the proxy within the deal scatter carrying the back link.
/// The spin frequencies lie in `{-1, 0, 1}` about x and y, with none about
/// z.
pub open spec fn dealt_block_ok(s: Seq<EntityRec>, base: int, k: int, now: int) -> bool {
    &&& 0 <= base && base + 3 < s.len()
    &&& {
        let initial = s[base + 3].transform.translation;
        let d = s[base].directive->0;
        &&& s[base].directive is Some
        &&& d.rotation_freqs.2 == 0i8
        &&& -1 <= d.rotation_freqs.0 <= 1
        &&& -1 <= d.rotation_freqs.1 <= 1
        &&& -DEAL_SCATTER <= initial.x <= DEAL_SCATTER
        &&& -DEAL_SCATTER <= initial.y <= DEAL_SCATTER
        &&& -DEAL_SCATTER <= initial.z <= DEAL_SCATTER
        &&& s[base] == dealt_visual_rec(
            k,
            Entity((base + 3) as usize),
            initial,
            d.rotation_freqs.0,
            d.rotation_freqs.1,
            now,
        )
        &&& s[base + 1] == face_rec(Entity(base as usize), true)
        &&& s[base + 2] == face_rec(Entity(base as usize), false)
        &&& s[base + 3] == proxy_rec(Entity(base as usize), initial)
    }
}

/// Deals the whole deck: 52 cards, four entities each, appended in deal
/// order. Every card's block matches `dealt_block_ok` — correct identity,
/// face pair, proxy link, and a chase directive over the deal window with
/// random scatter and spin.
pub fn setup(world: &mut World, now: u128)
    requires
        old(world).wf(),
        now <= MAX_TIME_MS,
        old(world).entities@.len() + 208 <= usize::MAX,
    ensures
        final(world).wf(),
        final(world).entities@.len() == old(world).entities@.len() + 208,
        forall|j: int| 0 <= j < old(world).entities@.len() ==> final(world).entities@[j] == old(
            world,
        ).entities@[j],
        forall|k: int| 0 <= k < 52 ==> #[trigger] dealt_block_ok(
            final(world).entities@,
            old(world).entities@.len() + 4 * k,
            k,
            now as int,
        ),
{
    let ghost s0 = world.entities@;
    let base0: usize = world.entities.len();
    let mut i: usize = 0;
    while i < 52
        invariant
            i <= 52,
            base0 == s0.len(),
            world.wf(),
            now <= MAX_TIME_MS,
            base0 + 208 <= usize::MAX,
            world.entities@.len() == base0 + 4 * i,
            forall|j: int| 0 <= j < base0 ==> world.entities@[j] == s0[j],
            forall|k: int| 0 <= k < i ==> #[trigger] dealt_block_ok(
                world.entities@,
                base0 + 4 * k,
                k,
                now as int,
            ),
        decreases 52 - i,
    {
        let ghost s_pre = world.entities@;
        let x: i64 = random_in_range(-DEAL_SCATTER, DEAL_SCATTER);
        let y: i64 = random_in_range(-DEAL_SCATTER, DEAL_SCATTER);
        let z: i64 = random_in_range(-DEAL_SCATTER, DEAL_SCATTER);
        let fx: i64 = random_in_range(-1, 1);
        let fy: i64 = random_in_range(-1, 1);
        let initial = Vec3 { x, y, z };
        let _pair = deal_card(world, i, initial, fx as i8, fy as i8, now);
        proof {
            assert(dealt_block_ok(
                world.entities@,
                base0 + 4 * i as int,
                i as int,
                now as int,
            ));
            assert forall|k: int| 0 <= k < i implies #[trigger] dealt_block_ok(
                world.entities@,
                base0 + 4 * k,
                k,
                now as int,
            ) by {
                assert(dealt_block_ok(s_pre, base0 + 4 * k, k, now as int));
            }
        }
        i += 1;
    }
}

} // verus!
