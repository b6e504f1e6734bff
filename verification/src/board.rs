//! Board generation: the thirteen static slot entities a card may rest on —
//! stock pile, waste pile, four foundations and seven tableau columns —
//! spawned once at startup, with their positions computed from the card
//! size and slot padding. Slots never move and are never destroyed.

use vstd::prelude::*;
use crate::cards::CardSlot;
use crate::geom::{Transform, Vec2, Vec3, CARD_HEIGHT, CARD_WIDTH, PADDING};
use crate::world::{EntityRec, Visibility, World};

verus! {

/// A slot marker with its board position.
#[derive(Clone, Copy, Debug)]
pub struct Slot {
    pub position: Vec2,
    pub slot: CardSlot,
}

/// The board layout: the position of every slot entity, filled in by
/// `generate_board`.
#[derive(Clone, Copy, Debug)]
pub struct CardSlotPositions {
    pub stock_pile: Option<Slot>,
    pub waste_pile: Option<Slot>,
    pub foundations: [Option<Slot>; 4],
    pub tableau: [Option<Slot>; 7],
}

impl CardSlotPositions {
    /// An empty layout with no slot recorded.
    pub fn new() -> (r: CardSlotPositions)
        ensures
            r.stock_pile is None,
            r.waste_pile is None,
            forall|i: int| 0 <= i < 4 ==> r.foundations[i] is None,
            forall|i: int| 0 <= i < 7 ==> r.tableau[i] is None,
    {
        CardSlotPositions {
            stock_pile: None,
            waste_pile: None,
            foundations: [None, None, None, None],
            tableau: [None, None, None, None, None, None, None],
        }
    }
}

/// The thirteen slot positions in spawn order: stock, waste, the four
/// foundations, then the seven tableau columns one row below. Derived from
/// a seven-card top row of width `7 * CARD_WIDTH + 6 * PADDING = 413` units
/// centred on x = 0 (left edge at `-413 / 2 = -206`), slots spaced
/// `CARD_WIDTH + PADDING = 60` units apart, and a two-slot gap between the
/// waste pile and the first foundation.
pub open spec fn board_positions() -> Seq<Vec2> {
    seq![
        Vec2 { x: -206i64, y: 0i64 },
        Vec2 { x: -146i64, y: 0i64 },
        Vec2 { x: -26i64, y: 0i64 },
        Vec2 { x: 34i64, y: 0i64 },
        Vec2 { x: 94i64, y: 0i64 },
        Vec2 { x: 154i64, y: 0i64 },
        Vec2 { x: -206i64, y: -77i64 },
        Vec2 { x: -146i64, y: -77i64 },
        Vec2 { x: -86i64, y: -77i64 },
        Vec2 { x: -26i64, y: -77i64 },
        Vec2 { x: 34i64, y: -77i64 },
        Vec2 { x: 94i64, y: -77i64 },
        Vec2 { x: 154i64, y: -77i64 },
    ]
}

/// The arena record of a freshly spawned slot: a live entity carrying only
/// the slot marker, at the slot position, unrotated.
pub open spec fn slot_rec(p: Vec2) -> EntityRec {
    EntityRec {
        alive: true,
        transform: Transform {
            translation: Vec3 { x: p.x, y: p.y, z: 0 },
            rotation: Vec3 { x: 0, y: 0, z: 0 },
        },
        directive: Option::None,
        draggable: Option::None,
        visual: Option::None,
        slot: Option::Some(CardSlot),
        front: Option::None,
        back: Option::None,
        parent: Option::None,
        visibility: Visibility::Visible,
    }
}

/// Builds the spatial state and marker for one slot at `pos`.
pub fn build_slot_to_spawn(pos: Vec2) -> (r: (Transform, CardSlot))
    ensures
        r.0 == (Transform {
            translation: Vec3 { x: pos.x, y: pos.y, z: 0 },
            rotation: Vec3 { x: 0, y: 0, z: 0 },
        }),
{
    (Transform::at(Vec3 { x: pos.x, y: pos.y, z: 0 }), CardSlot)
}

/// Spawns the thirteen board slots and returns the recorded layout: the
/// store grows by exactly the records of `board_positions()` in order, and
/// every field of the returned layout names the matching slot.
pub fn generate_board(world: &mut World) -> (r: CardSlotPositions)
    requires
        old(world).wf(),
    ensures
        final(world).wf(),
        final(world).entities@ == old(world).entities@ + Seq::new(
            13,
            |i: int| slot_rec(board_positions()[i]),
        ),
        r.stock_pile == Option::Some(Slot { position: board_positions()[0], slot: CardSlot }),
        r.waste_pile == Option::Some(Slot { position: board_positions()[1], slot: CardSlot }),
        forall|i: int| 0 <= i < 4 ==> r.foundations[i] == Option::Some(
            Slot { position: board_positions()[2 + i], slot: CardSlot },
        ),
        forall|i: int| 0 <= i < 7 ==> r.tableau[i] == Option::Some(
            Slot { position: board_positions()[6 + i], slot: CardSlot },
        ),
{
    let card_width: i64 = CARD_WIDTH;
    let spacing: i64 = card_width + PADDING;
    let board_width: i64 = card_width * 7 + PADDING * 6;
    let left: i64 = -(board_width / 2);
    let row2: i64 = -(CARD_HEIGHT + PADDING);

    let stock_pos = Vec2 { x: left, y: 0 };
    let waste_pos = Vec2 { x: left + spacing, y: 0 };
    let found_base: i64 = left + spacing * 3;
    let f0 = Vec2 { x: found_base, y: 0 };
    let f1 = Vec2 { x: found_base + spacing, y: 0 };
    let f2 = Vec2 { x: found_base + spacing * 2, y: 0 };
    let f3 = Vec2 { x: found_base + spacing * 3, y: 0 };
    let t0 = Vec2 { x: left, y: row2 };
    let t1 = Vec2 { x: left + spacing, y: row2 };
    let t2 = Vec2 { x: left + spacing * 2, y: row2 };
    let t3 = Vec2 { x: left + spacing * 3, y: row2 };
    let t4 = Vec2 { x: left + spacing * 4, y: row2 };
    let t5 = Vec2 { x: left + spacing * 5, y: row2 };
    let t6 = Vec2 { x: left + spacing * 6, y: row2 };

    spawn_slot(world, stock_pos);
    spawn_slot(world, waste_pos);
    spawn_slot(world, f0);
    spawn_slot(world, f1);
    spawn_slot(world, f2);
    spawn_slot(world, f3);
    spawn_slot(world, t0);
    spawn_slot(world, t1);
    spawn_slot(world, t2);
    spawn_slot(world, t3);
    spawn_slot(world, t4);
    spawn_slot(world, t5);
    spawn_slot(world, t6);
    proof {
        assert(world.entities@ =~= old(world).entities@ + Seq::new(
            13,
            |i: int| slot_rec(board_positions()[i]),
        ));
    }
    CardSlotPositions {
        stock_pile: Some(Slot { position: stock_pos, slot: CardSlot }),
        waste_pile: Some(Slot { position: waste_pos, slot: CardSlot }),
        foundations: [
            Some(Slot { position: f0, slot: CardSlot }),
            Some(Slot { position: f1, slot: CardSlot }),
            Some(Slot { position: f2, slot: CardSlot }),
            Some(Slot { position: f3, slot: CardSlot }),
        ],
        tableau: [
            Some(Slot { position: t0, slot: CardSlot }),
            Some(Slot { position: t1, slot: CardSlot }),
            Some(Slot { position: t2, slot: CardSlot }),
            Some(Slot { position: t3, slot: CardSlot }),
            Some(Slot { position: t4, slot: CardSlot }),
            Some(Slot { position: t5, slot: CardSlot }),
            Some(Slot { position: t6, slot: CardSlot }),
        ],
    }
}

/// Spawns one slot entity at `pos`.
fn spawn_slot(world: &mut World, pos: Vec2)
    requires
        old(world).wf(),
        pos.wf(),
    ensures
        final(world).wf(),
        final(world).entities@ == old(world).entities@.push(slot_rec(pos)),
{
    let (tx, marker) = build_slot_to_spawn(pos);
    let mut rec = EntityRec::blank(tx);
    rec.slot = Some(marker);
    let _e = world.spawn(rec);
}

} // verus!
