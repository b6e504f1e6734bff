//! The ambient shuffle driver: an alternate, mutually exclusive way to keep
//! idle cards moving, superseded by the drag-driven model but kept as an
//! auxiliary state machine. It cycles a card forever: pick a random board
//! slot, tween to it as the move animator would, then wait out a randomized
//! pause before starting the next move. There is no terminal state.

use vstd::prelude::*;
use crate::animator::{moved_transform, MoveState, MoveThisCard};
use crate::deal::random_in_range;
use crate::geom::{xy, Transform, Vec2, MAX_MOVE_MS, MAX_TIME_MS};
use crate::world::{Entity, EntityRec, World};

verus! {

/// Lifecycle tag of an ambient shuffle cycle: as the move animator's, plus
/// a `Waiting` state that gates the restart until the scheduled pause
/// elapses.
#[derive(Clone, Copy, Debug, PartialEq, Eq, Structural)]
pub enum ShuffleState {
    StartMove,
    Moving,
    EndMove,
    Waiting,
}

/// The ambient shuffle component for one card: the current cycle's slot
/// target and tween window, the spin frequencies, and the earliest time the
/// next cycle may begin.
#[derive(Clone, Copy, Debug)]
pub struct ShuffleCard {
    pub target: Option<Entity>,
    pub start_position: Vec2,
    pub moving: ShuffleState,
    pub time_at_start_of_move: u128,
    pub time_to_finish_move: u128,
    pub next_move_at: u128,
    pub rotation_freqs: (i8, i8, i8),
}

impl ShuffleCard {
    /// The tween window is ordered and bounded and the captured start lies
    /// in the arena.
    pub open spec fn wf(self) -> bool {
        &&& self.time_at_start_of_move <= self.time_to_finish_move
        &&& self.time_to_finish_move - self.time_at_start_of_move <= MAX_MOVE_MS
        &&& self.start_position.wf()
    }

    /// A card idle since time zero, ready to start its first cycle.
    pub fn idle() -> (r: ShuffleCard)
        ensures
            r.wf(),
            r.moving == ShuffleState::StartMove,
            r.target is None,
    {
        ShuffleCard {
            target: None,
            start_position: Vec2 { x: 0, y: 0 },
            moving: ShuffleState::StartMove,
            time_at_start_of_move: 0,
            time_to_finish_move: 0,
            next_move_at: 0,
            rotation_freqs: (0i8, 0i8, 0i8),
        }
    }

    /// The tween fields seen as a move directive, for sharing the
    /// animator's interpolation specification.
    pub open spec fn as_move(self) -> MoveThisCard {
        MoveThisCard {
            target: self.target,
            start_position: self.start_position,
            moving: MoveState::Moving,
            time_at_start_of_move: self.time_at_start_of_move,
            time_to_finish_move: self.time_to_finish_move,
            rotation_freqs: self.rotation_freqs,
        }
    }
}

/// Whether a handle names a live slot entity.
pub open spec fn is_slot_entity(s: Seq<EntityRec>, e: Entity) -> bool {
    &&& e.0 < s.len()
    &&& s[e.0 as int].alive
    &&& s[e.0 as int].slot is Some
}

/// The handles of every live slot among entities `0..k`, in ascending
/// order.
pub open spec fn slot_handles(s: Seq<EntityRec>, k: int) -> Seq<Entity>
    decreases k,
{
    if k <= 0 {
        Seq::empty()
    } else {
        let prev = slot_handles(s, k - 1);
        if s[k - 1].alive && s[k - 1].slot is Some {
            prev.push(Entity((k - 1) as usize))
        } else {
            prev
        }
    }
}

/// Every handle the slot scan collects names a live slot entity.
pub proof fn lemma_slot_handles_props(s: Seq<EntityRec>, k: int)
    requires
        0 <= k <= s.len(),
        k <= usize::MAX,
    ensures
        forall|j: int| 0 <= j < slot_handles(s, k).len() ==> is_slot_entity(
            s,
            #[trigger] slot_handles(s, k)[j],
        ),
    decreases k,
{
    if k > 0 {
        lemma_slot_handles_props(s, k - 1);
        let prev = slot_handles(s, k - 1);
        assert forall|j: int| 0 <= j < slot_handles(s, k).len() implies is_slot_entity(
            s,
            #[trigger] slot_handles(s, k)[j],
        ) by {
            if s[k - 1].alive && s[k - 1].slot is Some {
                if j < prev.len() {
                    assert(slot_handles(s, k)[j] == prev[j]);
                } else {
                    assert(slot_handles(s, k)[j] == Entity((k - 1) as usize));
                }
            } else {
                assert(slot_handles(s, k)[j] == prev[j]);
            }
        }
    }
}

/// Collects the handles of every live slot entity, in ascending order.
fn collect_slots(world: &World) -> (r: Vec<Entity>)
    ensures
        r@ == slot_handles(world.entities@, world.entities@.len() as int),
{
    let n: usize = world.entities.len();
    let mut r: Vec<Entity> = Vec::new();
    let mut i: usize = 0;
    while i < n
        invariant
            i <= n,
            n == world.entities@.len(),
            r@ == slot_handles(world.entities@, i as int),
        decreases n - i,
    {
        let rec: EntityRec = world.entities[i];
        if rec.alive && rec.slot.is_some() {
            r.push(Entity(i));
        }
        i += 1;
    }
    r
}

/// One frame of the ambient shuffle cycle for one card, at time `now`:
///
/// - `StartMove`: picks a uniformly random live slot as the target (a board
///   with no slots leaves the card untouched for a retry), captures the
///   card's position as the tween start, draws a 2000-3000 ms window from
///   `now`, and enters `Moving`.
/// - `Moving`: tweens exactly as the move animator does, toward the slot's
///   static position; a target that no longer resolves to a live slot is
///   skipped for the frame; once the window elapses, enters `EndMove`.
/// - `EndMove`: schedules a 1000-2000 ms pause and enters `Waiting`.
/// - `Waiting`: once the pause elapses, enters `StartMove` — an infinite,
///   restartable cycle with no terminal state.
pub fn shuffle_step(world: &World, tx: &mut Transform, c: &mut ShuffleCard, now: u128)
    requires
        world.wf(),
        old(tx).wf(),
        old(c).wf(),
        now <= MAX_TIME_MS,
    ensures
        final(tx).wf(),
        final(c).wf(),
        ({
            let s = world.entities@;
            match old(c).moving {
                ShuffleState::StartMove => {
                    &&& (slot_handles(s, s.len() as int).len() == 0 ==> *final(c) == *old(c)
                        && *final(tx) == *old(tx))
                    &&& (slot_handles(s, s.len() as int).len() > 0 ==> {
                        &&& *final(tx) == *old(tx)
                        &&& final(c).moving == ShuffleState::Moving
                        &&& final(c).target is Some
                        &&& is_slot_entity(s, final(c).target->0)
                        &&& final(c).start_position == xy(old(tx).translation)
                        &&& final(c).time_at_start_of_move == now
                        &&& now + 2000 <= final(c).time_to_finish_move <= now + 3000
                        &&& final(c).next_move_at == old(c).next_move_at
                        &&& final(c).rotation_freqs == old(c).rotation_freqs
                    })
                },
                ShuffleState::Moving => {
                    &&& (match old(c).target {
                        Option::Some(t) => is_slot_entity(s, t) ==> {
                            &&& *final(tx) == moved_transform(
                                *old(tx),
                                old(c).as_move(),
                                xy(s[t.0 as int].transform.translation),
                                now as int,
                            )
                            &&& *final(c) == (ShuffleCard {
                                moving: if old(c).time_to_finish_move <= now {
                                    ShuffleState::EndMove
                                } else {
                                    ShuffleState::Moving
                                },
                                ..*old(c)
                            })
                        },
                        Option::None => *final(c) == *old(c) && *final(tx) == *old(tx),
                    })
                    &&& (!(old(c).target is Some && is_slot_entity(s, old(c).target->0))
                        ==> *final(c) == *old(c) && *final(tx) == *old(tx))
                },
                ShuffleState::EndMove => {
                    &&& *final(tx) == *old(tx)
                    &&& final(c).moving == ShuffleState::Waiting
                    &&& now + 1000 <= final(c).next_move_at <= now + 2000
                    &&& final(c).target == old(c).target
                },
                ShuffleState::Waiting => {
                    &&& *final(tx) == *old(tx)
                    &&& (old(c).next_move_at <= now ==> *final(c) == (ShuffleCard {
                        moving: ShuffleState::StartMove,
                        ..*old(c)
                    }))
                    &&& (old(c).next_move_at > now ==> *final(c) == *old(c))
                },
            }
        }),
{
    match c.moving {
        ShuffleState::StartMove => {
            let slots: Vec<Entity> = collect_slots(world);
            if slots.len() == 0 {
                return;
            }
            let n_entities: usize = world.entities.len();
            proof {
                lemma_slot_handles_props(world.entities@, n_entities as int);
            }
            let last: usize = slots.len() - 1;
            let hi: i64 = if last > 0x7fff_ffff {
                0x7fff_ffff
            } else {
                last as i64
            };
            let pick: i64 = random_in_range(0, hi);
            let target: Entity = slots[pick as usize];
            let window: i64 = random_in_range(2000, 3000);
            c.target = Some(target);
            c.start_position = tx.translation.truncate();
            c.time_at_start_of_move = now;
            c.time_to_finish_move = now + (window as u128);
            c.moving = ShuffleState::Moving;
        },
        ShuffleState::Moving => {
            match c.target {
                Some(t) => {
                    if t.0 < world.entities.len() {
                        let rec: EntityRec = world.entities[t.0];
                        if rec.alive && rec.slot.is_some() {
                            proof {
                                assert(rec.wf());
                            }
                            let target_pos: Vec2 = rec.transform.translation.truncate();
                            let mut m: MoveThisCard = MoveThisCard {
                                target: c.target,
                                start_position: c.start_position,
                                moving: MoveState::Moving,
                                time_at_start_of_move: c.time_at_start_of_move,
                                time_to_finish_move: c.time_to_finish_move,
                                rotation_freqs: c.rotation_freqs,
                            };
                            crate::animator::moving_stuff(tx, target_pos, &mut m, now);
                            if matches!(m.moving, MoveState::EndMove) {
                                c.moving = ShuffleState::EndMove;
                            }
                        }
                    }
                },
                None => {},
            }
        },
        ShuffleState::EndMove => {
            let pause: i64 = random_in_range(1000, 2000);
            c.next_move_at = now + (pause as u128);
            c.moving = ShuffleState::Waiting;
        },
        ShuffleState::Waiting => {
            if c.next_move_at <= now {
                c.moving = ShuffleState::StartMove;
            }
        },
    }
}

} // verus!
