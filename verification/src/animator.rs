//! The move animator: a transient per-entity directive that tweens an entity
//! from a captured start position toward a target entity's *current*
//! position over a fixed time window, spinning it by per-axis frequencies,
//! then detaches itself.
//!
//! Each frame, every live entity carrying a directive advances through the
//! lifecycle `StartMove -> Moving -> EndMove -> RemoveComponent`; once the
//! final state is processed the directive slot is cleared and the entity
//! keeps its last computed transform. A directive whose target does not
//! resolve (unknown handle, dead entity, no proxy component, or the target
//! itself carries a directive) is skipped for the frame and retried on the
//! next one, since the condition may be transient.

use vstd::prelude::*;
use crate::geom::{
    clamped_elapsed, frac_num_of, lemma_lerp1_bounds, lemma_rot_angle_props, lerp1, lerp_coord,
    rot_angle, rot_angle_exec, xy, Transform, Vec2, Vec3, MAX_MOVE_MS, TRANS_LIMIT,
};
use crate::world::{wf_seq, Entity, EntityRec, World};

verus! {

/// Lifecycle tag of a move directive.
#[derive(Clone, Copy, Debug, PartialEq, Eq, Structural)]
pub enum MoveState {
    StartMove,
    Moving,
    EndMove,
    RemoveComponent,
}

/// The animation component: attached transiently to one entity, it drives
/// that entity toward the target entity's current position between the two
/// timestamps, spinning each axis by a small signed whole number of turns.
#[derive(Clone, Copy, Debug, PartialEq, Eq)]
pub struct MoveThisCard {
    pub target: Option<Entity>,
    pub start_position: Vec2,
    pub moving: MoveState,
    pub time_at_start_of_move: u128,
    pub time_to_finish_move: u128,
    pub rotation_freqs: (i8, i8, i8),
}

impl MoveThisCard {
    /// The time window is ordered and no longer than `MAX_MOVE_MS`, and the
    /// captured start position lies inside the coordinate arena.
    pub open spec fn wf(self) -> bool {
        &&& self.time_at_start_of_move <= self.time_to_finish_move
        &&& self.time_to_finish_move - self.time_at_start_of_move <= MAX_MOVE_MS
        &&& self.start_position.wf()
    }

    /// Runtime check mirroring `wf`.
    pub fn check_wf(&self) -> (r: bool)
        ensures
            r == self.wf(),
    {
        self.time_at_start_of_move <= self.time_to_finish_move
            && self.time_to_finish_move - self.time_at_start_of_move <= MAX_MOVE_MS
            && -TRANS_LIMIT <= self.start_position.x && self.start_position.x <= TRANS_LIMIT
            && -TRANS_LIMIT <= self.start_position.y && self.start_position.y <= TRANS_LIMIT
    }
}

/// A directive's target resolves when the handle names a live entity that
/// carries the draggable proxy component and no directive of its own.
pub open spec fn resolves_entity(s: Seq<EntityRec>, t: Entity) -> bool {
    &&& t.0 < s.len()
    &&& s[t.0 as int].alive
    &&& s[t.0 as int].draggable is Some
    &&& s[t.0 as int].directive is None
}

/// Resolution of an optional target; a directive without a target never
/// resolves.
pub open spec fn resolves(s: Seq<EntityRec>, t: Option<Entity>) -> bool {
    match t {
        Option::Some(e) => resolves_entity(s, e),
        Option::None => false,
    }
}

/// Interpolated coordinate of a move at time `now`: from `a` toward `b` at
/// the clamped fraction of the window `[st, et]`. A degenerate (zero-length)
/// window snaps straight to the target.
pub open spec fn move_coord(a: int, b: int, st: int, et: int, now: int) -> int {
    if et <= st {
        b
    } else {
        lerp1(a, b, frac_num_of(st, et, now), et - st)
    }
}

/// The state a `Moving` directive shows after a frame at time `now`.
pub open spec fn next_moving_state(d: MoveThisCard, now: int) -> MoveState {
    if d.time_to_finish_move <= now {
        MoveState::EndMove
    } else {
        MoveState::Moving
    }
}

/// The transform a `Moving` entity shows after a frame at time `now`:
/// position interpolated from the captured start toward the target's current
/// position at the entity's own depth, rotation spun per axis by the
/// directive's frequencies.
pub open spec fn moved_transform(tx: Transform, d: MoveThisCard, target: Vec2, now: int) -> Transform {
    let st = d.time_at_start_of_move as int;
    let et = d.time_to_finish_move as int;
    let num = frac_num_of(st, et, now);
    let den = et - st;
    Transform {
        translation: Vec3 {
            x: move_coord(d.start_position.x as int, target.x as int, st, et, now) as i64,
            y: move_coord(d.start_position.y as int, target.y as int, st, et, now) as i64,
            z: tx.translation.z,
        },
        rotation: Vec3 {
            x: rot_angle(d.rotation_freqs.0 as int, num, den) as i64,
            y: rot_angle(d.rotation_freqs.1 as int, num, den) as i64,
            z: rot_angle(d.rotation_freqs.2 as int, num, den) as i64,
        },
    }
}

/// A frame's effect on the entity at index `i`: the animator state machine.
pub open spec fn step_entity(s: Seq<EntityRec>, i: int, now: int) -> Seq<EntityRec>
    recommends
        0 <= i < s.len(),
{
    let r = s[i];
    if !r.alive {
        s
    } else {
        match r.directive {
            Option::None => s,
            Option::Some(d) => match d.moving {
                MoveState::StartMove => if resolves(s, d.target) {
                    s.update(
                        i,
                        EntityRec {
                            directive: Option::Some(
                                MoveThisCard {
                                    start_position: xy(r.transform.translation),
                                    moving: MoveState::Moving,
                                    ..d
                                },
                            ),
                            ..r
                        },
                    )
                } else {
                    s
                },
                MoveState::Moving => if resolves(s, d.target) {
                    s.update(
                        i,
                        EntityRec {
                            transform: moved_transform(
                                r.transform,
                                d,
                                xy(s[d.target->Some_0.0 as int].transform.translation),
                                now,
                            ),
                            directive: Option::Some(
                                MoveThisCard { moving: next_moving_state(d, now), ..d },
                            ),
                            ..r
                        },
                    )
                } else {
                    s
                },
                MoveState::EndMove => s.update(
                    i,
                    EntityRec {
                        directive: Option::Some(
                            MoveThisCard { moving: MoveState::RemoveComponent, ..d },
                        ),
                        ..r
                    },
                ),
                MoveState::RemoveComponent => s.update(
                    i,
                    EntityRec { directive: Option::None, ..r },
                ),
            },
        }
    }
}

/// The animator pass applied to entities `0..k`, in ascending handle order.
pub open spec fn steps_upto(s: Seq<EntityRec>, k: int, now: int) -> Seq<EntityRec>
    decreases k,
{
    if k <= 0 {
        s
    } else {
        step_entity(steps_upto(s, k - 1, now), k - 1, now)
    }
}

/// The whole animator pass over a store.
pub open spec fn move_cards_spec(s: Seq<EntityRec>, now: int) -> Seq<EntityRec> {
    steps_upto(s, s.len() as int, now)
}

/// The tweened transform stays well-formed: the position lands between its
/// endpoints and every spin angle folds into `[0, 360)`.
pub proof fn lemma_moved_transform_wf(tx: Transform, d: MoveThisCard, target: Vec2, now: int)
    requires
        tx.wf(),
        d.wf(),
        target.wf(),
    ensures
        moved_transform(tx, d, target, now).wf(),
{
    let st = d.time_at_start_of_move as int;
    let et = d.time_to_finish_move as int;
    let num = frac_num_of(st, et, now);
    let den = et - st;
    if et > st {
        lemma_lerp1_bounds(d.start_position.x as int, target.x as int, num, den);
        lemma_lerp1_bounds(d.start_position.y as int, target.y as int, num, den);
        lemma_rot_angle_props(d.rotation_freqs.0 as int, num, den);
        lemma_rot_angle_props(d.rotation_freqs.1 as int, num, den);
        lemma_rot_angle_props(d.rotation_freqs.2 as int, num, den);
    }
}

/// One animator step keeps the store well-formed, keeps its length, and
/// touches no entity but the one it steps.
pub proof fn lemma_step_entity_preserves(s: Seq<EntityRec>, i: int, now: int)
    requires
        wf_seq(s),
        0 <= i < s.len(),
    ensures
        step_entity(s, i, now).len() == s.len(),
        wf_seq(step_entity(s, i, now)),
        forall|j: int| 0 <= j < s.len() && j != i ==> step_entity(s, i, now)[j] == s[j],
{
    let r = s[i];
    assert(r.wf());
    if r.alive {
        match r.directive {
            Option::None => {},
            Option::Some(d) => match d.moving {
                MoveState::StartMove => {},
                MoveState::Moving => {
                    if resolves(s, d.target) {
                        let t = d.target->0;
                        assert(s[t.0 as int].wf());
                        lemma_moved_transform_wf(
                            r.transform,
                            d,
                            xy(s[t.0 as int].transform.translation),
                            now,
                        );
                    }
                },
                MoveState::EndMove => {},
                MoveState::RemoveComponent => {},
            },
        }
    }
}

/// Law: the tween's position starts exactly at the captured start and ends
/// exactly on the target — at or before the window opens the moved position
/// is the start, at or after it closes it is the target's position at
/// completion time, always at the entity's own depth. A degenerate
/// (zero-length) window snaps straight to the target.
pub proof fn lemma_move_endpoints(tx: Transform, d: MoveThisCard, target: Vec2, now: int)
    requires
        tx.wf(),
        d.wf(),
        target.wf(),
    ensures
        ({
            let st = d.time_at_start_of_move as int;
            let et = d.time_to_finish_move as int;
            let moved = moved_transform(tx, d, target, now);
            &&& (now >= et ==> moved.translation.x == target.x && moved.translation.y == target.y)
            &&& (now <= st && st < et ==> moved.translation.x == d.start_position.x
                && moved.translation.y == d.start_position.y)
            &&& moved.translation.z == tx.translation.z
        }),
{
    let st = d.time_at_start_of_move as int;
    let et = d.time_to_finish_move as int;
    if et > st {
        let num = frac_num_of(st, et, now);
        lemma_lerp1_bounds(d.start_position.x as int, target.x as int, num, et - st);
        lemma_lerp1_bounds(d.start_position.y as int, target.y as int, num, et - st);
    }
}

/// Law: one animator step only ever moves a directive forward through
/// `StartMove -> Moving -> EndMove -> RemoveComponent`; an unresolved target
/// leaves the state untouched for a retry; the frame after
/// `RemoveComponent` the directive is absent from the entity; and no other
/// entity is touched. That an entity never holds two directives at once is
/// structural: each record has a single optional directive slot, and
/// attaching over an existing directive fails.
pub proof fn lemma_directive_lifecycle(s: Seq<EntityRec>, i: int, now: int)
    requires
        wf_seq(s),
        0 <= i < s.len(),
    ensures
        ({
            let before = s[i];
            let after = step_entity(s, i, now)[i];
            &&& (before.directive is None ==> after.directive is None)
            &&& (before.directive is Some && before.alive ==> {
                let d = before.directive->0;
                match d.moving {
                    MoveState::StartMove => {
                        &&& after.directive is Some
                        &&& (after.directive->0.moving == MoveState::Moving
                            || after.directive->0.moving == MoveState::StartMove)
                        &&& (resolves(s, d.target) <==> after.directive->0.moving
                            == MoveState::Moving)
                    },
                    MoveState::Moving => {
                        &&& after.directive is Some
                        &&& (after.directive->0.moving == MoveState::Moving
                            || after.directive->0.moving == MoveState::EndMove)
                        &&& (resolves(s, d.target) && d.time_to_finish_move <= now
                            ==> after.directive->0.moving == MoveState::EndMove)
                    },
                    MoveState::EndMove => after.directive is Some
                        && after.directive->0.moving == MoveState::RemoveComponent,
                    MoveState::RemoveComponent => after.directive is None,
                }
            })
            &&& forall|j: int| 0 <= j < s.len() && j != i ==> step_entity(s, i, now)[j] == s[j]
        }),
{
    lemma_step_entity_preserves(s, i, now);
}

/// Begins a move: captures the entity's current position as the tween start,
/// records the target and enters `Moving`. The time window and spin
/// frequencies were seeded by whoever attached the directive.
pub fn start_new_move(tx: &Transform, e: Option<Entity>, c: &mut MoveThisCard)
    ensures
        *final(c) == (MoveThisCard {
            target: e,
            start_position: xy(tx.translation),
            moving: MoveState::Moving,
            ..*old(c)
        }),
{
    c.target = e;
    c.start_position = tx.translation.truncate();
    c.moving = MoveState::Moving;
}

/// Advances a `Moving` entity one frame: repositions it along the tween
/// toward the target's current position (at its own depth), spins it, and
/// enters `EndMove` once the window has elapsed.
pub fn moving_stuff(tx: &mut Transform, target: Vec2, c: &mut MoveThisCard, t: u128)
    requires
        old(tx).wf(),
        old(c).wf(),
        target.wf(),
        old(c).moving is Moving,
    ensures
        *final(tx) == moved_transform(*old(tx), *old(c), target, t as int),
        *final(c) == (MoveThisCard { moving: next_moving_state(*old(c), t as int), ..*old(c) }),
        final(tx).wf(),
        final(c).wf(),
{
    proof {
        lemma_moved_transform_wf(*tx, *c, target, t as int);
    }
    let st: u128 = c.time_at_start_of_move;
    let et: u128 = c.time_to_finish_move;
    let new_x: i64 = move_coord_exec(c.start_position.x, target.x, st, et, t);
    let new_y: i64 = move_coord_exec(c.start_position.y, target.y, st, et, t);
    let den: u128 = et - st;
    let num: u128 = clamped_elapsed(st, et, t);
    let rx: i64 = rot_angle_exec(c.rotation_freqs.0, num, den);
    let ry: i64 = rot_angle_exec(c.rotation_freqs.1, num, den);
    let rz: i64 = rot_angle_exec(c.rotation_freqs.2, num, den);
    tx.translation = Vec3 { x: new_x, y: new_y, z: tx.translation.z };
    tx.rotation = Vec3 { x: rx, y: ry, z: rz };
    if et <= t {
        c.moving = MoveState::EndMove;
    }
}

/// Interpolates one coordinate of a move at time `now`; a zero-length window
/// snaps to the target instead of dividing by zero.
pub fn move_coord_exec(a: i64, b: i64, st: u128, et: u128, now: u128) -> (r: i64)
    requires
        -TRANS_LIMIT <= a <= TRANS_LIMIT,
        -TRANS_LIMIT <= b <= TRANS_LIMIT,
        st <= et,
        et - st <= MAX_MOVE_MS,
    ensures
        r == move_coord(a as int, b as int, st as int, et as int, now as int),
        -TRANS_LIMIT <= r <= TRANS_LIMIT,
{
    if et <= st {
        b
    } else {
        let den: u128 = et - st;
        let num: u128 = clamped_elapsed(st, et, now);
        lerp_coord(a, b, num as i64, den as i64)
    }
}

/// Looks a directive target up: the target's current 2D position when it
/// resolves, nothing otherwise.
fn resolve_target(world: &World, t: Option<Entity>) -> (r: Option<Vec2>)
    ensures
        r is Some <==> resolves(world.entities@, t),
        resolves(world.entities@, t) ==> r == Option::Some(
            xy(world.entities@[t->Some_0.0 as int].transform.translation),
        ),
{
    match t {
        Some(e) => {
            if e.0 < world.entities.len() {
                let rec: EntityRec = world.entities[e.0];
                if rec.alive && rec.draggable.is_some() && rec.directive.is_none() {
                    return Some(rec.transform.translation.truncate());
                }
            }
            None
        },
        None => None,
    }
}

/// The per-frame animator pass: advances every live entity carrying a move
/// directive by one step of the lifecycle, in ascending handle order.
/// Entities whose directive's target does not resolve are skipped for this
/// frame (retried next frame); all others advance exactly as
/// `move_cards_spec` describes.
pub fn move_cards(world: &mut World, now: u128)
    requires
        old(world).wf(),
    ensures
        final(world).wf(),
        final(world).entities@ == move_cards_spec(old(world).entities@, now as int),
        final(world).entities@.len() == old(world).entities@.len(),
{
    let ghost s0 = world.entities@;
    let n: usize = world.entities.len();
    let mut i: usize = 0;
    while i < n
        invariant
            i <= n,
            n == s0.len(),
            wf_seq(s0),
            world.entities@ == steps_upto(s0, i as int, now as int),
            world.entities@.len() == n,
            wf_seq(world.entities@),
        decreases n - i,
    {
        let ghost s_pre = world.entities@;
        let rec: EntityRec = world.entities[i];
        proof {
            assert(rec.wf());
        }
        if rec.alive && rec.directive.is_some() {
            let c: MoveThisCard = rec.directive.unwrap();
            match c.moving {
                MoveState::StartMove => {
                    let target_pos: Option<Vec2> = resolve_target(world, c.target);
                    if target_pos.is_some() {
                        let mut c2: MoveThisCard = c;
                        start_new_move(&rec.transform, c.target, &mut c2);
                        world.entities.set(i, EntityRec { directive: Some(c2), ..rec });
                    }
                },
                MoveState::Moving => {
                    let target_pos: Option<Vec2> = resolve_target(world, c.target);
                    match target_pos {
                        Some(tp) => {
                            let mut tx: Transform = rec.transform;
                            let mut c2: MoveThisCard = c;
                            moving_stuff(&mut tx, tp, &mut c2, now);
                            world.entities.set(
                                i,
                                EntityRec { transform: tx, directive: Some(c2), ..rec },
                            );
                        },
                        None => {},
                    }
                },
                MoveState::EndMove => {
                    let mut c2: MoveThisCard = c;
                    c2.moving = MoveState::RemoveComponent;
                    world.entities.set(i, EntityRec { directive: Some(c2), ..rec });
                },
                MoveState::RemoveComponent => {
                    world.entities.set(i, EntityRec { directive: None, ..rec });
                },
            }
        }
        proof {
            lemma_step_entity_preserves(s_pre, i as int, now as int);
            assert(world.entities@ =~= step_entity(s_pre, i as int, now as int));
            assert(steps_upto(s0, i as int + 1, now as int) == step_entity(
                steps_upto(s0, i as int, now as int),
                i as int,
                now as int,
            ));
        }
        i += 1;
    }
    proof {
        assert(world.entities@ == move_cards_spec(s0, now as int));
    }
}

} // verus!
