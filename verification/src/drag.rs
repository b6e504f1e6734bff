//! The drag controller: binds pointer input to a movable proxy entity.
//!
//! On press it hit-tests every live proxy against the pointer with a
//! card-sized axis-aligned rectangle and records the grab (proxy handle,
//! pointer-to-centre offset and pre-drag position). While grabbed, each
//! frame relocates the proxy to follow the pointer at the recorded offset,
//! preserving depth. On release it hands the linked visual entity a move
//! directive that chases the proxy back, then clears the grab
//! unconditionally — a stale grab never survives a release.
//!
//! Among overlapping proxies the press keeps the hit *farthest* from the
//! pointer, later handles winning ties; that is this controller's selection
//! rule, deliberate observable behaviour that the contracts and tests pin
//! down.

use vstd::prelude::*;
use crate::animator::{MoveState, MoveThisCard};
use crate::cards::CardDraggable;
use crate::geom::{
    xy, Transform, Vec2, Vec3, CARD_HALF_HEIGHT, CARD_HALF_WIDTH, MAX_TIME_MS, TRANS_LIMIT,
};
use crate::world::{attach_ok, attach_result, Entity, EntityRec, World};

verus! {

/// Current world-space pointer position, recomputed from raw input by the
/// host each frame.
#[derive(Clone, Copy, Debug, PartialEq, Eq, Structural)]
pub struct MousePosition(pub Vec2);

impl MousePosition {
    /// The pointer sample lies inside the coordinate arena.
    pub open spec fn wf(self) -> bool {
        self.0.wf()
    }

    /// Runtime check mirroring `wf`.
    pub fn check_wf(&self) -> (r: bool)
        ensures
            r == self.wf(),
    {
        -TRANS_LIMIT <= self.0.x && self.0.x <= TRANS_LIMIT
            && -TRANS_LIMIT <= self.0.y && self.0.y <= TRANS_LIMIT
    }
}

/// The single-writer drag state: the currently grabbed proxy (if any), the
/// captured pointer-to-centre offset, the proxy's pre-drag position, and a
/// cached copy of the proxy's link back to its visual entity (kept to avoid
/// a second lookup on release).
#[derive(Clone, Copy, Debug)]
pub struct Dragging {
    pub draggable: Option<Entity>,
    pub offset: Vec2,
    pub card_start_position: Vec2,
    pub card_id: Option<Entity>,
    pub card_draggable: CardDraggable,
}

impl Dragging {
    /// The recorded offset is a difference of two arena points and the
    /// pre-drag position lies inside the arena.
    pub open spec fn wf(self) -> bool {
        &&& -2 * TRANS_LIMIT <= self.offset.x <= 2 * TRANS_LIMIT
        &&& -2 * TRANS_LIMIT <= self.offset.y <= 2 * TRANS_LIMIT
        &&& self.card_start_position.wf()
    }

    /// Runtime check mirroring `wf`.
    pub fn check_wf(&self) -> (r: bool)
        ensures
            r == self.wf(),
    {
        -2 * TRANS_LIMIT <= self.offset.x && self.offset.x <= 2 * TRANS_LIMIT
            && -2 * TRANS_LIMIT <= self.offset.y && self.offset.y <= 2 * TRANS_LIMIT
            && -TRANS_LIMIT <= self.card_start_position.x
            && self.card_start_position.x <= TRANS_LIMIT
            && -TRANS_LIMIT <= self.card_start_position.y
            && self.card_start_position.y <= TRANS_LIMIT
    }

    /// The no-grab state.
    pub open spec fn cleared_spec() -> Dragging {
        Dragging {
            draggable: Option::None,
            offset: Vec2 { x: 0, y: 0 },
            card_start_position: Vec2 { x: 0, y: 0 },
            card_id: Option::None,
            card_draggable: CardDraggable { card: Option::None },
        }
    }

    /// Builds the no-grab state.
    pub fn cleared() -> (r: Dragging)
        ensures
            r == Dragging::cleared_spec(),
            r.wf(),
    {
        Dragging {
            draggable: None,
            offset: Vec2 { x: 0, y: 0 },
            card_start_position: Vec2 { x: 0, y: 0 },
            card_id: None,
            card_draggable: CardDraggable { card: None },
        }
    }
}

/// Whether record `r` is a live proxy whose card-sized hit rectangle,
/// centred on the proxy, contains pointer position `p` (borders included).
pub open spec fn is_hit(r: EntityRec, p: Vec2) -> bool {
    &&& r.alive
    &&& r.draggable is Some
    &&& r.transform.translation.x - CARD_HALF_WIDTH <= p.x <= r.transform.translation.x
        + CARD_HALF_WIDTH
    &&& r.transform.translation.y - CARD_HALF_HEIGHT <= p.y <= r.transform.translation.y
        + CARD_HALF_HEIGHT
}

/// Squared distance from the pointer to a record's centre.
pub open spec fn dist2(r: EntityRec, p: Vec2) -> int {
    (p.x - r.transform.translation.x) * (p.x - r.transform.translation.x) + (p.y
        - r.transform.translation.y) * (p.y - r.transform.translation.y)
}

/// The press hit-scan over handles `0..k`: the running selection and its
/// squared distance, seeded with distance 0. A qualifying hit replaces the
/// selection whenever its distance is at least the running best, so the scan
/// keeps the farthest hit and later handles win ties.
pub open spec fn scan_hits(s: Seq<EntityRec>, p: Vec2, k: int) -> (Option<int>, int)
    decreases k,
{
    if k <= 0 {
        (Option::None::<int>, 0)
    } else {
        let prev = scan_hits(s, p, k - 1);
        if is_hit(s[k - 1], p) && dist2(s[k - 1], p) >= prev.1 {
            (Option::Some(k - 1), dist2(s[k - 1], p))
        } else {
            prev
        }
    }
}

/// The proxy a press at `p` selects, if any.
pub open spec fn chosen_hit(s: Seq<EntityRec>, p: Vec2) -> Option<int> {
    scan_hits(s, p, s.len() as int).0
}

/// The hit-scan selects nothing exactly when no proxy rectangle contains the
/// pointer; otherwise it selects a hit whose squared distance no other hit
/// exceeds.
pub proof fn lemma_scan_hits_props(s: Seq<EntityRec>, p: Vec2, k: int)
    requires
        0 <= k <= s.len(),
    ensures
        ({
            let sc = scan_hits(s, p, k);
            &&& sc.1 >= 0
            &&& (sc.0 is None ==> sc.1 == 0 && forall|j: int| 0 <= j < k ==> !is_hit(s[j], p))
            &&& (sc.0 is Some ==> {
                let c = sc.0->0;
                &&& 0 <= c < k
                &&& is_hit(s[c], p)
                &&& dist2(s[c], p) == sc.1
                &&& forall|j: int| 0 <= j < k && is_hit(s[j], p) ==> dist2(s[j], p) <= sc.1
            })
        }),
    decreases k,
{
    if k > 0 {
        lemma_scan_hits_props(s, p, k - 1);
        if is_hit(s[k - 1], p) {
            let dx = p.x - s[k - 1].transform.translation.x;
            let dy = p.y - s[k - 1].transform.translation.y;
            assert(dx * dx >= 0 && dy * dy >= 0) by (nonlinear_arith);
        }
    }
}

/// Law: a press with the pointer inside exactly one proxy's hit rectangle
/// selects exactly that proxy.
pub proof fn lemma_single_hit(s: Seq<EntityRec>, p: Vec2, j: int)
    requires
        0 <= j < s.len(),
        is_hit(s[j], p),
        forall|k: int| 0 <= k < s.len() && k != j ==> !(#[trigger] is_hit(s[k], p)),
    ensures
        chosen_hit(s, p) == Option::Some(j),
{
    lemma_single_hit_upto(s, p, j, s.len() as int);
}

proof fn lemma_single_hit_upto(s: Seq<EntityRec>, p: Vec2, j: int, k: int)
    requires
        0 <= j < k <= s.len(),
        is_hit(s[j], p),
        forall|m: int| 0 <= m < s.len() && m != j ==> !(#[trigger] is_hit(s[m], p)),
    ensures
        scan_hits(s, p, k).0 == Option::Some(j),
    decreases k,
{
    if k == j + 1 {
        lemma_scan_hits_props(s, p, j);
        let prev = scan_hits(s, p, j);
        if prev.0 is Some {
            let c = prev.0->0;
            assert(is_hit(s[c], p));
            assert(false);
        }
        let dx = p.x - s[j].transform.translation.x;
        let dy = p.y - s[j].transform.translation.y;
        assert(dx * dx >= 0 && dy * dy >= 0) by (nonlinear_arith);
    } else {
        lemma_single_hit_upto(s, p, j, k - 1);
    }
}

/// The drag state a press at `p` produces: an unchanged state when nothing
/// is hit, otherwise a grab of the selected proxy with the pointer offset
/// and pre-drag position captured.
pub open spec fn press_spec(s: Seq<EntityRec>, d: Dragging, p: Vec2) -> Dragging {
    match chosen_hit(s, p) {
        Option::Some(i) => Dragging {
            draggable: Option::Some(Entity(i as usize)),
            offset: Vec2 {
                x: (p.x - s[i].transform.translation.x) as i64,
                y: (p.y - s[i].transform.translation.y) as i64,
            },
            card_start_position: xy(s[i].transform.translation),
            card_id: Option::Some(Entity(i as usize)),
            card_draggable: s[i].draggable->0,
        },
        Option::None => d,
    }
}

/// Law: a press with the pointer outside every proxy rectangle leaves the
/// drag state unchanged.
pub proof fn lemma_press_misses_all(s: Seq<EntityRec>, d: Dragging, p: Vec2)
    requires
        forall|j: int| 0 <= j < s.len() ==> !(#[trigger] is_hit(s[j], p)),
    ensures
        press_spec(s, d, p) == d,
{
    lemma_scan_hits_props(s, p, s.len() as int);
    if chosen_hit(s, p) is Some {
        let c = chosen_hit(s, p)->0;
        assert(is_hit(s[c], p));
        assert(false);
    }
}

/// Law: a press with the pointer inside exactly one proxy's hit rectangle
/// grabs exactly that proxy.
pub proof fn lemma_press_single_hit(s: Seq<EntityRec>, d: Dragging, p: Vec2, j: int)
    requires
        0 <= j < s.len(),
        is_hit(s[j], p),
        forall|k: int| 0 <= k < s.len() && k != j ==> !(#[trigger] is_hit(s[k], p)),
    ensures
        press_spec(s, d, p).draggable == Option::Some(Entity(j as usize)),
        press_spec(s, d, p).card_id == Option::Some(Entity(j as usize)),
        press_spec(s, d, p).card_draggable == s[j].draggable->0,
{
    lemma_single_hit(s, p, j);
}

/// The directive a release at time `now` hands the grabbed card's visual
/// entity: chase the proxy back from the pre-drag position over a short
/// fixed window, with one full spin about the y axis.
pub open spec fn release_directive(d: Dragging, now: int) -> MoveThisCard {
    MoveThisCard {
        target: d.card_id,
        start_position: d.card_start_position,
        moving: MoveState::StartMove,
        time_at_start_of_move: now as u128,
        time_to_finish_move: (now + 300) as u128,
        rotation_freqs: (0i8, 1i8, 0i8),
    }
}

/// A release with a grab: attach the chase directive to the linked visual
/// entity where possible, and clear the grab unconditionally either way.
pub open spec fn release_spec(s: Seq<EntityRec>, d: Dragging, now: int) -> (Seq<EntityRec>, Dragging)
    recommends
        d.card_id is Some,
{
    let cleared = Dragging::cleared_spec();
    match d.card_draggable.card {
        Option::Some(v) => if attach_ok(s, v, release_directive(d, now)) {
            (attach_result(s, v, release_directive(d, now)), cleared)
        } else {
            (s, cleared)
        },
        Option::None => (s, cleared),
    }
}

/// Law: a release with no grab is a no-op, and a release with a grab always
/// clears the grab, whether or not the chase directive could be attached.
pub proof fn lemma_release_rules(s: Seq<EntityRec>, d: Dragging, p: Vec2, now: int)
    ensures
        d.card_id is None ==> mouse_input_spec(s, d, p, false, true, now) == (s, d),
        d.card_id is Some ==> mouse_input_spec(s, d, p, false, true, now).1
            == Dragging::cleared_spec(),
{
}

/// One frame of press/release handling. A release with no grab is a no-op
/// for the whole frame (its press sample is dropped with it); a release with
/// a grab is handled before any press, so a card can be re-grabbed in the
/// frame that dropped it.
pub open spec fn mouse_input_spec(
    s: Seq<EntityRec>,
    d: Dragging,
    p: Vec2,
    just_pressed: bool,
    just_released: bool,
    now: int,
) -> (Seq<EntityRec>, Dragging) {
    if just_released {
        if d.card_id is None {
            (s, d)
        } else {
            let r = release_spec(s, d, now);
            if just_pressed {
                (r.0, press_spec(r.0, r.1, p))
            } else {
                r
            }
        }
    } else if just_pressed {
        (s, press_spec(s, d, p))
    } else {
        (s, d)
    }
}

/// Handles the frame's pointer events: on release, hands the grabbed card's
/// visual entity a directive that chases its proxy home and clears the grab
/// unconditionally; on press, hit-tests the proxies and records a grab.
pub fn mouse_input(
    world: &mut World,
    drag_state: &mut Dragging,
    pos: &MousePosition,
    just_pressed: bool,
    just_released: bool,
    now: u128,
)
    requires
        old(world).wf(),
        old(drag_state).wf(),
        pos.wf(),
        now <= MAX_TIME_MS,
    ensures
        final(world).wf(),
        final(drag_state).wf(),
        ({
            let r = mouse_input_spec(
                old(world).entities@,
                *old(drag_state),
                pos.0,
                just_pressed,
                just_released,
                now as int,
            );
            final(world).entities@ == r.0 && *final(drag_state) == r.1
        }),
{
    if just_released {
        if drag_state.card_id.is_none() {
            return;
        }
        let dir = MoveThisCard {
            target: drag_state.card_id,
            start_position: drag_state.card_start_position,
            moving: MoveState::StartMove,
            time_at_start_of_move: now,
            time_to_finish_move: now + 300,
            rotation_freqs: (0i8, 1i8, 0i8),
        };
        match drag_state.card_draggable.card {
            Some(v) => {
                let _attached: bool = world.attach_directive(v, dir);
            },
            None => {},
        }
        *drag_state = Dragging::cleared();
    }
    if just_pressed {
        press(world, drag_state, pos);
    }
}

/// The press hit-test: scans every live proxy and grabs the selected one.
fn press(world: &World, drag_state: &mut Dragging, pos: &MousePosition)
    requires
        world.wf(),
        old(drag_state).wf(),
        pos.wf(),
    ensures
        *final(drag_state) == press_spec(world.entities@, *old(drag_state), pos.0),
        final(drag_state).wf(),
{
    let n: usize = world.entities.len();
    let mut best: Option<usize> = None;
    let mut best_d2: i64 = 0;
    let mut i: usize = 0;
    while i < n
        invariant
            i <= n,
            n == world.entities@.len(),
            world.wf(),
            pos.wf(),
            ({
                let sc = scan_hits(world.entities@, pos.0, i as int);
                &&& (match best {
                    Option::Some(b) => sc.0 == Option::Some(b as int) && (b as int) < i as int,
                    Option::None => sc.0 is None,
                })
                &&& best_d2 == sc.1
                &&& 0 <= best_d2 <= 10000
            }),
        decreases n - i,
    {
        let rec: EntityRec = world.entities[i];
        proof {
            assert(rec.wf());
        }
        if rec.alive && rec.draggable.is_some() {
            let dx: i64 = pos.0.x - rec.transform.translation.x;
            let dy: i64 = pos.0.y - rec.transform.translation.y;
            if -CARD_HALF_WIDTH <= dx && dx <= CARD_HALF_WIDTH && -CARD_HALF_HEIGHT <= dy
                && dy <= CARD_HALF_HEIGHT {
                proof {
                    assert(dx * dx <= 5000 && dx * dx >= 0) by (nonlinear_arith)
                        requires -53 <= dx <= 53;
                    assert(dy * dy <= 5000 && dy * dy >= 0) by (nonlinear_arith)
                        requires -70 <= dy <= 70;
                }
                let d2: i64 = dx * dx + dy * dy;
                if d2 >= best_d2 {
                    best_d2 = d2;
                    best = Some(i);
                }
            }
        }
        i += 1;
    }
    match best {
        Some(b) => {
            proof {
                lemma_scan_hits_props(world.entities@, pos.0, n as int);
                assert(world.entities@[b as int].wf());
            }
            let rec: EntityRec = world.entities[b];
            *drag_state = Dragging {
                draggable: Some(Entity(b)),
                offset: Vec2 {
                    x: pos.0.x - rec.transform.translation.x,
                    y: pos.0.y - rec.transform.translation.y,
                },
                card_start_position: rec.transform.translation.truncate(),
                card_id: Some(Entity(b)),
                card_draggable: rec.draggable.unwrap(),
            };
        },
        None => {},
    }
}

/// A coordinate clamped into the arena.
pub open spec fn clamp_coord(v: int) -> int {
    if v < -TRANS_LIMIT {
        -TRANS_LIMIT as int
    } else if v > TRANS_LIMIT {
        TRANS_LIMIT as int
    } else {
        v
    }
}

/// One frame of drag application: the grabbed proxy is relocated to
/// `pointer - offset` (clamped into the arena) at its own depth; no grab, or
/// a grab naming a proxy that is no longer present, changes nothing.
pub open spec fn drag_spec(s: Seq<EntityRec>, d: Dragging, p: Vec2) -> Seq<EntityRec> {
    match d.draggable {
        Option::None => s,
        Option::Some(e) => if e.0 < s.len() && s[e.0 as int].alive && s[e.0 as int].draggable
            is Some {
            s.update(
                e.0 as int,
                EntityRec {
                    transform: Transform {
                        translation: Vec3 {
                            x: clamp_coord(p.x - d.offset.x) as i64,
                            y: clamp_coord(p.y - d.offset.y) as i64,
                            z: s[e.0 as int].transform.translation.z,
                        },
                        rotation: s[e.0 as int].transform.rotation,
                    },
                    ..s[e.0 as int]
                },
            )
        } else {
            s
        },
    }
}

/// Relocates the grabbed proxy to follow the pointer at the recorded
/// offset, preserving depth. Without a grab, or with a grab whose proxy is
/// no longer in the store, this is a no-op: the stale grab is cleared
/// defensively by the next release.
pub fn drag(world: &mut World, drag_state: &Dragging, pos: &MousePosition)
    requires
        old(world).wf(),
        drag_state.wf(),
        pos.wf(),
    ensures
        final(world).wf(),
        final(world).entities@ == drag_spec(old(world).entities@, *drag_state, pos.0),
{
    match drag_state.draggable {
        Some(e) => {
            if e.0 < world.entities.len() {
                let rec: EntityRec = world.entities[e.0];
                if rec.alive && rec.draggable.is_some() {
                    let nx: i64 = clamp_exec(pos.0.x - drag_state.offset.x);
                    let ny: i64 = clamp_exec(pos.0.y - drag_state.offset.y);
                    world.entities.set(
                        e.0,
                        EntityRec {
                            transform: Transform {
                                translation: Vec3 { x: nx, y: ny, z: rec.transform.translation.z },
                                rotation: rec.transform.rotation,
                            },
                            ..rec
                        },
                    );
                    proof {
                        assert(world.entities@[e.0 as int].wf());
                    }
                }
            }
        },
        None => {},
    }
}

/// Clamps one coordinate into the arena.
fn clamp_exec(v: i64) -> (r: i64)
    ensures
        r == clamp_coord(v as int),
        -TRANS_LIMIT <= r <= TRANS_LIMIT,
{
    if v < -TRANS_LIMIT {
        -TRANS_LIMIT
    } else if v > TRANS_LIMIT {
        TRANS_LIMIT
    } else {
        v
    }
}

} // verus!
