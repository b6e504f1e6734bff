//! The face-orientation visibility rule: every frame, each front-face and
//! back-face presentation entity is shown or hidden by the sign of the dot
//! product between its outward (back) axis and the camera's fixed forward
//! axis. The rule is stateless — it recomputes visibility from the frame's
//! final transforms, so it tracks a card mid-flip during any spin.
//!
//! With whole-degree Euler XYZ rotations the dot product's sign is exactly
//! the product of the cosine signs of the x and y angles, so the rule stays
//! pure integer arithmetic: a front face is visible when the sign is
//! strictly positive, a back face when it is strictly negative, and an
//! edge-on card (sign zero) hides both faces.

use vstd::prelude::*;
use vstd::arithmetic::div_mod::{lemma_mod_multiples_vanish, lemma_small_mod};
use crate::geom::Vec3;
use crate::world::{wf_seq, EntityRec, Visibility, World};

verus! {

/// Sign of the cosine of an angle in whole degrees in `[0, 360)`: +1 on the
/// open front quarter-circles, -1 on the open back half, 0 at the two
/// edge-on angles 90 and 270.
pub open spec fn cos_sign(deg: int) -> int {
    if deg == 90 || deg == 270 {
        0
    } else if deg < 90 || deg > 270 {
        1
    } else {
        -1
    }
}

/// Sign of the dot product between an entity's outward (back) axis and the
/// camera's forward axis, for an Euler XYZ rotation in whole degrees: the
/// product of the cosine signs of the x and y angles. The z angle spins the
/// face within the camera plane and cannot turn it away.
pub open spec fn facing_sign(rot: Vec3) -> int {
    cos_sign(rot.x as int) * cos_sign(rot.y as int)
}

/// Computes the cosine sign of a folded angle.
pub fn cos_sign_exec(deg: i64) -> (r: i64)
    requires
        0 <= deg < 360,
    ensures
        r == cos_sign(deg as int),
{
    if deg == 90 || deg == 270 {
        0
    } else if deg < 90 || deg > 270 {
        1
    } else {
        -1
    }
}

/// Computes the facing sign of a rotation.
pub fn facing_sign_exec(rot: Vec3) -> (r: i64)
    requires
        0 <= rot.x < 360,
        0 <= rot.y < 360,
    ensures
        r == facing_sign(rot),
        -1 <= r <= 1,
{
    let cx: i64 = cos_sign_exec(rot.x);
    let cy: i64 = cos_sign_exec(rot.y);
    proof {
        assert(-1 <= cx as int * cy as int <= 1) by (nonlinear_arith)
            requires
                -1 <= cx <= 1,
                -1 <= cy <= 1,
        ;
    }
    cx * cy
}

/// Law: adding half a turn to an angle exactly negates its cosine sign.
pub proof fn lemma_cos_sign_half_turn(d: int)
    requires
        0 <= d < 360,
    ensures
        cos_sign((d + 180) % 360) == -cos_sign(d),
{
    if d < 180 {
        lemma_small_mod((d + 180) as nat, 360 as nat);
    } else {
        lemma_mod_multiples_vanish(1, d - 180, 360);
        lemma_small_mod((d - 180) as nat, 360 as nat);
    }
}

/// Law: rotating an entity half a turn about the y axis negates its facing
/// sign, so whichever of its two faces was shown becomes hidden and the
/// paired opposite face is shown instead.
pub proof fn lemma_half_turn_swaps_faces(rot: Vec3)
    requires
        0 <= rot.x < 360,
        0 <= rot.y < 360,
    ensures
        facing_sign(Vec3 { y: ((rot.y as int + 180) % 360) as i64, ..rot }) == -facing_sign(rot),
{
    lemma_cos_sign_half_turn(rot.y as int);
    let cx = cos_sign(rot.x as int);
    let cy = cos_sign(rot.y as int);
    assert(cx * (-cy) == -(cx * cy)) by (nonlinear_arith);
}

/// The world rotation a face entity presents: its parent visual's rotation
/// when the parent link resolves to a live entity (faces are rendered as
/// children with identity local rotation), its own rotation otherwise.
pub open spec fn face_rot(s: Seq<EntityRec>, i: int) -> Vec3 {
    match s[i].parent {
        Option::Some(pa) => if pa.0 < s.len() && s[pa.0 as int].alive {
            s[pa.0 as int].transform.rotation
        } else {
            s[i].transform.rotation
        },
        Option::None => s[i].transform.rotation,
    }
}

/// The front pass: every live front-face entity becomes visible exactly
/// when its facing sign is strictly positive; nothing else changes.
pub open spec fn front_pass_spec(s: Seq<EntityRec>) -> Seq<EntityRec> {
    Seq::new(
        s.len(),
        |i: int|
            if s[i].alive && s[i].front is Some {
                EntityRec {
                    visibility: if facing_sign(face_rot(s, i)) > 0 {
                        Visibility::Visible
                    } else {
                        Visibility::Hidden
                    },
                    ..s[i]
                }
            } else {
                s[i]
            },
    )
}

/// The back pass: every live back-face entity becomes visible exactly when
/// its facing sign is strictly negative; nothing else changes.
pub open spec fn back_pass_spec(s: Seq<EntityRec>) -> Seq<EntityRec> {
    Seq::new(
        s.len(),
        |i: int|
            if s[i].alive && s[i].back is Some {
                EntityRec {
                    visibility: if facing_sign(face_rot(s, i)) < 0 {
                        Visibility::Visible
                    } else {
                        Visibility::Hidden
                    },
                    ..s[i]
                }
            } else {
                s[i]
            },
    )
}

/// Either orientation pass only rewrites visibility flags: transforms,
/// liveness, parent links and face markers all survive, so the rotation a
/// face presents is the same before and after a pass.
pub proof fn lemma_passes_preserve_rot(s: Seq<EntityRec>, i: int)
    requires
        0 <= i < s.len(),
    ensures
        face_rot(front_pass_spec(s), i) == face_rot(s, i),
        face_rot(back_pass_spec(s), i) == face_rot(s, i),
{
}

/// Law: for a pair of live face entities presenting the same rotation — a
/// card's front at `i` and back at `j` — one run of both orientation passes
/// leaves the front visible and the back hidden when the facing sign is
/// strictly positive (in particular when the dot product is +1), the back
/// visible and the front hidden when it is strictly negative, and both
/// hidden when the card is edge-on (sign zero). Combined with
/// `lemma_half_turn_swaps_faces`, rotating the card half a turn swaps which
/// face is visible.
pub proof fn lemma_face_pair_complement(s: Seq<EntityRec>, i: int, j: int)
    requires
        0 <= i < s.len(),
        0 <= j < s.len(),
        i != j,
        s[i].alive,
        s[j].alive,
        s[i].front is Some,
        s[i].back is None,
        s[j].back is Some,
        s[j].front is None,
        face_rot(s, i) == face_rot(s, j),
    ensures
        ({
            let s2 = back_pass_spec(front_pass_spec(s));
            let sign = facing_sign(face_rot(s, i));
            &&& (sign > 0 ==> s2[i].visibility == Visibility::Visible && s2[j].visibility
                == Visibility::Hidden)
            &&& (sign < 0 ==> s2[i].visibility == Visibility::Hidden && s2[j].visibility
                == Visibility::Visible)
            &&& (sign == 0 ==> s2[i].visibility == Visibility::Hidden && s2[j].visibility
                == Visibility::Hidden)
        }),
{
    let s1 = front_pass_spec(s);
    lemma_passes_preserve_rot(s, i);
    lemma_passes_preserve_rot(s, j);
    lemma_passes_preserve_rot(s1, i);
    lemma_passes_preserve_rot(s1, j);
}

/// The per-frame front-face pass: shows every live front face whose facing
/// sign is strictly positive and hides the rest.
pub fn card_visual_keep_face_up(world: &mut World)
    requires
        old(world).wf(),
    ensures
        final(world).wf(),
        final(world).entities@ == front_pass_spec(old(world).entities@),
{
    let ghost s0 = world.entities@;
    let n: usize = world.entities.len();
    let mut i: usize = 0;
    while i < n
        invariant
            i <= n,
            n == s0.len(),
            wf_seq(s0),
            world.entities@.len() == n,
            forall|j: int| 0 <= j < i ==> world.entities@[j] == front_pass_spec(s0)[j],
            forall|j: int| i <= j < n ==> world.entities@[j] == s0[j],
        decreases n - i,
    {
        let rec: EntityRec = world.entities[i];
        proof {
            assert(rec == s0[i as int]);
            assert(s0[i as int].wf());
        }
        if rec.alive && rec.front.is_some() {
            let rot: Vec3 = match rec.parent {
                Some(pa) => {
                    if pa.0 < world.entities.len() {
                        let prec: EntityRec = world.entities[pa.0];
                        proof {
                            if pa.0 < i {
                                assert(prec == front_pass_spec(s0)[pa.0 as int]);
                            }
                            assert(prec.alive == s0[pa.0 as int].alive);
                            assert(prec.transform == s0[pa.0 as int].transform);
                        }
                        if prec.alive {
                            prec.transform.rotation
                        } else {
                            rec.transform.rotation
                        }
                    } else {
                        rec.transform.rotation
                    }
                },
                None => rec.transform.rotation,
            };
            proof {
                assert(rot == face_rot(s0, i as int));
                if rec.parent is Some && rec.parent->Some_0.0 < s0.len()
                    && s0[rec.parent->Some_0.0 as int].alive {
                    assert(s0[rec.parent->Some_0.0 as int].wf());
                }
            }
            let sign: i64 = facing_sign_exec(rot);
            let vis: Visibility = if sign > 0 {
                Visibility::Visible
            } else {
                Visibility::Hidden
            };
            world.entities.set(i, EntityRec { visibility: vis, ..rec });
        }
        i += 1;
    }
    proof {
        assert(world.entities@ =~= front_pass_spec(s0));
        assert forall|k: int| 0 <= k < world.entities@.len() implies (#[trigger] world.entities@[k]).wf() by {
            assert(s0[k].wf());
        }
    }
}

/// The per-frame back-face pass: shows every live back face whose facing
/// sign is strictly negative and hides the rest.
pub fn card_visual_keep_back_up(world: &mut World)
    requires
        old(world).wf(),
    ensures
        final(world).wf(),
        final(world).entities@ == back_pass_spec(old(world).entities@),
{
    let ghost s0 = world.entities@;
    let n: usize = world.entities.len();
    let mut i: usize = 0;
    while i < n
        invariant
            i <= n,
            n == s0.len(),
            wf_seq(s0),
            world.entities@.len() == n,
            forall|j: int| 0 <= j < i ==> world.entities@[j] == back_pass_spec(s0)[j],
            forall|j: int| i <= j < n ==> world.entities@[j] == s0[j],
        decreases n - i,
    {
        let rec: EntityRec = world.entities[i];
        proof {
            assert(rec == s0[i as int]);
            assert(s0[i as int].wf());
        }
        if rec.alive && rec.back.is_some() {
            let rot: Vec3 = match rec.parent {
                Some(pa) => {
                    if pa.0 < world.entities.len() {
                        let prec: EntityRec = world.entities[pa.0];
                        proof {
                            if pa.0 < i {
                                assert(prec == back_pass_spec(s0)[pa.0 as int]);
                            }
                            assert(prec.alive == s0[pa.0 as int].alive);
                            assert(prec.transform == s0[pa.0 as int].transform);
                        }
                        if prec.alive {
                            prec.transform.rotation
                        } else {
                            rec.transform.rotation
                        }
                    } else {
                        rec.transform.rotation
                    }
                },
                None => rec.transform.rotation,
            };
            proof {
                assert(rot == face_rot(s0, i as int));
                if rec.parent is Some && rec.parent->Some_0.0 < s0.len()
                    && s0[rec.parent->Some_0.0 as int].alive {
                    assert(s0[rec.parent->Some_0.0 as int].wf());
                }
            }
            let sign: i64 = facing_sign_exec(rot);
            let vis: Visibility = if sign < 0 {
                Visibility::Visible
            } else {
                Visibility::Hidden
            };
            world.entities.set(i, EntityRec { visibility: vis, ..rec });
        }
        i += 1;
    }
    proof {
        assert(world.entities@ =~= back_pass_spec(s0));
        assert forall|k: int| 0 <= k < world.entities@.len() implies (#[trigger] world.entities@[k]).wf() by {
            assert(s0[k].wf());
        }
    }
}

} // verus!
