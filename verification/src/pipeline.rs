//! The fixed per-frame pipeline. Execution is single-threaded and
//! cooperative: once per tick, in this order, the frame's pointer events are
//! handled, the drag controller repositions the grabbed proxy, the move
//! animator advances every directive, and the orientation rule recomputes
//! both faces' visibility from the frame's final transforms. The order is
//! explicit here rather than implied by registration: input must precede
//! drag application, and drag and animation must precede visibility.

use vstd::prelude::*;
use crate::animator::{move_cards, move_cards_spec};
use crate::drag::{drag, drag_spec, mouse_input, mouse_input_spec, Dragging, MousePosition};
use crate::geom::MAX_TIME_MS;
use crate::orient::{
    back_pass_spec, card_visual_keep_back_up, card_visual_keep_face_up, front_pass_spec,
};
use crate::world::{EntityRec, World};

verus! {

/// What one whole frame does to the store: pointer events, then drag
/// application, then the animator pass, then the two orientation passes.
pub open spec fn frame_spec(
    s: Seq<EntityRec>,
    d: Dragging,
    p: crate::geom::Vec2,
    just_pressed: bool,
    just_released: bool,
    now: int,
) -> (Seq<EntityRec>, Dragging) {
    let r = mouse_input_spec(s, d, p, just_pressed, just_released, now);
    let s2 = drag_spec(r.0, r.1, p);
    let s3 = move_cards_spec(s2, now);
    let s4 = back_pass_spec(front_pass_spec(s3));
    (s4, r.1)
}

/// Runs one frame of the pipeline over the store and drag state, given the
/// frame's pointer sample, its press/release events and the frame clock.
pub fn frame(
    world: &mut World,
    drag_state: &mut Dragging,
    pos: &MousePosition,
    just_pressed: bool,
    just_released: bool,
    now: u128,
)
    requires
        old(world).wf(),
        old(drag_state).wf(),
        pos.wf(),
        now <= MAX_TIME_MS,
    ensures
        final(world).wf(),
        final(drag_state).wf(),
        ({
            let r = frame_spec(
                old(world).entities@,
                *old(drag_state),
                pos.0,
                just_pressed,
                just_released,
                now as int,
            );
            final(world).entities@ == r.0 && *final(drag_state) == r.1
        }),
{
    mouse_input(world, drag_state, pos, just_pressed, just_released, now);
    drag(world, drag_state, pos);
    move_cards(world, now);
    card_visual_keep_face_up(world);
    card_visual_keep_back_up(world);
}

} // verus!
