use vstd::prelude::*;

use crate::cmd_flags::{cat_has, compare_cat};
use crate::game_consts::GameConsts;

verus! {

// Cancel windows that movesets open on their own frames.

/// Whether the first command category asks for a jump: a stick jump where
/// flick jumps are enabled, or the jump button.
pub open spec fn wants_jump(cat1: i32, flick_jump_enabled: bool, c: GameConsts) -> bool {
    (cat_has(cat1, c.cmd.cat1_jump) && flick_jump_enabled) || cat_has(cat1, c.cmd.cat1_jump_button)
}

/// A jump is asked for by the jump-button bit, or by the stick-jump bit
/// where flick jumps are enabled.
pub proof fn lemma_wants_jump(cat1: i32, flick_jump_enabled: bool, c: GameConsts)
    ensures
        wants_jump(cat1, flick_jump_enabled, c) == (cat1 & c.cmd.cat1_jump_button != 0 || (flick_jump_enabled
            && cat1 & c.cmd.cat1_jump != 0)),
{
}

pub fn jump_checker_buffer(cat1: i32, flick_jump_enabled: bool, c: &GameConsts) -> (r: bool)
    ensures
        r == wants_jump(cat1, flick_jump_enabled, *c),
{
    (compare_cat(cat1, c.cmd.cat1_jump) && flick_jump_enabled) || compare_cat(cat1, c.cmd.cat1_jump_button)
}

/// What a jump cancel reads of the fighter.
#[derive(Clone, Copy)]
pub struct JumpCancelInput {
    pub situation_kind: i32,
    pub cat1: i32,
    pub flick_jump_enabled: bool,
    /// The current motion frame lies within the cancel window, both ends included.
    pub frame_in_window: bool,
    pub jump_count: i32,
    pub jump_count_max: i32,
}

/// The status a jump cancel changes to, if any: a double jump in the air
/// while jumps remain, a jump squat on the ground.
pub open spec fn jump_cancel_status(input: JumpCancelInput, c: GameConsts) -> Option<i32> {
    if wants_jump(input.cat1, input.flick_jump_enabled, c) && input.frame_in_window {
        if input.situation_kind == c.situation.air {
            if input.jump_count < input.jump_count_max {
                Some(c.status.jump_aerial)
            } else {
                None
            }
        } else if input.situation_kind == c.situation.ground {
            Some(c.status.jump_squat)
        } else {
            None
        }
    } else {
        None
    }
}

pub fn enable_jump_cancel(input: JumpCancelInput, c: &GameConsts) -> (r: Option<i32>)
    ensures
        r == jump_cancel_status(input, *c),
{
    if jump_checker_buffer(input.cat1, input.flick_jump_enabled, c) && input.frame_in_window {
        if input.situation_kind == c.situation.air {
            if input.jump_count < input.jump_count_max {
                return Some(c.status.jump_aerial);
            }
        } else if input.situation_kind == c.situation.ground {
            return Some(c.status.jump_squat);
        }
    }
    None
}

/// A jump cancel, and whether the fighter turns around first.
#[derive(Clone, Copy, PartialEq, Eq, Structural, Debug)]
pub struct JumpCancel {
    pub status_kind: i32,
    pub reverse_lr: bool,
}

pub open spec fn reversable_jump_cancel(
    input: JumpCancelInput,
    reversable_ground: bool,
    reversable_air: bool,
    stick_backward: bool,
    c: GameConsts,
) -> Option<JumpCancel> {
    match jump_cancel_status(input, c) {
        Some(status_kind) => Some(
            JumpCancel {
                status_kind,
                reverse_lr: stick_backward && (if input.situation_kind == c.situation.air {
                    reversable_air
                } else {
                    reversable_ground
                }),
            },
        ),
        None => None,
    }
}

/// A jump cancel that turns the fighter towards a backward stick, on the
/// ground or in the air as allowed.
pub fn enable_jump_cancel_dir_reversable(
    input: JumpCancelInput,
    reversable_ground: bool,
    reversable_air: bool,
    stick_backward: bool,
    c: &GameConsts,
) -> (r: Option<JumpCancel>)
    ensures
        r == reversable_jump_cancel(input, reversable_ground, reversable_air, stick_backward, *c),
{
    if jump_checker_buffer(input.cat1, input.flick_jump_enabled, c) && input.frame_in_window {
        if input.situation_kind == c.situation.air {
            if input.jump_count < input.jump_count_max {
                let reverse = reversable_air && stick_backward;
                return Some(JumpCancel { status_kind: c.status.jump_aerial, reverse_lr: reverse });
            }
        } else if input.situation_kind == c.situation.ground {
            let reverse = reversable_ground && stick_backward;
            return Some(JumpCancel { status_kind: c.status.jump_squat, reverse_lr: reverse });
        }
    }
    None
}

/// Without reversal the reversible jump cancel changes to exactly the status
/// of the plain one and never turns the fighter.
pub proof fn lemma_unreversable_is_plain(input: JumpCancelInput, stick_backward: bool, c: GameConsts)
    ensures
        reversable_jump_cancel(input, false, false, stick_backward, c) == (match jump_cancel_status(input, c) {
            Some(status_kind) => Some(JumpCancel { status_kind, reverse_lr: false }),
            None => None::<JumpCancel>,
        }),
{
}

/// A reversible jump cancel changes to the same status as the plain one; on
/// the ground it turns the fighter exactly when the stick is backward and the
/// move is reversible on the ground, in the air exactly when the stick is
/// backward and the move is reversible in the air, so the ground reversal
/// never depends on the air flag nor the air reversal on the ground flag.
pub proof fn lemma_reversal_by_situation(
    input: JumpCancelInput,
    reversable_ground: bool,
    reversable_air: bool,
    other: bool,
    stick_backward: bool,
    c: GameConsts,
)
    requires
        c.situation.ground != c.situation.air,
    ensures
        ({
            let r = reversable_jump_cancel(input, reversable_ground, reversable_air, stick_backward, c);
            &&& r is Some <==> jump_cancel_status(input, c) is Some
            &&& r matches Some(j) ==> Some(j.status_kind) == jump_cancel_status(input, c)
            &&& input.situation_kind == c.situation.ground ==> (r matches Some(j) ==> j.reverse_lr == (
            stick_backward && reversable_ground))
            &&& input.situation_kind == c.situation.ground ==> r == reversable_jump_cancel(
                input,
                reversable_ground,
                other,
                stick_backward,
                c,
            )
            &&& input.situation_kind == c.situation.air ==> (r matches Some(j) ==> j.reverse_lr == (stick_backward
                && reversable_air))
            &&& input.situation_kind == c.situation.air ==> r == reversable_jump_cancel(
                input,
                other,
                reversable_air,
                stick_backward,
                c,
            )
            &&& !stick_backward ==> (r matches Some(j) ==> !j.reverse_lr)
        }),
{
}

/// A jump cancel needs a jump command (the jump button, or a stick jump with
/// flick jumps enabled) inside the window; it then gives a double jump in the
/// air exactly while jumps remain, a jump squat on the ground, and nothing in
/// any other situation.
pub proof fn lemma_jump_cancel_conditions(input: JumpCancelInput, c: GameConsts)
    requires
        c.situation.ground != c.situation.air,
    ensures
        ({
            let r = jump_cancel_status(input, c);
            let wants = (input.cat1 & c.cmd.cat1_jump != 0 && input.flick_jump_enabled) || input.cat1
                & c.cmd.cat1_jump_button != 0;
            &&& !wants || !input.frame_in_window ==> r is None
            &&& wants && input.frame_in_window && input.situation_kind == c.situation.air ==> r == (if input.jump_count
                < input.jump_count_max {
                Some(c.status.jump_aerial)
            } else {
                None
            })
            &&& wants && input.frame_in_window && input.situation_kind == c.situation.ground ==> r == Some(
                c.status.jump_squat,
            )
            &&& input.situation_kind != c.situation.air && input.situation_kind != c.situation.ground ==> r is None
        }),
{
}

/// Whether a fast fall is reserved: in the air, stick down, fall command,
/// already falling.
pub fn enable_fast_fall(situation_kind: i32, stick_down: bool, cat2: i32, falling: bool, c: &GameConsts) -> (r: bool)
    ensures
        r == (situation_kind == c.situation.air && stick_down && cat_has(cat2, c.cmd.cat2_fall_jump) && falling),
{
    if situation_kind == c.situation.air {
        if stick_down && compare_cat(cat2, c.cmd.cat2_fall_jump) && falling {
            return true;
        }
    }
    false
}

/// The landing status to change to on the frame the fighter touches down.
pub fn enable_land_cancel(situation_kind: i32, prev_situation_kind: i32, land_status: i32, c: &GameConsts) -> (r:
    Option<i32>)
    ensures
        r == (if situation_kind == c.situation.ground && prev_situation_kind == c.situation.air {
            Some(land_status)
        } else {
            None
        }),
{
    if situation_kind == c.situation.ground && prev_situation_kind == c.situation.air {
        Some(land_status)
    } else {
        None
    }
}

/// A dash or turn-dash cancel on the ground within the frames
/// `begin_frame_window..=end_frame_window`; `frame` is the current motion
/// frame rounded towards zero.
pub fn enable_dash_cancel(
    cat1: i32,
    situation_kind: i32,
    frame: i32,
    begin_frame_window: i32,
    end_frame_window: i32,
    c: &GameConsts,
) -> (r: Option<i32>)
    ensures
        r == (if begin_frame_window <= frame <= end_frame_window && situation_kind == c.situation.ground {
            if cat_has(cat1, c.cmd.cat1_dash) {
                Some(c.status.dash)
            } else if cat_has(cat1, c.cmd.cat1_turn_dash) {
                Some(c.status.turn_dash)
            } else {
                None
            }
        } else {
            None
        }),
{
    if frame >= begin_frame_window && frame <= end_frame_window && situation_kind == c.situation.ground {
        if compare_cat(cat1, c.cmd.cat1_dash) {
            return Some(c.status.dash);
        } else if compare_cat(cat1, c.cmd.cat1_turn_dash) {
            return Some(c.status.turn_dash);
        }
    }
    None
}

} // verus!
