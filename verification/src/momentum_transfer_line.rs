use vstd::prelude::*;

use crate::game_consts::{is_one_of, GameConsts};
use crate::momentum_transfer::{
    conserves_special_momentum, correction_step, neutral_special_momentum_fighters, should_conserve_special_momentum,
    special_momentum_plan, CorrectionInput, CorrectionStep, MomentumFlags, SpecialMomentumInput,
};

verus! {

// The per-fighter line variant of the momentum rules: state in per-player
// tables, whole-speed resets, and momentum-keeping specials fed from the
// current momentum.

/// The reverse-rush correction of the line variant; the same flags as the
/// status-hook variant, but `clear_speed` stops the fighter in every
/// direction.
pub fn jumpsquat_correction(flags: MomentumFlags, input: CorrectionInput, c: &GameConsts) -> (r: CorrectionStep)
    ensures
        r == correction_step(flags, input, *c),
{
    crate::momentum_transfer::jumpsquat_correction(flags, input, c)
}

/// What the line variant's momentum helper records.
#[derive(Clone, Copy, PartialEq, Eq, Structural, Debug)]
pub struct LineHelperPlan {
    pub refresh_rar_leniency: bool,
    /// Remember the horizontal speed as the jump squat velocity.
    pub record_jumpsquat_velocity: bool,
    pub record_ground_velocity: bool,
    pub record_momentum: bool,
    pub record_momentum_specials: bool,
}

pub open spec fn line_helper_plan(status_kind: i32, situation_kind: i32, c: GameConsts) -> LineHelperPlan {
    let s = c.status;
    LineHelperPlan {
        refresh_rar_leniency: status_kind == s.turn_run || status_kind == s.turn_run_brake,
        record_jumpsquat_velocity: status_kind == s.jump_squat,
        record_ground_velocity: situation_kind == c.situation.ground,
        record_momentum: seq![s.jump_squat, s.jump, s.pass, s.jump_aerial].contains(status_kind),
        record_momentum_specials: status_kind == s.jump_squat || status_kind == s.jump,
    }
}

/// What the line variant remembers on one frame: the squat's speed during a
/// jump squat, grounded speed on the ground, momentum in jump squats, jumps
/// and platform drops.
pub fn momentum_transfer_helper(status_kind: i32, situation_kind: i32, c: &GameConsts) -> (r: LineHelperPlan)
    ensures
        r == line_helper_plan(status_kind, situation_kind, *c),
{
    let s = &c.status;
    let momentum_statuses = [s.jump_squat, s.jump, s.pass, s.jump_aerial];
    assert(momentum_statuses@ =~= seq![s.jump_squat, s.jump, s.pass, s.jump_aerial]);
    LineHelperPlan {
        refresh_rar_leniency: status_kind == s.turn_run || status_kind == s.turn_run_brake,
        record_jumpsquat_velocity: status_kind == s.jump_squat,
        record_ground_velocity: situation_kind == c.situation.ground,
        record_momentum: is_one_of(&momentum_statuses, status_kind),
        record_momentum_specials: status_kind == s.jump_squat || status_kind == s.jump,
    }
}

/// What the line variant records, each for its statuses: leniency in turn
/// runs and their brakes, the squat velocity in jump squat, grounded speed on
/// the ground, momentum in jump squats, jumps, double jumps and platform
/// drops, and special momentum in jump squats and jumps.
pub proof fn lemma_line_helper_records(status_kind: i32, situation_kind: i32, c: GameConsts)
    ensures
        ({
            let s = c.status;
            let p = line_helper_plan(status_kind, situation_kind, c);
            &&& p.refresh_rar_leniency == (status_kind == s.turn_run || status_kind == s.turn_run_brake)
            &&& p.record_jumpsquat_velocity == (status_kind == s.jump_squat)
            &&& p.record_ground_velocity == (situation_kind == c.situation.ground)
            &&& p.record_momentum == (status_kind == s.jump_squat || status_kind == s.jump || status_kind == s.pass
                || status_kind == s.jump_aerial)
            &&& p.record_momentum_specials == (status_kind == s.jump_squat || status_kind == s.jump)
        }),
{
    let q = seq![c.status.jump_squat, c.status.jump, c.status.pass, c.status.jump_aerial];
    assert(q[0] == c.status.jump_squat && q[1] == c.status.jump && q[2] == c.status.pass && q[3] == c.status.jump_aerial);
    if q.contains(status_kind) {
        let i = choose|i: int| 0 <= i < 4 && q[i] == status_kind;
    }
}

/// Fighters of the line variant whose neutral special keeps momentum.
pub open spec fn line_neutral_special_fighters(c: GameConsts) -> Seq<i32> {
    let k = c.fighter;
    seq![k.captain, k.mario, k.luigi, k.mariod, k.diddy, k.pikachu, k.pichu, k.ganon]
}

pub open spec fn line_applies_momentum(input: SpecialMomentumInput, c: GameConsts) -> bool {
    input.situation_kind == c.situation.air && input.frame_at_most_1 && should_conserve_special_momentum(
        input.fighter_kind,
        input.status_kind,
        line_neutral_special_fighters(c),
        c,
    ) && input.moving
}

/// Whether the line variant gives a special the remembered momentum on its
/// first airborne frame (`input.moving` read after the frame's speed reset).
pub fn additional_momentum_transfer_moves(input: SpecialMomentumInput, c: &GameConsts) -> (r: bool)
    ensures
        r == line_applies_momentum(input, *c),
{
    let k = &c.fighter;
    let neutral = [k.captain, k.mario, k.luigi, k.mariod, k.diddy, k.pikachu, k.pichu, k.ganon];
    assert(neutral@ =~= line_neutral_special_fighters(*c));
    if input.situation_kind == c.situation.air && input.frame_at_most_1 {
        conserves_special_momentum(input.fighter_kind, input.status_kind, &neutral, c) && input.moving
    } else {
        false
    }
}

/// Captain Falcon's neutral special keeps the momentum in the line variant,
/// on its first airborne frame while moving, as the other listed specials do.
pub proof fn lemma_line_captain_keeps_momentum(input: SpecialMomentumInput, c: GameConsts)
    requires
        input.fighter_kind == c.fighter.captain,
        input.status_kind == c.status.special_n,
    ensures
        line_applies_momentum(input, c) == (input.situation_kind == c.situation.air && input.frame_at_most_1
            && input.moving),
{
    assert(line_neutral_special_fighters(c)[0] == input.fighter_kind);
}

/// Apart from Captain Falcon's neutral special, the line variant keeps the
/// momentum of exactly the specials that the status-hook variant keeps.
pub proof fn lemma_line_specials_match(input: SpecialMomentumInput, c: GameConsts)
    requires
        input.fighter_kind != c.fighter.captain,
    ensures
        line_applies_momentum(input, c) == special_momentum_plan(input, c).apply_specials,
{
    assert(line_neutral_special_fighters(c).contains(input.fighter_kind) ==> neutral_special_momentum_fighters(
        c,
    ).contains(input.fighter_kind)) by {
        if line_neutral_special_fighters(c).contains(input.fighter_kind) {
            let i = choose|i: int|
                0 <= i < line_neutral_special_fighters(c).len() && line_neutral_special_fighters(c)[i]
                    == input.fighter_kind;
            assert(i != 0);
            assert(neutral_special_momentum_fighters(c)[i - 1] == input.fighter_kind);
        }
    }
    assert(neutral_special_momentum_fighters(c).contains(input.fighter_kind) ==> line_neutral_special_fighters(
        c,
    ).contains(input.fighter_kind)) by {
        if neutral_special_momentum_fighters(c).contains(input.fighter_kind) {
            let i = choose|i: int|
                0 <= i < neutral_special_momentum_fighters(c).len() && neutral_special_momentum_fighters(c)[i]
                    == input.fighter_kind;
            assert(line_neutral_special_fighters(c)[i + 1] == input.fighter_kind);
        }
    }
}

/// What one frame of the line variant reads.
#[derive(Clone, Copy)]
pub struct RunInput {
    pub status_kind: i32,
    pub prev_status_kind: i32,
    pub situation_kind: i32,
    pub fighter_kind: i32,
    /// The current motion frame is below 2.
    pub frame_below_2: bool,
    /// A short-hop aerial is buffered.
    pub jump_mini_attack: bool,
}

#[derive(Clone, Copy, PartialEq, Eq, Structural, Debug)]
pub struct RunStep {
    pub correction: CorrectionStep,
    pub helper: LineHelperPlan,
}

pub open spec fn run_correction_input(input: RunInput) -> CorrectionInput {
    CorrectionInput {
        status_kind: input.status_kind,
        prev_status_kind: input.prev_status_kind,
        situation_kind: input.situation_kind,
        frame_below_2: input.frame_below_2,
        jump_mini_attack: input.jump_mini_attack,
    }
}

/// The first part of a frame of the line variant: the reverse-rush
/// correction and the bookkeeping. The momentum-keeping specials come after
/// the correction's speed reset has been applied, from
/// `additional_momentum_transfer_moves`.
pub fn run(flags: MomentumFlags, input: RunInput, c: &GameConsts) -> (r: RunStep)
    ensures
        r == (RunStep {
            correction: correction_step(flags, run_correction_input(input), *c),
            helper: line_helper_plan(input.status_kind, input.situation_kind, *c),
        }),
{
    let correction = jumpsquat_correction(
        flags,
        CorrectionInput {
            status_kind: input.status_kind,
            prev_status_kind: input.prev_status_kind,
            situation_kind: input.situation_kind,
            frame_below_2: input.frame_below_2,
            jump_mini_attack: input.jump_mini_attack,
        },
        c,
    );
    let helper = momentum_transfer_helper(input.status_kind, input.situation_kind, c);
    RunStep { correction, helper }
}

} // verus!
