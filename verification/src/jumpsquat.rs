use vstd::prelude::*;

use crate::cmd_flags::{cat_has, compare_cat};
use crate::game_consts::{is_one_of, GameConsts, StatusKinds};

verus! {

/// Grounded attacks out of which a jump may be attack-cancelled.
pub open spec fn attack_cancel_statuses(s: StatusKinds) -> Seq<i32> {
    seq![s.attack, s.attack_100, s.attack_dash, s.attack_hi3, s.attack_lw3, s.attack_s3, s.attack_hi4,
        s.attack_lw4, s.attack_s4, s.attack_s4_hold, s.attack_hi4_hold, s.attack_lw4_hold, s.attack_s4_start,
        s.attack_hi4_start, s.attack_lw4_start]
}

/// The attacks that may be jump-cancelled: jab, rapid jab, dash attack, the
/// tilts and the smash attacks in every phase.
pub proof fn lemma_attack_cancel_statuses(x: i32, s: StatusKinds)
    ensures
        attack_cancel_statuses(s).contains(x) <==> (x == s.attack || x == s.attack_100 || x == s.attack_dash || x == s.attack_hi3 || x == s.attack_lw3 || x == s.attack_s3 || x == s.attack_hi4 || x == s.attack_lw4 || x == s.attack_s4 || x == s.attack_s4_hold || x == s.attack_hi4_hold || x == s.attack_lw4_hold || x == s.attack_s4_start || x == s.attack_hi4_start || x == s.attack_lw4_start),
{
    let q = attack_cancel_statuses(s);
    assert(q[0] == s.attack);
    assert(q[1] == s.attack_100);
    assert(q[2] == s.attack_dash);
    assert(q[3] == s.attack_hi3);
    assert(q[4] == s.attack_lw3);
    assert(q[5] == s.attack_s3);
    assert(q[6] == s.attack_hi4);
    assert(q[7] == s.attack_lw4);
    assert(q[8] == s.attack_s4);
    assert(q[9] == s.attack_s4_hold);
    assert(q[10] == s.attack_hi4_hold);
    assert(q[11] == s.attack_lw4_hold);
    assert(q[12] == s.attack_s4_start);
    assert(q[13] == s.attack_hi4_start);
    assert(q[14] == s.attack_lw4_start);
    if q.contains(x) {
        let i = choose|i: int| 0 <= i < 15 && q[i] == x;
    }
}

pub fn is_attack_cancel_status(status_kind: i32, s: &StatusKinds) -> (r: bool)
    ensures
        r == attack_cancel_statuses(*s).contains(status_kind),
{
    let list = [s.attack, s.attack_100, s.attack_dash, s.attack_hi3, s.attack_lw3, s.attack_s3, s.attack_hi4,
        s.attack_lw4, s.attack_s4, s.attack_s4_hold, s.attack_hi4_hold, s.attack_lw4_hold, s.attack_s4_start,
        s.attack_hi4_start, s.attack_lw4_start];
    assert(list@ =~= attack_cancel_statuses(*s));
    is_one_of(&list, status_kind)
}

// ---------------------------------------------------------------------------
// Main status of jump squat: a decision that waits twice on the game.
// ---------------------------------------------------------------------------

/// Where the main status of jump squat stands within one frame.
#[derive(Clone, Copy, PartialEq, Eq, Structural, Debug)]
pub enum JumpSquatMainPhase {
    Start,
    /// Waiting for the game's ground-item transition check.
    AwaitGroundItem { situation_kind: i32 },
    /// Waiting for the game's special-flag hoist check.
    AwaitSpecialFlagHoist { situation_kind: i32 },
    Done,
}

/// What the game reports to the main status of jump squat.
#[derive(Clone, Copy, PartialEq, Eq, Structural, Debug)]
pub enum JumpSquatMainEvent {
    /// The frame begins.
    Begin {
        /// A fighter-specific routine ran and asked to end the status.
        custom_routine_ended: bool,
        situation_kind: i32,
        escape_air_enabled: bool,
        jump_start_enabled: bool,
        fall_enabled: bool,
    },
    /// The ground-item transition check ran.
    GroundItemChecked { transitioned: bool, cat1: i32, special_hi_enabled: bool },
    /// The special-flag hoist check ran.
    SpecialFlagHoistChecked { hoisted: bool, cat2: i32, attack_hi4_start_enabled: bool, cstick_on: bool },
}

/// What the main status of jump squat asks of the game.
#[derive(Clone, Copy, PartialEq, Eq, Structural, Debug)]
pub enum JumpSquatMainAction {
    /// End the status (the status returns 1).
    EndStatus,
    /// Change to `status_kind`, clearing the command buffer when asked; the
    /// status then returns 0.
    ChangeStatus { status_kind: i32, clear_buffer: bool },
    /// Run the ground-item transition check and report it.
    CheckGroundItem,
    /// Run the special-flag hoist check and report it.
    CheckSpecialFlagHoist,
    /// Nothing more this frame (the status returns 0).
    Finish,
}

pub open spec fn jumpsquat_main_step(phase: JumpSquatMainPhase, event: JumpSquatMainEvent, c: GameConsts) -> (
    JumpSquatMainPhase,
    JumpSquatMainAction,
) {
    match (phase, event) {
        (
            JumpSquatMainPhase::Start,
            JumpSquatMainEvent::Begin {
                custom_routine_ended,
                situation_kind,
                escape_air_enabled,
                jump_start_enabled,
                fall_enabled,
            },
        ) => {
            if custom_routine_ended {
                (JumpSquatMainPhase::Done, JumpSquatMainAction::EndStatus)
            } else if escape_air_enabled {
                (
                    JumpSquatMainPhase::Done,
                    JumpSquatMainAction::ChangeStatus { status_kind: c.status.escape_air, clear_buffer: true },
                )
            } else if jump_start_enabled {
                (
                    JumpSquatMainPhase::Done,
                    JumpSquatMainAction::ChangeStatus { status_kind: c.status.jump, clear_buffer: false },
                )
            } else if fall_enabled && situation_kind == c.situation.air {
                (
                    JumpSquatMainPhase::Done,
                    JumpSquatMainAction::ChangeStatus { status_kind: c.status.fall, clear_buffer: false },
                )
            } else {
                (JumpSquatMainPhase::AwaitGroundItem { situation_kind }, JumpSquatMainAction::CheckGroundItem)
            }
        },
        (
            JumpSquatMainPhase::AwaitGroundItem { situation_kind },
            JumpSquatMainEvent::GroundItemChecked { transitioned, cat1, special_hi_enabled },
        ) => {
            if transitioned {
                (JumpSquatMainPhase::Done, JumpSquatMainAction::Finish)
            } else if special_hi_enabled && cat_has(cat1, c.cmd.cat1_special_hi) && situation_kind
                == c.situation.ground {
                (
                    JumpSquatMainPhase::Done,
                    JumpSquatMainAction::ChangeStatus { status_kind: c.status.special_hi, clear_buffer: true },
                )
            } else {
                (
                    JumpSquatMainPhase::AwaitSpecialFlagHoist { situation_kind },
                    JumpSquatMainAction::CheckSpecialFlagHoist,
                )
            }
        },
        (
            JumpSquatMainPhase::AwaitSpecialFlagHoist { situation_kind },
            JumpSquatMainEvent::SpecialFlagHoistChecked { hoisted, cat2, attack_hi4_start_enabled, cstick_on },
        ) => {
            if !hoisted && attack_hi4_start_enabled && !cstick_on && cat_has(
                cat2,
                c.cmd.cat2_attack_dash_attack_hi4,
            ) && situation_kind == c.situation.ground {
                (
                    JumpSquatMainPhase::Done,
                    JumpSquatMainAction::ChangeStatus {
                        status_kind: c.status.attack_hi4_start,
                        clear_buffer: true,
                    },
                )
            } else {
                (JumpSquatMainPhase::Done, JumpSquatMainAction::Finish)
            }
        },
        _ => (JumpSquatMainPhase::Done, JumpSquatMainAction::Finish),
    }
}

/// One step of the main status of jump squat: out of jump squat into an air
/// dodge, a jump or a fall, else (after the game's item check) into an up
/// special, else (after the game's hoist check) into an up smash. An event
/// that does not belong to the phase finishes the frame.
#[allow(non_snake_case)]
pub fn status_JumpSquat_Main(phase: JumpSquatMainPhase, event: JumpSquatMainEvent, c: &GameConsts) -> (r: (
    JumpSquatMainPhase,
    JumpSquatMainAction,
))
    ensures
        r == jumpsquat_main_step(phase, event, *c),
{
    match (phase, event) {
        (
            JumpSquatMainPhase::Start,
            JumpSquatMainEvent::Begin {
                custom_routine_ended,
                situation_kind,
                escape_air_enabled,
                jump_start_enabled,
                fall_enabled,
            },
        ) => {
            if custom_routine_ended {
                (JumpSquatMainPhase::Done, JumpSquatMainAction::EndStatus)
            } else if escape_air_enabled {
                (
                    JumpSquatMainPhase::Done,
                    JumpSquatMainAction::ChangeStatus { status_kind: c.status.escape_air, clear_buffer: true },
                )
            } else if jump_start_enabled {
                (
                    JumpSquatMainPhase::Done,
                    JumpSquatMainAction::ChangeStatus { status_kind: c.status.jump, clear_buffer: false },
                )
            } else if fall_enabled && situation_kind == c.situation.air {
                (
                    JumpSquatMainPhase::Done,
                    JumpSquatMainAction::ChangeStatus { status_kind: c.status.fall, clear_buffer: false },
                )
            } else {
                (JumpSquatMainPhase::AwaitGroundItem { situation_kind }, JumpSquatMainAction::CheckGroundItem)
            }
        },
        (
            JumpSquatMainPhase::AwaitGroundItem { situation_kind },
            JumpSquatMainEvent::GroundItemChecked { transitioned, cat1, special_hi_enabled },
        ) => {
            if transitioned {
                (JumpSquatMainPhase::Done, JumpSquatMainAction::Finish)
            } else if special_hi_enabled && compare_cat(cat1, c.cmd.cat1_special_hi) && situation_kind
                == c.situation.ground {
                (
                    JumpSquatMainPhase::Done,
                    JumpSquatMainAction::ChangeStatus { status_kind: c.status.special_hi, clear_buffer: true },
                )
            } else {
                (
                    JumpSquatMainPhase::AwaitSpecialFlagHoist { situation_kind },
                    JumpSquatMainAction::CheckSpecialFlagHoist,
                )
            }
        },
        (
            JumpSquatMainPhase::AwaitSpecialFlagHoist { situation_kind },
            JumpSquatMainEvent::SpecialFlagHoistChecked { hoisted, cat2, attack_hi4_start_enabled, cstick_on },
        ) => {
            if !hoisted && attack_hi4_start_enabled && !cstick_on && compare_cat(
                cat2,
                c.cmd.cat2_attack_dash_attack_hi4,
            ) && situation_kind == c.situation.ground {
                (
                    JumpSquatMainPhase::Done,
                    JumpSquatMainAction::ChangeStatus {
                        status_kind: c.status.attack_hi4_start,
                        clear_buffer: true,
                    },
                )
            } else {
                (JumpSquatMainPhase::Done, JumpSquatMainAction::Finish)
            }
        },
        _ => (JumpSquatMainPhase::Done, JumpSquatMainAction::Finish),
    }
}

/// How many more events a phase may still take within one frame.
pub open spec fn jumpsquat_main_rank(phase: JumpSquatMainPhase) -> nat {
    match phase {
        JumpSquatMainPhase::Start => 3,
        JumpSquatMainPhase::AwaitGroundItem { .. } => 2,
        JumpSquatMainPhase::AwaitSpecialFlagHoist { .. } => 1,
        JumpSquatMainPhase::Done => 0,
    }
}

pub open spec fn is_check_action(action: JumpSquatMainAction) -> bool {
    action is CheckGroundItem || action is CheckSpecialFlagHoist
}

/// Each step of the main status moves strictly forward, so a frame ends
/// after at most three events; it ends exactly when the action is not a
/// request to run a check.
pub proof fn lemma_jumpsquat_main_progress(phase: JumpSquatMainPhase, event: JumpSquatMainEvent, c: GameConsts)
    requires
        phase != JumpSquatMainPhase::Done,
    ensures
        jumpsquat_main_rank(jumpsquat_main_step(phase, event, c).0) < jumpsquat_main_rank(phase),
        (jumpsquat_main_step(phase, event, c).0 == JumpSquatMainPhase::Done) <==> !is_check_action(
            jumpsquat_main_step(phase, event, c).1,
        ),
{
}

/// The jump squat never leaves into a status whose transition the game has
/// not enabled.
pub proof fn lemma_jumpsquat_main_respects_enabled_terms(
    phase: JumpSquatMainPhase,
    event: JumpSquatMainEvent,
    c: GameConsts,
)
    ensures
        ({
            let (_, action) = jumpsquat_main_step(phase, event, c);
            action is ChangeStatus ==> match event {
                JumpSquatMainEvent::Begin { escape_air_enabled, jump_start_enabled, fall_enabled, .. } =>
                    escape_air_enabled || jump_start_enabled || fall_enabled,
                JumpSquatMainEvent::GroundItemChecked { special_hi_enabled, .. } => special_hi_enabled,
                JumpSquatMainEvent::SpecialFlagHoistChecked { attack_hi4_start_enabled, .. } =>
                    attack_hi4_start_enabled,
            }
        }),
{
}

/// Out of the hoist check, the jump squat becomes an up smash exactly when
/// nothing was hoisted, the up-smash transition is enabled, the C-stick is
/// not held, the second command category holds an up-smash bit and the
/// fighter stands on the ground; otherwise the frame finishes. In particular
/// a frame without up-smash input never leaves jump squat here.
pub proof fn lemma_up_smash_needs_input(
    situation_kind: i32,
    hoisted: bool,
    cat2: i32,
    attack_hi4_start_enabled: bool,
    cstick_on: bool,
    c: GameConsts,
)
    ensures
        ({
            let (next, action) = jumpsquat_main_step(
                JumpSquatMainPhase::AwaitSpecialFlagHoist { situation_kind },
                JumpSquatMainEvent::SpecialFlagHoistChecked { hoisted, cat2, attack_hi4_start_enabled, cstick_on },
                c,
            );
            let wants = !hoisted && attack_hi4_start_enabled && !cstick_on && cat2
                & c.cmd.cat2_attack_dash_attack_hi4 != 0 && situation_kind == c.situation.ground;
            &&& next == JumpSquatMainPhase::Done
            &&& wants ==> action == JumpSquatMainAction::ChangeStatus {
                status_kind: c.status.attack_hi4_start,
                clear_buffer: true,
            }
            &&& !wants ==> action == JumpSquatMainAction::Finish
            &&& cat2 & c.cmd.cat2_attack_dash_attack_hi4 == 0 ==> action == JumpSquatMainAction::Finish
        }),
{
}

/// Out of the ground-item check, the jump squat becomes an up special
/// exactly when no item transition happened, the up-special transition is
/// enabled, the first command category holds an up-special bit and the
/// fighter stands on the ground; an item transition finishes the frame, and
/// otherwise the hoist check follows for the same situation.
pub proof fn lemma_up_special_needs_input(
    situation_kind: i32,
    transitioned: bool,
    cat1: i32,
    special_hi_enabled: bool,
    c: GameConsts,
)
    ensures
        ({
            let (next, action) = jumpsquat_main_step(
                JumpSquatMainPhase::AwaitGroundItem { situation_kind },
                JumpSquatMainEvent::GroundItemChecked { transitioned, cat1, special_hi_enabled },
                c,
            );
            let wants = !transitioned && special_hi_enabled && cat1 & c.cmd.cat1_special_hi != 0
                && situation_kind == c.situation.ground;
            &&& transitioned ==> next == JumpSquatMainPhase::Done && action == JumpSquatMainAction::Finish
            &&& wants ==> next == JumpSquatMainPhase::Done && action == JumpSquatMainAction::ChangeStatus {
                status_kind: c.status.special_hi,
                clear_buffer: true,
            }
            &&& !transitioned && !wants ==> next == JumpSquatMainPhase::AwaitSpecialFlagHoist { situation_kind }
                && action == JumpSquatMainAction::CheckSpecialFlagHoist
            &&& cat1 & c.cmd.cat1_special_hi == 0 ==> !(action is ChangeStatus)
        }),
{
}

/// At the start of a frame: a custom routine that ends the status wins;
/// then an enabled air dodge (clearing the buffer), then an enabled jump,
/// then an enabled fall in the air; with none of these the ground-item check
/// follows for the frame's situation.
pub proof fn lemma_jumpsquat_begin_priorities(
    custom_routine_ended: bool,
    situation_kind: i32,
    escape_air_enabled: bool,
    jump_start_enabled: bool,
    fall_enabled: bool,
    c: GameConsts,
)
    ensures
        ({
            let (next, action) = jumpsquat_main_step(
                JumpSquatMainPhase::Start,
                JumpSquatMainEvent::Begin {
                    custom_routine_ended,
                    situation_kind,
                    escape_air_enabled,
                    jump_start_enabled,
                    fall_enabled,
                },
                c,
            );
            &&& custom_routine_ended ==> action == JumpSquatMainAction::EndStatus
            &&& !custom_routine_ended && escape_air_enabled ==> action == JumpSquatMainAction::ChangeStatus {
                status_kind: c.status.escape_air,
                clear_buffer: true,
            }
            &&& !custom_routine_ended && !escape_air_enabled && jump_start_enabled ==> action
                == JumpSquatMainAction::ChangeStatus { status_kind: c.status.jump, clear_buffer: false }
            &&& !custom_routine_ended && !escape_air_enabled && !jump_start_enabled && fall_enabled
                && situation_kind == c.situation.air ==> action == JumpSquatMainAction::ChangeStatus {
                status_kind: c.status.fall,
                clear_buffer: false,
            }
            &&& !custom_routine_ended && !escape_air_enabled && !jump_start_enabled && !(fall_enabled
                && situation_kind == c.situation.air) ==> next == JumpSquatMainPhase::AwaitGroundItem {
                situation_kind,
            } && action == JumpSquatMainAction::CheckGroundItem
        }),
{
}

// ---------------------------------------------------------------------------
// Common setup of jump squat.
// ---------------------------------------------------------------------------

/// What the common setup of jump squat reads of the fighter.
#[derive(Clone, Copy)]
pub struct JumpSquatCommonInput {
    /// Frames left in which a stick flick counts as a jump command.
    pub stick_jump_command_life: i32,
    /// Direction of the last vertical stick flick.
    pub flick_y_dir: i32,
    /// Both jump buttons are held (the short hop shortcut).
    pub jump_mini_button: bool,
    pub prev_status_kind: i32,
    /// The player's attack could still be cancelled into a jump.
    pub can_attack_cancel: bool,
    /// The stick direction is to be re-read on entering (out of a dash).
    pub lr_update: bool,
    /// The fighter was slow-walking into a short hop.
    pub abnormal_minijump_slowwalk: bool,
    /// A short-hop aerial is buffered.
    pub jump_mini_attack: bool,
    /// A short-hop aerial is reserved.
    pub reserve_jump_mini_attack: bool,
}

/// What the common setup of jump squat decides; the unconditional parts
/// (resetting the flick, enabling a fall, disabling a plain jump start) are
/// done every time.
#[derive(Clone, Copy, PartialEq, Eq, Structural, Debug)]
pub struct JumpSquatCommonPlan {
    /// The jump came from a button, not from a stick flick.
    pub button_jump: bool,
    /// Reserve a short hop.
    pub reserve_jump_mini: bool,
    /// Re-read the stick direction and turn the fighter with it.
    pub update_lr: bool,
    /// Hold the attack button for the buffered aerial and skip the delay.
    pub buffered_aerial: bool,
    /// Disable the conditional transitions (up special, up smash, item throws).
    pub disable_conditional_transitions: bool,
}

pub open spec fn jumpsquat_common_plan(input: JumpSquatCommonInput, c: GameConsts) -> JumpSquatCommonPlan {
    let button_jump = input.stick_jump_command_life == 0 || input.flick_y_dir <= 0;
    let mini_from_button = button_jump && (input.jump_mini_button || (attack_cancel_statuses(c.status).contains(
        input.prev_status_kind,
    ) && input.can_attack_cancel));
    JumpSquatCommonPlan {
        button_jump,
        reserve_jump_mini: mini_from_button || input.abnormal_minijump_slowwalk,
        update_lr: input.lr_update,
        buffered_aerial: input.jump_mini_attack,
        disable_conditional_transitions: input.jump_mini_attack || input.reserve_jump_mini_attack,
    }
}

/// The common setup of jump squat: a button jump reserves a short hop when
/// both jump buttons are held or when it cancels a cancellable attack, and a
/// buffered short-hop aerial disables every other transition.
#[allow(non_snake_case)]
pub fn status_JumpSquat_common(input: JumpSquatCommonInput, c: &GameConsts) -> (plan: JumpSquatCommonPlan)
    ensures
        plan == jumpsquat_common_plan(input, *c),
{
    let button_jump = input.stick_jump_command_life == 0 || input.flick_y_dir <= 0;
    let mut reserve_jump_mini = false;
    if button_jump {
        if input.jump_mini_button || (is_attack_cancel_status(input.prev_status_kind, &c.status)
            && input.can_attack_cancel) {
            reserve_jump_mini = true;
        }
    }
    if input.abnormal_minijump_slowwalk {
        reserve_jump_mini = true;
    }
    JumpSquatCommonPlan {
        button_jump,
        reserve_jump_mini,
        update_lr: input.lr_update,
        buffered_aerial: input.jump_mini_attack,
        disable_conditional_transitions: input.jump_mini_attack || input.reserve_jump_mini_attack,
    }
}

/// A short hop is reserved only for a button jump or out of a slow walk, and
/// a buffered short-hop aerial always disables the other transitions.
pub proof fn lemma_jumpsquat_common_reserves(input: JumpSquatCommonInput, c: GameConsts)
    ensures
        jumpsquat_common_plan(input, c).reserve_jump_mini ==> jumpsquat_common_plan(input, c).button_jump
            || input.abnormal_minijump_slowwalk,
        jumpsquat_common_plan(input, c).buffered_aerial ==> jumpsquat_common_plan(
            input,
            c,
        ).disable_conditional_transitions,
{
}

/// A jump is a button jump exactly when the stick-jump window is over or
/// the last vertical flick was not upward; a short hop is reserved for a
/// button jump holding both jump buttons, for a button jump out of a
/// cancellable attack that may still be cancelled, and out of a slow walk.
pub proof fn lemma_jumpsquat_common_short_hop(input: JumpSquatCommonInput, c: GameConsts)
    ensures
        ({
            let p = jumpsquat_common_plan(input, c);
            &&& p.button_jump == (input.stick_jump_command_life == 0 || input.flick_y_dir <= 0)
            &&& p.button_jump && input.jump_mini_button ==> p.reserve_jump_mini
            &&& p.button_jump && input.can_attack_cancel && attack_cancel_statuses(c.status).contains(
                input.prev_status_kind,
            ) ==> p.reserve_jump_mini
            &&& input.abnormal_minijump_slowwalk ==> p.reserve_jump_mini
            &&& !p.button_jump && !input.abnormal_minijump_slowwalk ==> !p.reserve_jump_mini
            &&& !input.jump_mini_button && !input.can_attack_cancel && !input.abnormal_minijump_slowwalk
                ==> !p.reserve_jump_mini
            &&& p.update_lr == input.lr_update
            &&& p.buffered_aerial == input.jump_mini_attack
            &&& p.disable_conditional_transitions == (input.jump_mini_attack || input.reserve_jump_mini_attack)
        }),
{
}

// ---------------------------------------------------------------------------
// Per-frame processing of jump squat.
// ---------------------------------------------------------------------------

/// What the per-frame processing of jump squat reads.
#[derive(Clone, Copy)]
pub struct JumpSquatExecInput {
    pub cat1: i32,
    /// The grab transition is already enabled.
    pub catch_enabled: bool,
    /// The jump squat animation ends on this frame.
    pub squat_ending: bool,
    /// An air dodge was already requested during this jump squat.
    pub air_escape_requested: bool,
    /// The stick is pushed at least as far as a directional air dodge needs.
    pub stick_past_slide_threshold: bool,
}

/// How one frame of jump squat ends.
#[derive(Clone, Copy, PartialEq, Eq, Structural, Debug)]
pub enum JumpSquatExecOutcome {
    /// Enable the grab transition.
    EnableCatch,
    /// Leave the ground into a wavedash: no ground correction, air-dodge physics.
    Wavedash,
    /// Leave the ground into a rising neutral air dodge: air correction, jump physics.
    RisingAirDodge,
    /// Leave the ground into a jump.
    Jump,
    /// Still squatting: remember the current horizontal speed.
    TrackVelocity,
}

#[derive(Clone, Copy, PartialEq, Eq, Structural, Debug)]
pub struct JumpSquatExecPlan {
    /// Remember that an air dodge was requested.
    pub request_air_escape: bool,
    pub outcome: JumpSquatExecOutcome,
}

pub open spec fn jumpsquat_exec_plan(input: JumpSquatExecInput, c: GameConsts) -> JumpSquatExecPlan {
    let request = cat_has(input.cat1, c.cmd.cat1_air_escape);
    let air_escape = input.air_escape_requested || request;
    JumpSquatExecPlan {
        request_air_escape: request,
        outcome: if cat_has(input.cat1, c.cmd.cat1_catch) && !input.catch_enabled {
            JumpSquatExecOutcome::EnableCatch
        } else if input.squat_ending {
            if air_escape {
                if input.stick_past_slide_threshold {
                    JumpSquatExecOutcome::Wavedash
                } else {
                    JumpSquatExecOutcome::RisingAirDodge
                }
            } else {
                JumpSquatExecOutcome::Jump
            }
        } else {
            JumpSquatExecOutcome::TrackVelocity
        },
    }
}

/// One frame of jump squat: an air dodge pressed during the squat turns the
/// take-off into a wavedash (stick tilted) or a rising air dodge (stick
/// neutral); otherwise the squat ends in a jump.
#[allow(non_snake_case)]
pub fn uniq_process_JumpSquat_exec_status_param(input: JumpSquatExecInput, c: &GameConsts) -> (plan:
    JumpSquatExecPlan)
    ensures
        plan == jumpsquat_exec_plan(input, *c),
{
    let request = compare_cat(input.cat1, c.cmd.cat1_air_escape);
    let air_escape = input.air_escape_requested || request;
    let outcome = if compare_cat(input.cat1, c.cmd.cat1_catch) && !input.catch_enabled {
        JumpSquatExecOutcome::EnableCatch
    } else if input.squat_ending {
        if air_escape {
            if input.stick_past_slide_threshold {
                JumpSquatExecOutcome::Wavedash
            } else {
                JumpSquatExecOutcome::RisingAirDodge
            }
        } else {
            JumpSquatExecOutcome::Jump
        }
    } else {
        JumpSquatExecOutcome::TrackVelocity
    };
    JumpSquatExecPlan { request_air_escape: request, outcome }
}

/// A jump squat leaves into an air dodge only if an air dodge was requested,
/// now or earlier in the squat, and a request made now is remembered.
pub proof fn lemma_air_dodge_needs_request(input: JumpSquatExecInput, c: GameConsts)
    ensures
        (jumpsquat_exec_plan(input, c).outcome is Wavedash || jumpsquat_exec_plan(input, c).outcome is RisingAirDodge)
            ==> input.air_escape_requested || jumpsquat_exec_plan(input, c).request_air_escape,
        jumpsquat_exec_plan(input, c).request_air_escape <==> cat_has(input.cat1, c.cmd.cat1_air_escape),
{
}

/// An unenabled grab input enables the grab; otherwise a squat that is not
/// ending keeps tracking velocity, and an ending squat leaves into a jump
/// without any air-dodge request, else into a wavedash with the stick past
/// the slide threshold and into a rising air dodge without.
pub proof fn lemma_jumpsquat_exec_outcomes(input: JumpSquatExecInput, c: GameConsts)
    ensures
        ({
            let p = jumpsquat_exec_plan(input, c);
            let grab = input.cat1 & c.cmd.cat1_catch != 0 && !input.catch_enabled;
            let dodge = input.air_escape_requested || input.cat1 & c.cmd.cat1_air_escape != 0;
            &&& p.request_air_escape == (input.cat1 & c.cmd.cat1_air_escape != 0)
            &&& grab ==> p.outcome == JumpSquatExecOutcome::EnableCatch
            &&& !grab && !input.squat_ending ==> p.outcome == JumpSquatExecOutcome::TrackVelocity
            &&& !grab && input.squat_ending && !dodge ==> p.outcome == JumpSquatExecOutcome::Jump
            &&& !grab && input.squat_ending && dodge && input.stick_past_slide_threshold ==> p.outcome
                == JumpSquatExecOutcome::Wavedash
            &&& !grab && input.squat_ending && dodge && !input.stick_past_slide_threshold ==> p.outcome
                == JumpSquatExecOutcome::RisingAirDodge
        }),
{
}

/// Whether the jump squat re-reads the stick direction: only out of a dash or
/// a turn dash.
#[allow(non_snake_case)]
pub fn sub_status_JumpSquat_check_stick_lr_update(prev_status_kind: i32, s: &StatusKinds) -> (r: bool)
    ensures
        r == (prev_status_kind == s.dash || prev_status_kind == s.turn_dash),
{
    prev_status_kind == s.dash || prev_status_kind == s.turn_dash
}

} // verus!
