use vstd::prelude::*;

use crate::cmd_flags::{cat_has, compare_cat};
use crate::game_consts::{is_one_of, GameConsts, StatusKinds};
use crate::jumpsquat::{attack_cancel_statuses, is_attack_cancel_status, jumpsquat_common_plan, JumpSquatCommonInput};

verus! {

// ---------------------------------------------------------------------------
// Game sessions.
// ---------------------------------------------------------------------------

/// What happened to the players' control of their fighters since the last
/// frame.
#[derive(Clone, Copy, PartialEq, Eq, Structural, Debug)]
pub enum SessionEvent {
    /// Control was just handed to the players: a match or a training reset began.
    Start,
    /// Control was just taken away.
    End,
    NoChange,
}

/// Remembers whether the players had control on the previous frame.
#[derive(Clone, Copy, PartialEq, Eq, Structural, Debug)]
pub struct ReadyGoTracker {
    pub last_ready_go: bool,
}

impl ReadyGoTracker {
    /// A tracker before the first frame: no control seen yet.
    pub fn new() -> (r: ReadyGoTracker)
        ensures
            !r.last_ready_go,
    {
        ReadyGoTracker { last_ready_go: false }
    }
}

pub open spec fn session_event(last_ready_go: bool, ready_go: bool) -> SessionEvent {
    if !ready_go && last_ready_go {
        SessionEvent::End
    } else if ready_go && !last_ready_go {
        SessionEvent::Start
    } else {
        SessionEvent::NoChange
    }
}

/// One frame of the session tracker: a session starts when control is handed
/// to the players and ends when it is taken away.
pub fn handle_game_resets(tracker: ReadyGoTracker, ready_go: bool) -> (r: (ReadyGoTracker, SessionEvent))
    ensures
        r.0.last_ready_go == ready_go,
        r.1 == session_event(tracker.last_ready_go, ready_go),
{
    let event = if !ready_go && tracker.last_ready_go {
        SessionEvent::End
    } else if ready_go && !tracker.last_ready_go {
        SessionEvent::Start
    } else {
        SessionEvent::NoChange
    };
    (ReadyGoTracker { last_ready_go: ready_go }, event)
}

/// A session starts exactly on a frame where control appears, ends exactly
/// on a frame where it disappears, and a second frame with the same control
/// reports no change.
pub proof fn lemma_session_edges(last_ready_go: bool, ready_go: bool)
    ensures
        (session_event(last_ready_go, ready_go) == SessionEvent::Start) <==> (ready_go && !last_ready_go),
        (session_event(last_ready_go, ready_go) == SessionEvent::End) <==> (!ready_go && last_ready_go),
        session_event(ready_go, ready_go) == SessionEvent::NoChange,
{
}

// ---------------------------------------------------------------------------
// Actions out of jump squat.
// ---------------------------------------------------------------------------

/// What the jump-squat actions read of the fighter.
#[derive(Clone, Copy)]
pub struct OutOfJsInput {
    /// Status at the start of the frame.
    pub status_kind: i32,
    pub situation_kind: i32,
    pub cat1: i32,
    pub prev_status_kind: i32,
    pub has_item: bool,
    /// Status when the check runs.
    pub current_status_kind: i32,
    /// The current motion frame is below 3.
    pub frame_below_3: bool,
}

#[derive(Clone, Copy, PartialEq, Eq, Structural, Debug)]
pub struct OutOfJsPlan {
    /// Grab out of the jump squat (and let no short-hop aerial come out).
    pub grab: bool,
    /// New value of the player's attack-cancel permission, if it changes.
    pub attack_cancel: Option<bool>,
}

pub open spec fn guard_statuses(s: StatusKinds) -> Seq<i32> {
    seq![s.guard, s.guard_on, s.guard_off]
}

pub open spec fn out_of_js_plan(input: OutOfJsInput, c: GameConsts) -> OutOfJsPlan {
    OutOfJsPlan {
        grab: input.status_kind == c.status.jump_squat && input.situation_kind == c.situation.ground && cat_has(
            input.cat1,
            c.cmd.cat1_catch,
        ) && !guard_statuses(c.status).contains(input.prev_status_kind) && !input.has_item,
        attack_cancel: if attack_cancel_statuses(c.status).contains(input.current_status_kind) {
            Some(input.frame_below_3)
        } else {
            None
        },
    }
}

/// Actions out of jump squat: a grab input in a grounded jump squat grabs,
/// unless the fighter came out of shield or holds an item; a grounded attack
/// may be jump-cancelled only in its first frames.
pub fn actions_out_of_js(input: OutOfJsInput, c: &GameConsts) -> (r: OutOfJsPlan)
    ensures
        r == out_of_js_plan(input, *c),
{
    let s = &c.status;
    let mut grab = false;
    if input.status_kind == s.jump_squat && input.situation_kind == c.situation.ground {
        let guards = [s.guard, s.guard_on, s.guard_off];
        assert(guards@ =~= guard_statuses(*s));
        if compare_cat(input.cat1, c.cmd.cat1_catch) && !is_one_of(&guards, input.prev_status_kind)
            && !input.has_item {
            grab = true;
        }
    }
    let attack_cancel = if is_attack_cancel_status(input.current_status_kind, s) {
        Some(input.frame_below_3)
    } else {
        None
    };
    OutOfJsPlan { grab, attack_cancel }
}

/// A button jump out of the first frames of a cancellable attack is a short
/// hop: the permission that the jump-squat actions grant in those frames
/// makes the following jump squat reserve a short hop.
pub proof fn lemma_attack_cancel_reserves_short_hop(attack: OutOfJsInput, squat: JumpSquatCommonInput, c: GameConsts)
    requires
        attack.frame_below_3,
        attack_cancel_statuses(c.status).contains(attack.current_status_kind),
        squat.prev_status_kind == attack.current_status_kind,
        out_of_js_plan(attack, c).attack_cancel == Some(squat.can_attack_cancel),
        squat.stick_jump_command_life == 0 || squat.flick_y_dir <= 0,
    ensures
        jumpsquat_common_plan(squat, c).reserve_jump_mini,
{
}

/// A grab out of jump squat needs a grounded jump squat, a grab input, no
/// item and a previous status other than the three shield statuses, and all
/// of these suffice; the attack-cancel permission changes exactly in the
/// cancellable attacks, where it is granted only in the first frames.
pub proof fn lemma_out_of_js_cases(input: OutOfJsInput, c: GameConsts)
    ensures
        ({
            let s = c.status;
            let p = out_of_js_plan(input, c);
            &&& p.grab == (input.status_kind == s.jump_squat && input.situation_kind == c.situation.ground
                && input.cat1 & c.cmd.cat1_catch != 0 && input.prev_status_kind != s.guard
                && input.prev_status_kind != s.guard_on && input.prev_status_kind != s.guard_off
                && !input.has_item)
            &&& (p.attack_cancel is Some) == attack_cancel_statuses(s).contains(input.current_status_kind)
            &&& p.attack_cancel matches Some(b) ==> b == input.frame_below_3
        }),
{
    let g = guard_statuses(c.status);
    assert(g[0] == c.status.guard && g[1] == c.status.guard_on && g[2] == c.status.guard_off);
    if g.contains(input.prev_status_kind) {
        let i = choose|i: int| 0 <= i < 3 && g[i] == input.prev_status_kind;
    }
}

// ---------------------------------------------------------------------------
// Shield stops and shield drops.
// ---------------------------------------------------------------------------

/// Whether a dash or turn dash stops into shield: shield pressed this frame
/// with grab released.
pub fn shield_stops(status_kind: i32, guard_triggered: bool, catch_off: bool, s: &StatusKinds) -> (r: bool)
    ensures
        r == ((status_kind == s.dash || status_kind == s.turn_dash) && guard_triggered && catch_off),
{
    (status_kind == s.dash || status_kind == s.turn_dash) && (guard_triggered && catch_off)
}

/// Frames since the stick left neutral vertically within which a shield drop
/// counts as a flick.
pub const SHIELD_DROP_FLICK_SENS: i32 = 11;

/// What a shield drop reads of the fighter.
#[derive(Clone, Copy)]
pub struct ShieldDropInput {
    pub cat2: i32,
    pub status_kind: i32,
    pub fighter_kind: i32,
    pub pad_flag: i32,
    /// Frames since the stick left neutral vertically.
    pub flick_y: i32,
    /// The stick is at least as far down as a shield drop needs.
    pub stick_down: bool,
    /// The fighter stands on a platform that can be dropped through.
    pub passable_ground: bool,
}

/// Fighters that cannot shield-drop with the special button (it is their
/// shield special).
pub open spec fn no_special_button_pass_fighters(c: GameConsts) -> Seq<i32> {
    seq![c.fighter.inkling, c.fighter.pickel]
}

/// Inkling and Steve are the fighters without a special-button shield drop.
pub proof fn lemma_no_special_button_pass_fighters(x: i32, c: GameConsts)
    ensures
        no_special_button_pass_fighters(c).contains(x) <==> (x == c.fighter.inkling || x == c.fighter.pickel),
{
    let q = no_special_button_pass_fighters(c);
    assert(q[0] == c.fighter.inkling);
    assert(q[1] == c.fighter.pickel);
    if q.contains(x) {
        let i = choose|i: int| 0 <= i < 2 && q[i] == x;
    }
}

pub open spec fn shield_drop(input: ShieldDropInput, c: GameConsts) -> bool {
    let shielding = input.status_kind == c.status.guard || input.status_kind == c.status.guard_on;
    let special_pass = cat_has(input.pad_flag, c.cmd.pad_flag_special_trigger)
        && !no_special_button_pass_fighters(c).contains(input.fighter_kind);
    let stick_pass = cat_has(input.cat2, c.cmd.cat2_guard_to_pass) || (input.flick_y <= SHIELD_DROP_FLICK_SENS
        && input.stick_down);
    shielding && (special_pass || stick_pass) && input.passable_ground
}

/// Whether a shielding fighter on a platform drops through it: with the
/// special button (except for fighters whose shield special it is), with the
/// game's own pass command, or with a quick downward flick.
pub fn shield_drops(input: ShieldDropInput, c: &GameConsts) -> (r: bool)
    ensures
        r == shield_drop(input, *c),
{
    let no_special = [c.fighter.inkling, c.fighter.pickel];
    assert(no_special@ =~= no_special_button_pass_fighters(*c));
    let is_no_special_button_pass_char = is_one_of(&no_special, input.fighter_kind);
    if input.status_kind == c.status.guard || input.status_kind == c.status.guard_on {
        let is_input_shield_drop = (compare_cat(input.pad_flag, c.cmd.pad_flag_special_trigger)
            && !is_no_special_button_pass_char) || (compare_cat(input.cat2, c.cmd.cat2_guard_to_pass) || (
        input.flick_y <= SHIELD_DROP_FLICK_SENS && input.stick_down));
        if is_input_shield_drop && input.passable_ground {
            return true;
        }
    }
    false
}

/// Inkling and Steve never drop through a platform with the special button
/// alone, and no fighter drops through one that cannot be passed.
pub proof fn lemma_shield_drop_limits(input: ShieldDropInput, c: GameConsts)
    ensures
        no_special_button_pass_fighters(c).contains(input.fighter_kind) && !cat_has(
            input.cat2,
            c.cmd.cat2_guard_to_pass,
        ) && !(input.flick_y <= SHIELD_DROP_FLICK_SENS && input.stick_down) ==> !shield_drop(input, c),
        !input.passable_ground ==> !shield_drop(input, c),
{
}

/// Raising the shield and holding it behave alike: a fighter in either
/// shield status drops through passable ground with the game's pass command,
/// with a quick downward flick, or (unless it is Inkling or Steve) with the
/// special button; no other status ever drops.
pub proof fn lemma_shield_drop_statuses(input: ShieldDropInput, c: GameConsts)
    ensures
        shield_drop(ShieldDropInput { status_kind: c.status.guard, ..input }, c) == shield_drop(
            ShieldDropInput { status_kind: c.status.guard_on, ..input },
            c,
        ),
        input.status_kind != c.status.guard && input.status_kind != c.status.guard_on ==> !shield_drop(input, c),
        (input.status_kind == c.status.guard || input.status_kind == c.status.guard_on) && input.passable_ground
            ==> {
            &&& input.cat2 & c.cmd.cat2_guard_to_pass != 0 ==> shield_drop(input, c)
            &&& input.flick_y <= 11 && input.stick_down ==> shield_drop(input, c)
            &&& input.pad_flag & c.cmd.pad_flag_special_trigger != 0 && input.fighter_kind != c.fighter.inkling
                && input.fighter_kind != c.fighter.pickel ==> shield_drop(input, c)
        },
        shield_drop(input, c) ==> input.passable_ground && (input.cat2 & c.cmd.cat2_guard_to_pass != 0 || (
        input.flick_y <= 11 && input.stick_down) || input.pad_flag
            & c.cmd.pad_flag_special_trigger != 0),
{
    if input.pad_flag & c.cmd.pad_flag_special_trigger != 0 && input.fighter_kind != c.fighter.inkling
        && input.fighter_kind != c.fighter.pickel {
        assert(!no_special_button_pass_fighters(c).contains(input.fighter_kind)) by {
            if no_special_button_pass_fighters(c).contains(input.fighter_kind) {
                let i = choose|i: int| 0 <= i < 2 && no_special_button_pass_fighters(c)[i] == input.fighter_kind;
                assert(i == 0 || i == 1);
            }
        }
    }
}

// ---------------------------------------------------------------------------
// Single-button smash attacks.
// ---------------------------------------------------------------------------

/// Frames since the stick left neutral within which the smash button reads
/// the stick as a flick.
pub const SINGLE_BUTTON_SMASH_ATTACK_STICK_FLICK_THRESHOLD: i32 = 5;

/// Which way the stick points, by its angle.
#[derive(Clone, Copy, PartialEq, Eq, Structural, Debug)]
pub enum StickDirection {
    Right,
    Up,
    Left,
    Down,
    /// An angle outside every sector.
    Unclassified,
}

/// Statuses in which the smash button does nothing.
pub open spec fn prevent_smash_attack_statuses(s: StatusKinds) -> Seq<i32> {
    seq![s.attack_s4, s.attack_hi4, s.attack_lw4, s.attack_s4_hold, s.attack_hi4_hold, s.attack_lw4_hold,
        s.attack_s4_start, s.attack_hi4_start, s.attack_lw4_start, s.appeal]
}

/// The smash button is ignored in every phase of a smash attack and during a
/// taunt.
pub proof fn lemma_prevent_smash_statuses(x: i32, s: StatusKinds)
    ensures
        prevent_smash_attack_statuses(s).contains(x) <==> (x == s.attack_s4 || x == s.attack_hi4 || x == s.attack_lw4 || x == s.attack_s4_hold || x == s.attack_hi4_hold || x == s.attack_lw4_hold || x == s.attack_s4_start || x == s.attack_hi4_start || x == s.attack_lw4_start || x == s.appeal),
{
    let q = prevent_smash_attack_statuses(s);
    assert(q[0] == s.attack_s4);
    assert(q[1] == s.attack_hi4);
    assert(q[2] == s.attack_lw4);
    assert(q[3] == s.attack_s4_hold);
    assert(q[4] == s.attack_hi4_hold);
    assert(q[5] == s.attack_lw4_hold);
    assert(q[6] == s.attack_s4_start);
    assert(q[7] == s.attack_hi4_start);
    assert(q[8] == s.attack_lw4_start);
    assert(q[9] == s.appeal);
    if q.contains(x) {
        let i = choose|i: int| 0 <= i < 10 && q[i] == x;
    }
}

/// What the smash button reads of the fighter.
#[derive(Clone, Copy)]
pub struct SmashButtonInput {
    pub status_kind: i32,
    /// The smash button was pressed this frame.
    pub button_triggered: bool,
    pub flick_x: i32,
    pub flick_y: i32,
    pub situation_kind: i32,
    /// The current status may be cancelled.
    pub cancel_enabled: bool,
    pub direction: StickDirection,
}

pub open spec fn smash_button_status(input: SmashButtonInput, c: GameConsts) -> Option<i32> {
    let s = c.status;
    if !prevent_smash_attack_statuses(s).contains(input.status_kind) && input.button_triggered && (input.flick_x
        <= SINGLE_BUTTON_SMASH_ATTACK_STICK_FLICK_THRESHOLD || input.flick_y
        <= SINGLE_BUTTON_SMASH_ATTACK_STICK_FLICK_THRESHOLD) && input.situation_kind == c.situation.ground
        && input.cancel_enabled {
        match input.direction {
            StickDirection::Right => Some(s.attack_s4_start),
            StickDirection::Up => Some(s.attack_hi4_start),
            StickDirection::Left => Some(s.attack_s4_start),
            StickDirection::Down => Some(s.attack_lw4_start),
            StickDirection::Unclassified => None,
        }
    } else {
        None
    }
}

/// The smash attack that the smash button starts, if any: on the ground, in
/// a cancellable status, with a fresh stick flick, in the stick's direction.
pub fn single_button_smash_attacks(input: SmashButtonInput, c: &GameConsts) -> (r: Option<i32>)
    ensures
        r == smash_button_status(input, *c),
{
    let s = &c.status;
    let prevent = [s.attack_s4, s.attack_hi4, s.attack_lw4, s.attack_s4_hold, s.attack_hi4_hold, s.attack_lw4_hold,
        s.attack_s4_start, s.attack_hi4_start, s.attack_lw4_start, s.appeal];
    assert(prevent@ =~= prevent_smash_attack_statuses(*s));
    if !is_one_of(&prevent, input.status_kind) && input.button_triggered && (input.flick_x
        <= SINGLE_BUTTON_SMASH_ATTACK_STICK_FLICK_THRESHOLD || input.flick_y
        <= SINGLE_BUTTON_SMASH_ATTACK_STICK_FLICK_THRESHOLD) && input.situation_kind == c.situation.ground
        && input.cancel_enabled {
        match input.direction {
            StickDirection::Right => Some(s.attack_s4_start),
            StickDirection::Up => Some(s.attack_hi4_start),
            StickDirection::Left => Some(s.attack_s4_start),
            StickDirection::Down => Some(s.attack_lw4_start),
            StickDirection::Unclassified => None,
        }
    } else {
        None
    }
}

/// The smash button never starts a smash attack while one is already under
/// way.
pub proof fn lemma_no_smash_out_of_smash(input: SmashButtonInput, c: GameConsts)
    requires
        prevent_smash_attack_statuses(c.status).contains(input.status_kind),
    ensures
        smash_button_status(input, c) is None,
{
}

/// The smash button starts a smash attack only on the ground, in a
/// cancellable status, on the frame it is pressed, with a stick flick at most
/// the threshold frames old on either axis; the attack follows the stick:
/// forward smash to either side, up smash up, down smash down, nothing for an
/// unclassified angle.
pub proof fn lemma_smash_button_cases(input: SmashButtonInput, c: GameConsts)
    ensures
        ({
            let s = c.status;
            let r = smash_button_status(input, c);
            let ready = !prevent_smash_attack_statuses(s).contains(input.status_kind) && input.button_triggered
                && (input.flick_x <= 5 || input.flick_y
                <= 5) && input.situation_kind == c.situation.ground
                && input.cancel_enabled;
            &&& !ready ==> r is None
            &&& !input.button_triggered ==> r is None
            &&& !input.cancel_enabled ==> r is None
            &&& input.situation_kind != c.situation.ground ==> r is None
            &&& input.flick_x > 5 && input.flick_y
                > 5 ==> r is None
            &&& ready && (input.direction == StickDirection::Right || input.direction == StickDirection::Left) ==> r
                == Some(s.attack_s4_start)
            &&& ready && input.direction == StickDirection::Up ==> r == Some(s.attack_hi4_start)
            &&& ready && input.direction == StickDirection::Down ==> r == Some(s.attack_lw4_start)
            &&& input.direction == StickDirection::Unclassified ==> r is None
        }),
{
}

// ---------------------------------------------------------------------------
// Pivots.
// ---------------------------------------------------------------------------

/// What a pivot reads of the fighter.
#[derive(Clone, Copy)]
pub struct PivotInput {
    pub status_kind: i32,
    /// The current motion frame is within the stick snapback window.
    pub frame_in_snapback_window: bool,
    /// The stick is back at neutral horizontally.
    pub stick_neutral: bool,
    pub prev_status_kind: i32,
    /// The status before the previous one.
    pub prev_prev_status_kind: i32,
}

pub open spec fn is_pivot(input: PivotInput, s: StatusKinds) -> bool {
    &&& input.status_kind == s.turn_dash
    &&& input.frame_in_snapback_window
    &&& input.stick_neutral
    &&& (input.prev_status_kind == s.turn_dash || input.prev_status_kind == s.dash)
    &&& !(input.prev_prev_status_kind == s.wait || input.prev_prev_status_kind == s.turn)
}

/// A pivot happens exactly in a turn dash within the snapback window with
/// the stick back at neutral, straight out of a dash or turn dash, when the
/// status before that was neither standing nor turning.
pub proof fn lemma_pivot_cases(input: PivotInput, s: StatusKinds)
    ensures
        is_pivot(input, s) == (input.status_kind == s.turn_dash && input.frame_in_snapback_window
            && input.stick_neutral && (input.prev_status_kind == s.turn_dash || input.prev_status_kind == s.dash)
            && input.prev_prev_status_kind != s.wait && input.prev_prev_status_kind != s.turn),
{
}

/// Whether a turn dash snaps back into a pivot: the stick returned to
/// neutral at once, out of a dash that did not start from standing.
pub fn pivots(input: PivotInput, s: &StatusKinds) -> (r: bool)
    ensures
        r == is_pivot(input, *s),
{
    let dash_before = [s.turn_dash, s.dash];
    let standing_before = [s.wait, s.turn];
    input.status_kind == s.turn_dash && input.frame_in_snapback_window && input.stick_neutral && is_one_of(
        &dash_before,
        input.prev_status_kind,
    ) && !is_one_of(&standing_before, input.prev_prev_status_kind)
}

} // verus!
