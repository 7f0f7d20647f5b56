use vstd::prelude::*;

use crate::game_consts::{is_one_of, GameConsts, StatusKinds};

verus! {

/// Kinetic type that tells the game to keep the current one.
pub const KINETIC_TYPE_UNCHANGED: i32 = -1;

/// Statuses whose jump keeps the game's own horizontal speed.
pub open spec fn momentum_exception_moves(s: StatusKinds) -> Seq<i32> {
    seq![s.sonic_spin_jump]
}

/// Whether a jump begun in `status_kind` takes its horizontal speed from the
/// melee momentum formula.
pub fn status_jump_sub_hook(status_kind: i32, c: &GameConsts) -> (r: bool)
    ensures
        r == !momentum_exception_moves(c.status).contains(status_kind),
{
    let exceptions = [c.status.sonic_spin_jump];
    assert(exceptions@ =~= momentum_exception_moves(c.status));
    !is_one_of(&exceptions, status_kind)
}

/// Every jump takes the melee momentum except Sonic's spin jump.
pub proof fn lemma_jump_momentum_exceptions(status_kind: i32, c: GameConsts)
    ensures
        !momentum_exception_moves(c.status).contains(status_kind) == (status_kind != c.status.sonic_spin_jump),
{
    if momentum_exception_moves(c.status).contains(status_kind) {
        let i = choose|i: int| 0 <= i < 1 && momentum_exception_moves(c.status)[i] == status_kind;
    }
    if status_kind == c.status.sonic_spin_jump {
        assert(momentum_exception_moves(c.status)[0] == status_kind);
    }
}

/// The horizontal speed an aerial starts with.
#[derive(Clone, Copy, PartialEq, Eq, Structural, Debug)]
pub enum AerialSpeed {
    /// Leave the speed as the game set it.
    Keep,
    /// The remembered momentum, clamped to the fighter's air speed limit.
    ClampedMomentum,
    /// The melee momentum formula, as for an attack-cancelled short hop.
    MeleeMomentum,
}

pub open spec fn aerial_speed(prev_status_kind: i32, sh_macro: bool, jumpsquat_velocity_nonzero: bool, c: GameConsts) -> AerialSpeed {
    if !(prev_status_kind == c.status.jump || prev_status_kind == c.status.jump_squat) {
        AerialSpeed::Keep
    } else if sh_macro && jumpsquat_velocity_nonzero {
        AerialSpeed::MeleeMomentum
    } else {
        AerialSpeed::ClampedMomentum
    }
}

/// An aerial out of a jump and one out of a jump squat start alike: a
/// buffered short-hop aerial with squat velocity takes the melee formula,
/// any other the clamped momentum; an aerial out of anything else keeps its
/// speed.
pub proof fn lemma_aerial_speed_after_jump(sh_macro: bool, jumpsquat_velocity_nonzero: bool, prev_status_kind: i32, c: GameConsts)
    ensures
        aerial_speed(c.status.jump, sh_macro, jumpsquat_velocity_nonzero, c) == aerial_speed(
            c.status.jump_squat,
            sh_macro,
            jumpsquat_velocity_nonzero,
            c,
        ),
        (prev_status_kind == c.status.jump || prev_status_kind == c.status.jump_squat) ==> aerial_speed(
            prev_status_kind,
            sh_macro,
            jumpsquat_velocity_nonzero,
            c,
        ) == (if sh_macro && jumpsquat_velocity_nonzero {
            AerialSpeed::MeleeMomentum
        } else {
            AerialSpeed::ClampedMomentum
        }),
        !(prev_status_kind == c.status.jump || prev_status_kind == c.status.jump_squat) ==> aerial_speed(
            prev_status_kind,
            sh_macro,
            jumpsquat_velocity_nonzero,
            c,
        ) == AerialSpeed::Keep,
{
}

/// The speed an aerial starts with: only an aerial straight out of a jump or
/// a jump squat has its speed set, from the melee formula when it was a
/// buffered short-hop aerial with some squat velocity.
pub fn status_attack_air_hook(
    prev_status_kind: i32,
    sh_macro: bool,
    jumpsquat_velocity_nonzero: bool,
    c: &GameConsts,
) -> (r: AerialSpeed)
    ensures
        r == aerial_speed(prev_status_kind, sh_macro, jumpsquat_velocity_nonzero, *c),
{
    let prev_status_check = prev_status_kind == c.status.jump || prev_status_kind == c.status.jump_squat;
    if !prev_status_check {
        AerialSpeed::Keep
    } else if sh_macro && jumpsquat_velocity_nonzero {
        AerialSpeed::MeleeMomentum
    } else {
        AerialSpeed::ClampedMomentum
    }
}

// ---------------------------------------------------------------------------
// Jump squat momentum correction.
// ---------------------------------------------------------------------------

/// Per-fighter flags that the momentum correction carries from frame to frame.
#[derive(Clone, Copy, PartialEq, Eq, Structural, Debug)]
pub struct MomentumFlags {
    /// Within the window of an initial-dash reverse aerial rush.
    pub irar_window: bool,
    /// In a jump squat that began within that window.
    pub irar_jumpsquat: bool,
    /// A short-hop aerial was buffered since the fighter last stood.
    pub sh_macro: bool,
}

/// What the momentum correction reads on one frame.
#[derive(Clone, Copy)]
pub struct CorrectionInput {
    pub status_kind: i32,
    pub prev_status_kind: i32,
    pub situation_kind: i32,
    /// The current motion frame is below 2.
    pub frame_below_2: bool,
    /// A short-hop aerial is buffered.
    pub jump_mini_attack: bool,
}

#[derive(Clone, Copy, PartialEq, Eq, Structural, Debug)]
pub struct CorrectionStep {
    pub flags: MomentumFlags,
    /// Stop the fighter horizontally (a reverse rush out of the window).
    pub clear_speed: bool,
}

pub open spec fn correction_step(flags: MomentumFlags, input: CorrectionInput, c: GameConsts) -> CorrectionStep {
    let s = c.status;
    let (window, js, clear) = if input.status_kind == s.turn_dash && (input.prev_status_kind == s.dash
        || input.prev_status_kind == s.turn_dash) {
        (input.frame_below_2, flags.irar_jumpsquat, false)
    } else if input.status_kind == s.jump_squat {
        let js = flags.irar_jumpsquat || flags.irar_window;
        (flags.irar_window, js, js)
    } else {
        (false, flags.irar_jumpsquat && input.situation_kind != c.situation.ground, false)
    };
    let sh = if input.situation_kind == c.situation.ground && input.status_kind != s.jump_squat {
        false
    } else {
        flags.sh_macro || input.jump_mini_attack
    };
    CorrectionStep {
        flags: MomentumFlags { irar_window: window, irar_jumpsquat: js, sh_macro: sh },
        clear_speed: clear,
    }
}

/// One frame of the jump squat momentum correction: the first frames of a
/// turn dash out of a dash open the reverse-rush window, a jump squat begun
/// within it stops the fighter, and any other status closes the window (and,
/// on the ground, ends the reverse-rush squat). A buffered short-hop aerial is
/// remembered until the fighter stands on the ground outside a jump squat.
pub fn jumpsquat_correction(flags: MomentumFlags, input: CorrectionInput, c: &GameConsts) -> (r: CorrectionStep)
    ensures
        r == correction_step(flags, input, *c),
{
    let s = &c.status;
    let mut irar_window = flags.irar_window;
    let mut irar_jumpsquat = flags.irar_jumpsquat;
    let mut sh_macro = flags.sh_macro;
    let mut clear_speed = false;
    if input.status_kind == s.turn_dash && (input.prev_status_kind == s.dash || input.prev_status_kind
        == s.turn_dash) {
        if input.frame_below_2 {
            irar_window = true;
        } else {
            irar_window = false;
        }
    } else if input.status_kind == s.jump_squat {
        if irar_window {
            irar_jumpsquat = true;
        }
        if irar_jumpsquat {
            clear_speed = true;
        }
    } else {
        if input.situation_kind == c.situation.ground {
            irar_jumpsquat = false;
        }
        irar_window = false;
    }
    if input.jump_mini_attack {
        sh_macro = true;
    }
    if input.situation_kind == c.situation.ground && input.status_kind != s.jump_squat {
        sh_macro = false;
    }
    CorrectionStep { flags: MomentumFlags { irar_window, irar_jumpsquat, sh_macro }, clear_speed }
}

/// Outside a turn dash out of a dash and outside a jump squat the
/// reverse-rush window is closed; a grounded fighter outside a jump squat
/// holds no buffered short-hop aerial; the fighter is stopped only in a jump
/// squat, and a reverse-rush squat starts only out of an open window.
pub proof fn lemma_correction_flags(flags: MomentumFlags, input: CorrectionInput, c: GameConsts)
    ensures
        ({
            let s = c.status;
            let r = correction_step(flags, input, c);
            &&& !(input.status_kind == s.turn_dash && (input.prev_status_kind == s.dash || input.prev_status_kind
                == s.turn_dash)) && input.status_kind != s.jump_squat ==> !r.flags.irar_window
            &&& input.situation_kind == c.situation.ground && input.status_kind != s.jump_squat
                ==> !r.flags.sh_macro
            &&& r.clear_speed ==> input.status_kind == s.jump_squat && r.flags.irar_jumpsquat
            &&& r.flags.irar_jumpsquat && !flags.irar_jumpsquat ==> input.status_kind == s.jump_squat
                && flags.irar_window
        }),
{
}

/// The frame-to-frame flags of the correction, case by case: a turn dash out
/// of a dash opens the reverse-rush window on its first frames and closes it
/// later, leaving the squat flag alone; a jump squat keeps the window, enters
/// a reverse-rush squat when the window is open, and stops the fighter for as
/// long as it is in one; any other status closes the window and, on the
/// ground, ends the reverse-rush squat. A buffered short-hop aerial is
/// remembered, and forgotten on the ground outside a jump squat.
pub proof fn lemma_correction_cases(flags: MomentumFlags, input: CorrectionInput, c: GameConsts)
    ensures
        ({
            let s = c.status;
            let r = correction_step(flags, input, c);
            let turn = input.status_kind == s.turn_dash && (input.prev_status_kind == s.dash
                || input.prev_status_kind == s.turn_dash);
            let grounded = input.situation_kind == c.situation.ground;
            &&& turn ==> r.flags.irar_window == input.frame_below_2 && r.flags.irar_jumpsquat
                == flags.irar_jumpsquat && !r.clear_speed
            &&& !turn && input.status_kind == s.jump_squat ==> r.flags.irar_window == flags.irar_window
                && r.flags.irar_jumpsquat == (flags.irar_jumpsquat || flags.irar_window) && r.clear_speed
                == r.flags.irar_jumpsquat
            &&& !turn && input.status_kind != s.jump_squat ==> !r.flags.irar_window && !r.clear_speed
                && r.flags.irar_jumpsquat == (flags.irar_jumpsquat && !grounded)
            &&& grounded && input.status_kind != s.jump_squat ==> !r.flags.sh_macro
            &&& !(grounded && input.status_kind != s.jump_squat) ==> r.flags.sh_macro == (flags.sh_macro
                || input.jump_mini_attack)
        }),
{
}

// ---------------------------------------------------------------------------
// Per-frame momentum bookkeeping.
// ---------------------------------------------------------------------------

/// What the per-frame momentum helper records.
#[derive(Clone, Copy, PartialEq, Eq, Structural, Debug)]
pub struct HelperPlan {
    /// Arm the air-dodge magnet.
    pub enable_air_escape_magnet: bool,
    /// Recompute the ratio of jump speed to run speed.
    pub refresh_jump_speed_ratio: bool,
    /// Recompute how much reverse-rush momentum a turn still grants.
    pub refresh_rar_leniency: bool,
    /// Remember the grounded horizontal speed.
    pub record_ground_velocity: bool,
    /// Remember the horizontal speed as the current momentum.
    pub record_momentum: bool,
    /// Remember the horizontal speed as the momentum of specials.
    pub record_momentum_specials: bool,
}

/// A Pokemon Trainer or Pyra/Mythra stand-by down special, during which the
/// fighter's jump speed ratio is taken afresh.
pub open spec fn is_switch_standby(fighter_kind: i32, status_kind: i32, c: GameConsts) -> bool {
    let k = c.fighter;
    let s = c.status;
    ||| fighter_kind == k.pfushigisou && status_kind == s.pfushigisou_special_lw_standby
    ||| fighter_kind == k.plizardon && status_kind == s.plizardon_special_lw_standby
    ||| fighter_kind == k.pzenigame && status_kind == s.pzenigame_special_lw_standby
    ||| fighter_kind == k.eflame && status_kind == s.eflame_special_lw_standby
    ||| fighter_kind == k.elight && status_kind == s.elight_special_lw_standby
}

pub open spec fn helper_plan(status_kind: i32, situation_kind: i32, fighter_kind: i32, c: GameConsts) -> HelperPlan {
    let s = c.status;
    HelperPlan {
        enable_air_escape_magnet: situation_kind == c.situation.air && !seq![s.jump_squat, s.jump, s.escape_air].contains(
            status_kind,
        ),
        refresh_jump_speed_ratio: is_switch_standby(fighter_kind, status_kind, c),
        refresh_rar_leniency: status_kind == s.turn_run || status_kind == s.turn_run_brake,
        record_ground_velocity: situation_kind == c.situation.ground,
        record_momentum: seq![s.jump, s.pass, s.jump_aerial].contains(status_kind),
        record_momentum_specials: status_kind == s.jump,
    }
}

/// What the momentum helper records on one frame: air-dodge magnet armed in
/// the air outside jumps and air dodges, grounded speed remembered on the
/// ground, momentum remembered in jumps and drops through platforms.
pub fn momentum_transfer_helper(status_kind: i32, situation_kind: i32, fighter_kind: i32, c: &GameConsts) -> (r:
    HelperPlan)
    ensures
        r == helper_plan(status_kind, situation_kind, fighter_kind, *c),
{
    let s = &c.status;
    let k = &c.fighter;
    let no_magnet = [s.jump_squat, s.jump, s.escape_air];
    assert(no_magnet@ =~= seq![s.jump_squat, s.jump, s.escape_air]);
    let momentum_statuses = [s.jump, s.pass, s.jump_aerial];
    assert(momentum_statuses@ =~= seq![s.jump, s.pass, s.jump_aerial]);
    let standby = (fighter_kind == k.pfushigisou && status_kind == s.pfushigisou_special_lw_standby) || (
    fighter_kind == k.plizardon && status_kind == s.plizardon_special_lw_standby) || (fighter_kind
        == k.pzenigame && status_kind == s.pzenigame_special_lw_standby) || (fighter_kind == k.eflame
        && status_kind == s.eflame_special_lw_standby) || (fighter_kind == k.elight && status_kind
        == s.elight_special_lw_standby);
    HelperPlan {
        enable_air_escape_magnet: situation_kind == c.situation.air && !is_one_of(&no_magnet, status_kind),
        refresh_jump_speed_ratio: standby,
        refresh_rar_leniency: status_kind == s.turn_run || status_kind == s.turn_run_brake,
        record_ground_velocity: situation_kind == c.situation.ground,
        record_momentum: is_one_of(&momentum_statuses, status_kind),
        record_momentum_specials: status_kind == s.jump,
    }
}

/// What the helper records, each for its statuses: the magnet is armed in
/// the air except in jump squat, jumps and air dodges; the jump speed ratio
/// is refreshed only in a switch stand-by of the fighter that owns it; the
/// reverse-rush leniency in turn runs and their brakes; grounded speed on the
/// ground; momentum in jumps, double jumps and platform drops; special
/// momentum in jumps only.
pub proof fn lemma_helper_records(status_kind: i32, situation_kind: i32, fighter_kind: i32, c: GameConsts)
    ensures
        ({
            let s = c.status;
            let k = c.fighter;
            let p = helper_plan(status_kind, situation_kind, fighter_kind, c);
            &&& p.enable_air_escape_magnet == (situation_kind == c.situation.air && status_kind != s.jump_squat
                && status_kind != s.jump && status_kind != s.escape_air)
            &&& p.refresh_jump_speed_ratio == ((fighter_kind == k.pfushigisou && status_kind
                == s.pfushigisou_special_lw_standby) || (fighter_kind == k.plizardon && status_kind
                == s.plizardon_special_lw_standby) || (fighter_kind == k.pzenigame && status_kind
                == s.pzenigame_special_lw_standby) || (fighter_kind == k.eflame && status_kind
                == s.eflame_special_lw_standby) || (fighter_kind == k.elight && status_kind
                == s.elight_special_lw_standby))
            &&& p.refresh_rar_leniency == (status_kind == s.turn_run || status_kind == s.turn_run_brake)
            &&& p.record_ground_velocity == (situation_kind == c.situation.ground)
            &&& p.record_momentum == (status_kind == s.jump || status_kind == s.pass || status_kind
                == s.jump_aerial)
            &&& p.record_momentum_specials == (status_kind == s.jump)
        }),
{
    let s = c.status;
    assert(seq![s.jump_squat, s.jump, s.escape_air][0] == s.jump_squat);
    assert(seq![s.jump_squat, s.jump, s.escape_air][1] == s.jump);
    assert(seq![s.jump_squat, s.jump, s.escape_air][2] == s.escape_air);
    assert(seq![s.jump, s.pass, s.jump_aerial][0] == s.jump);
    assert(seq![s.jump, s.pass, s.jump_aerial][1] == s.pass);
    assert(seq![s.jump, s.pass, s.jump_aerial][2] == s.jump_aerial);
}

// ---------------------------------------------------------------------------
// Specials that keep momentum.
// ---------------------------------------------------------------------------

/// Fighters whose neutral special keeps the momentum of the jump.
pub open spec fn neutral_special_momentum_fighters(c: GameConsts) -> Seq<i32> {
    let k = c.fighter;
    seq![k.mario, k.luigi, k.mariod, k.diddy, k.pikachu, k.pichu, k.ganon]
}

pub open spec fn should_conserve_special_momentum(
    fighter_kind: i32,
    status_kind: i32,
    neutral_fighters: Seq<i32>,
    c: GameConsts,
) -> bool {
    let k = c.fighter;
    let s = c.status;
    ||| neutral_fighters.contains(fighter_kind) && status_kind == s.special_n
    ||| fighter_kind == k.diddy && (status_kind == s.diddy_special_n_charge || status_kind
        == s.diddy_special_n_shoot)
    ||| fighter_kind == k.kirby && (status_kind == s.special_s || status_kind == s.kirby_special_s_attack)
}

/// What a special reads when it may keep the momentum of the jump.
#[derive(Clone, Copy)]
pub struct SpecialMomentumInput {
    pub status_kind: i32,
    pub situation_kind: i32,
    pub fighter_kind: i32,
    pub prev_status_kind: i32,
    /// The current motion frame is at most 1.
    pub frame_at_most_1: bool,
    /// The fighter's horizontal speed is above a tenth of a unit either way.
    pub moving: bool,
}

#[derive(Clone, Copy, PartialEq, Eq, Structural, Debug)]
pub struct SpecialMomentumPlan {
    /// Remember the current horizontal speed as the momentum of specials.
    pub record_specials: bool,
    /// Give the fighter the remembered momentum of specials.
    pub apply_specials: bool,
}

pub open spec fn special_momentum_plan(input: SpecialMomentumInput, c: GameConsts) -> SpecialMomentumPlan {
    let apply = input.situation_kind == c.situation.air && input.frame_at_most_1
        && should_conserve_special_momentum(
        input.fighter_kind,
        input.status_kind,
        neutral_special_momentum_fighters(c),
        c,
    ) && input.moving;
    SpecialMomentumPlan {
        record_specials: apply && input.prev_status_kind != c.status.jump,
        apply_specials: apply,
    }
}

/// A special keeps the jump's momentum only on its first airborne frame
/// while the fighter moves: the neutral specials of Mario, Luigi, Dr. Mario,
/// Diddy Kong, Pikachu, Pichu and Ganondorf, Diddy Kong's peanut charge and
/// shot, and Kirby's side special and its attack. The momentum is recorded
/// afresh unless the special came straight out of a jump.
pub proof fn lemma_special_momentum_cases(input: SpecialMomentumInput, c: GameConsts)
    ensures
        ({
            let k = c.fighter;
            let s = c.status;
            let f = input.fighter_kind;
            let st = input.status_kind;
            let p = special_momentum_plan(input, c);
            let conserving = ((f == k.mario || f == k.luigi || f == k.mariod || f == k.diddy || f == k.pikachu
                || f == k.pichu || f == k.ganon) && st == s.special_n) || (f == k.diddy && (st
                == s.diddy_special_n_charge || st == s.diddy_special_n_shoot)) || (f == k.kirby && (st
                == s.special_s || st == s.kirby_special_s_attack));
            &&& p.apply_specials == (input.situation_kind == c.situation.air && input.frame_at_most_1 && conserving
                && input.moving)
            &&& p.record_specials == (p.apply_specials && input.prev_status_kind != s.jump)
        }),
{
    let n = neutral_special_momentum_fighters(c);
    let f = input.fighter_kind;
    assert(n.contains(f) <==> (f == n[0] || f == n[1] || f == n[2] || f == n[3] || f == n[4] || f == n[5] || f
        == n[6])) by {
        if n.contains(f) {
            let i = choose|i: int| 0 <= i < n.len() && n[i] == f;
            assert(0 <= i < 7);
        }
        if f == n[0] { assert(n.contains(f) ) by { assert(n[0] == f); } }
        if f == n[1] { assert(n[1] == f); }
        if f == n[2] { assert(n[2] == f); }
        if f == n[3] { assert(n[3] == f); }
        if f == n[4] { assert(n[4] == f); }
        if f == n[5] { assert(n[5] == f); }
        if f == n[6] { assert(n[6] == f); }
    }
}

pub fn conserves_special_momentum(fighter_kind: i32, status_kind: i32, neutral_fighters: &[i32], c: &GameConsts) -> (r: bool)
    ensures
        r == should_conserve_special_momentum(fighter_kind, status_kind, neutral_fighters@, *c),
{
    let k = &c.fighter;
    let s = &c.status;
    (is_one_of(neutral_fighters, fighter_kind) && status_kind == s.special_n) || (fighter_kind == k.diddy && (
    status_kind == s.diddy_special_n_charge || status_kind == s.diddy_special_n_shoot)) || (fighter_kind
        == k.kirby && (status_kind == s.special_s || status_kind == s.kirby_special_s_attack))
}

/// Specials that keep the jump's momentum on their first airborne frame:
/// some neutral specials, Diddy Kong's peanut gun and Kirby's side special.
pub fn additional_momentum_transfer_moves(input: SpecialMomentumInput, c: &GameConsts) -> (r: SpecialMomentumPlan)
    ensures
        r == special_momentum_plan(input, *c),
        r.record_specials ==> r.apply_specials,
{
    let k = &c.fighter;
    let neutral = [k.mario, k.luigi, k.mariod, k.diddy, k.pikachu, k.pichu, k.ganon];
    assert(neutral@ =~= neutral_special_momentum_fighters(*c));
    if input.situation_kind == c.situation.air && input.frame_at_most_1 {
        let conserve = conserves_special_momentum(input.fighter_kind, input.status_kind, &neutral, c);
        if conserve && input.moving {
            return SpecialMomentumPlan {
                record_specials: input.prev_status_kind != c.status.jump,
                apply_specials: true,
            };
        }
    }
    SpecialMomentumPlan { record_specials: false, apply_specials: false }
}

// ---------------------------------------------------------------------------
// Laser momentum.
// ---------------------------------------------------------------------------

/// What the kinetic-type override reads of the fighter.
#[derive(Clone, Copy)]
pub struct KineticContext {
    pub status_kind: i32,
    pub prev_status_kind: i32,
    pub situation_kind: i32,
    pub fighter_kind: i32,
}

pub open spec fn laser_fighters(c: GameConsts) -> Seq<i32> {
    let k = c.fighter;
    seq![k.captain, k.falco, k.fox, k.gamewatch, k.wolf]
}

/// A neutral special fired in the air straight out of a jump, by a fighter
/// whose laser (or equivalent) keeps the jump's momentum.
pub open spec fn keeps_laser_momentum(ctx: KineticContext, c: GameConsts) -> bool {
    &&& laser_fighters(c).contains(ctx.fighter_kind)
    &&& ctx.status_kind == c.status.special_n
    &&& ctx.situation_kind == c.situation.air
    &&& (ctx.prev_status_kind == c.status.jump || ctx.prev_status_kind == c.status.jump_squat)
}

/// Only Captain Falcon, Falco, Fox, Mr. Game & Watch and Wolf keep their
/// momentum into a neutral special, only in the air, and only straight out
/// of a jump or a jump squat; then the kinetic type is left unchanged.
pub proof fn lemma_laser_cases(ctx: KineticContext, c: GameConsts)
    ensures
        ({
            let k = c.fighter;
            let f = ctx.fighter_kind;
            keeps_laser_momentum(ctx, c) == ((f == k.captain || f == k.falco || f == k.fox || f == k.gamewatch
                || f == k.wolf) && ctx.status_kind == c.status.special_n && ctx.situation_kind == c.situation.air
                && (ctx.prev_status_kind == c.status.jump || ctx.prev_status_kind == c.status.jump_squat))
        }),
{
    let l = laser_fighters(c);
    let f = ctx.fighter_kind;
    if l.contains(f) {
        let i = choose|i: int| 0 <= i < l.len() && l[i] == f;
        assert(0 <= i < 5);
    }
    if f == l[0] || f == l[1] || f == l[2] || f == l[3] || f == l[4] {
        if f == l[0] { assert(l[0] == f); }
        if f == l[1] { assert(l[1] == f); }
        if f == l[2] { assert(l[2] == f); }
        if f == l[3] { assert(l[3] == f); }
        if f == l[4] { assert(l[4] == f); }
    }
}

/// The kinetic type override for momentum-keeping lasers, if any.
pub fn change_kinetic_momentum_related(ctx: KineticContext, c: &GameConsts) -> (r: Option<i32>)
    ensures
        r == (if keeps_laser_momentum(ctx, *c) { Some(KINETIC_TYPE_UNCHANGED) } else { None::<i32> }),
{
    let k = &c.fighter;
    let lasers = [k.captain, k.falco, k.fox, k.gamewatch, k.wolf];
    assert(lasers@ =~= laser_fighters(*c));
    if is_one_of(&lasers, ctx.fighter_kind) && ctx.status_kind == c.status.special_n && ctx.situation_kind
        == c.situation.air && (ctx.prev_status_kind == c.status.jump || ctx.prev_status_kind
        == c.status.jump_squat) {
        return Some(KINETIC_TYPE_UNCHANGED);
    }
    None
}

/// The kinetic type the game switches to when asked for `kinetic_type`: the
/// asked type, except that a momentum-keeping laser keeps the current one.
pub fn change_kinetic_hook(kinetic_type: i32, ctx: KineticContext, c: &GameConsts) -> (r: i32)
    ensures
        r == (if keeps_laser_momentum(ctx, *c) { KINETIC_TYPE_UNCHANGED } else { kinetic_type }),
        keeps_laser_momentum(ctx, *c) ==> r == -1,
{
    let mut kinetic_type_new: i32 = kinetic_type;
    match change_kinetic_momentum_related(ctx, c) {
        Some(x) => kinetic_type_new = x,
        None => {},
    }
    kinetic_type_new
}

// ---------------------------------------------------------------------------
// Melee jump momentum.
// ---------------------------------------------------------------------------

/// Which terms enter the melee jump speed formula.
#[derive(Clone, Copy, PartialEq, Eq, Structural, Debug)]
pub struct MeleeMomentumPlan {
    /// Start from the speed remembered during jump squat instead of the
    /// current speed (the jump comes straight out of a jump squat).
    pub from_jumpsquat_velocity: bool,
    /// Use the reverse-rush formula: dash speed less the squat's traction,
    /// turned around, plus the stick.
    pub reverse_rush: bool,
}

/// The choices of the melee jump momentum formula: the squat's remembered
/// speed right after a jump squat, and the reverse-rush formula when the
/// squat began in the reverse-rush window with the stick held backwards.
pub fn melee_momentum_plan(prev_status_kind: i32, irar_jumpsquat: bool, stick_backward: bool, s: &StatusKinds) -> (r:
    MeleeMomentumPlan)
    ensures
        r == (MeleeMomentumPlan {
            from_jumpsquat_velocity: prev_status_kind == s.jump_squat,
            reverse_rush: irar_jumpsquat && stick_backward,
        }),
{
    MeleeMomentumPlan {
        from_jumpsquat_velocity: prev_status_kind == s.jump_squat,
        reverse_rush: irar_jumpsquat && stick_backward,
    }
}

} // verus!
