use ketchup_mod::game_consts::{CommandFlags, FighterKinds, GameConsts, SituationKinds, StatusKinds};
use ketchup_mod::jumpsquat::{
    status_JumpSquat_Main, status_JumpSquat_common, sub_status_JumpSquat_check_stick_lr_update,
    uniq_process_JumpSquat_exec_status_param, JumpSquatCommonInput, JumpSquatCommonPlan, JumpSquatExecInput,
    JumpSquatExecOutcome, JumpSquatMainAction, JumpSquatMainEvent, JumpSquatMainPhase,
};
use ketchup_mod::momentum_transfer::{
    additional_momentum_transfer_moves, change_kinetic_hook, change_kinetic_momentum_related, jumpsquat_correction,
    melee_momentum_plan, momentum_transfer_helper, status_attack_air_hook, status_jump_sub_hook, AerialSpeed,
    CorrectionInput, KineticContext, MomentumFlags, SpecialMomentumInput,
};
use ketchup_mod::momentum_transfer_line;
use ketchup_mod::moveset_utils::{
    enable_dash_cancel, enable_fast_fall, enable_jump_cancel, enable_jump_cancel_dir_reversable, enable_land_cancel,
    jump_checker_buffer, JumpCancel, JumpCancelInput,
};
use ketchup_mod::status_script_hooks::{sub_air_check_escape_air_snap, SnapAction};
use ketchup_mod::sys_line::{
    actions_out_of_js, handle_game_resets, pivots, shield_drops, shield_stops, single_button_smash_attacks,
    OutOfJsInput, PivotInput, ReadyGoTracker, SessionEvent, ShieldDropInput, SmashButtonInput, StickDirection,
};

fn game() -> GameConsts {
    GameConsts {
        fighter: FighterKinds {
            mario: 0,
            donkey: 1,
            link: 2,
            samus: 3,
            samusd: 4,
            yoshi: 5,
            kirby: 6,
            fox: 7,
            pikachu: 8,
            luigi: 9,
            ness: 10,
            captain: 11,
            purin: 12,
            peach: 13,
            daisy: 14,
            koopa: 15,
            sheik: 16,
            zelda: 17,
            mariod: 18,
            pichu: 19,
            falco: 20,
            marth: 21,
            lucina: 22,
            younglink: 23,
            ganon: 24,
            mewtwo: 25,
            roy: 26,
            chrom: 27,
            gamewatch: 28,
            metaknight: 29,
            pit: 30,
            pitb: 31,
            szerosuit: 32,
            wario: 33,
            snake: 34,
            ike: 35,
            pzenigame: 36,
            pfushigisou: 37,
            plizardon: 38,
            diddy: 39,
            lucas: 40,
            sonic: 41,
            dedede: 42,
            pikmin: 43,
            lucario: 44,
            robot: 45,
            toonlink: 46,
            wolf: 47,
            murabito: 48,
            rockman: 49,
            wiifit: 50,
            rosetta: 51,
            littlemac: 52,
            gekkouga: 53,
            palutena: 54,
            pacman: 55,
            reflet: 56,
            shulk: 57,
            koopajr: 58,
            duckhunt: 59,
            ryu: 60,
            ken: 61,
            cloud: 62,
            kamui: 63,
            bayonetta: 64,
            inkling: 65,
            ridley: 66,
            simon: 67,
            richter: 68,
            krool: 69,
            shizue: 70,
            gaogaen: 71,
            packun: 72,
            jack: 73,
            brave: 74,
            buddy: 75,
            dolly: 76,
            master: 77,
            miifighter: 78,
            miiswordsman: 79,
            miigunner: 80,
            popo: 81,
            nana: 82,
            eflame: 83,
            elight: 84,
            pickel: 85,
        },
        status: StatusKinds {
            wait: 0,
            turn: 1,
            dash: 2,
            turn_dash: 3,
            turn_run: 4,
            turn_run_brake: 5,
            jump_squat: 6,
            jump: 7,
            jump_aerial: 8,
            fall: 9,
            pass: 10,
            landing: 11,
            guard: 12,
            guard_on: 13,
            guard_off: 14,
            escape_air: 15,
            attack: 16,
            attack_100: 17,
            attack_dash: 18,
            attack_s3: 19,
            attack_hi3: 20,
            attack_lw3: 21,
            attack_s4: 22,
            attack_hi4: 23,
            attack_lw4: 24,
            attack_s4_hold: 25,
            attack_hi4_hold: 26,
            attack_lw4_hold: 27,
            attack_s4_start: 28,
            attack_hi4_start: 29,
            attack_lw4_start: 30,
            attack_air: 31,
            catch: 32,
            special_n: 33,
            special_s: 34,
            special_hi: 35,
            special_lw: 36,
            appeal: 37,
            entry: 38,
            capture_pulled: 39,
            capture_wait: 40,
            capture_damage: 41,
            capture_cut: 42,
            thrown: 43,
            damage_fly: 44,
            damage_fly_roll: 45,
            damage_fly_meteor: 46,
            damage_fly_reflect_lr: 47,
            damage_fly_reflect_u: 48,
            damage_fly_reflect_d: 49,
            damage_fall: 50,
            tread_damage_air: 51,
            bury: 52,
            bury_wait: 53,
            rebirth: 54,
            fox_special_lw_hit: 55,
            fox_special_lw_loop: 56,
            dolly_super_special: 57,
            sonic_spin_jump: 58,
            pfushigisou_special_lw_standby: 59,
            plizardon_special_lw_standby: 60,
            pzenigame_special_lw_standby: 61,
            eflame_special_lw_standby: 62,
            elight_special_lw_standby: 63,
            diddy_special_n_charge: 64,
            diddy_special_n_shoot: 65,
            kirby_special_s_attack: 66,
        },
        situation: SituationKinds { ground: 0, cliff: 1, air: 2 },
        cmd: CommandFlags {
            cat1_escape: 1 << 10,
            cat1_escape_f: 1 << 11,
            cat1_escape_b: 1 << 12,
            cat1_air_escape: 1 << 13,
            cat1_special_hi: 1 << 14,
            cat1_catch: 1 << 15,
            cat1_jump: 1 << 16,
            cat1_jump_button: 1 << 17,
            cat1_dash: 1 << 18,
            cat1_turn_dash: 1 << 19,
            cat2_attack_dash_attack_hi4: 1 << 4,
            cat2_fall_jump: 1 << 5,
            cat2_guard_to_pass: 1 << 6,
            pad_flag_special_trigger: 1 << 2,
        },
        battle_object_category_fighter: 0,
        ground_correct_kind_ground: 1,
    }
}

// ----- jump squat main status -----

fn begin(situation_kind: i32, escape_air: bool, jump_start: bool, fall: bool) -> JumpSquatMainEvent {
    JumpSquatMainEvent::Begin {
        custom_routine_ended: false,
        situation_kind,
        escape_air_enabled: escape_air,
        jump_start_enabled: jump_start,
        fall_enabled: fall,
    }
}

#[test]
fn jumpsquat_main_custom_routine_ends_status() {
    let c = game();
    let ev = JumpSquatMainEvent::Begin {
        custom_routine_ended: true,
        situation_kind: c.situation.ground,
        escape_air_enabled: true,
        jump_start_enabled: true,
        fall_enabled: true,
    };
    assert_eq!(status_JumpSquat_Main(JumpSquatMainPhase::Start, ev, &c), (JumpSquatMainPhase::Done, JumpSquatMainAction::EndStatus));
}

#[test]
fn jumpsquat_main_first_enabled_transition_wins() {
    let c = game();
    let g = c.situation.ground;
    assert_eq!(
        status_JumpSquat_Main(JumpSquatMainPhase::Start, begin(g, true, true, true), &c).1,
        JumpSquatMainAction::ChangeStatus { status_kind: c.status.escape_air, clear_buffer: true }
    );
    assert_eq!(
        status_JumpSquat_Main(JumpSquatMainPhase::Start, begin(g, false, true, true), &c).1,
        JumpSquatMainAction::ChangeStatus { status_kind: c.status.jump, clear_buffer: false }
    );
    assert_eq!(
        status_JumpSquat_Main(JumpSquatMainPhase::Start, begin(c.situation.air, false, false, true), &c).1,
        JumpSquatMainAction::ChangeStatus { status_kind: c.status.fall, clear_buffer: false }
    );
    assert_eq!(
        status_JumpSquat_Main(JumpSquatMainPhase::Start, begin(g, false, false, true), &c),
        (JumpSquatMainPhase::AwaitGroundItem { situation_kind: g }, JumpSquatMainAction::CheckGroundItem)
    );
}

#[test]
fn jumpsquat_main_up_special_then_up_smash() {
    let c = game();
    let g = c.situation.ground;
    let await_item = JumpSquatMainPhase::AwaitGroundItem { situation_kind: g };
    let special = JumpSquatMainEvent::GroundItemChecked { transitioned: false, cat1: c.cmd.cat1_special_hi, special_hi_enabled: true };
    assert_eq!(
        status_JumpSquat_Main(await_item, special, &c),
        (JumpSquatMainPhase::Done, JumpSquatMainAction::ChangeStatus { status_kind: c.status.special_hi, clear_buffer: true })
    );
    let item = JumpSquatMainEvent::GroundItemChecked { transitioned: true, cat1: c.cmd.cat1_special_hi, special_hi_enabled: true };
    assert_eq!(status_JumpSquat_Main(await_item, item, &c), (JumpSquatMainPhase::Done, JumpSquatMainAction::Finish));
    let nothing = JumpSquatMainEvent::GroundItemChecked { transitioned: false, cat1: 0, special_hi_enabled: true };
    let (phase, action) = status_JumpSquat_Main(await_item, nothing, &c);
    assert_eq!(action, JumpSquatMainAction::CheckSpecialFlagHoist);
    let smash = JumpSquatMainEvent::SpecialFlagHoistChecked {
        hoisted: false,
        cat2: c.cmd.cat2_attack_dash_attack_hi4,
        attack_hi4_start_enabled: true,
        cstick_on: false,
    };
    assert_eq!(
        status_JumpSquat_Main(phase, smash, &c),
        (JumpSquatMainPhase::Done, JumpSquatMainAction::ChangeStatus { status_kind: c.status.attack_hi4_start, clear_buffer: true })
    );
    let cstick = JumpSquatMainEvent::SpecialFlagHoistChecked {
        hoisted: false,
        cat2: c.cmd.cat2_attack_dash_attack_hi4,
        attack_hi4_start_enabled: true,
        cstick_on: true,
    };
    assert_eq!(status_JumpSquat_Main(phase, cstick, &c).1, JumpSquatMainAction::Finish);
}

#[test]
fn jumpsquat_main_mismatched_event_finishes() {
    let c = game();
    let ev = JumpSquatMainEvent::GroundItemChecked { transitioned: false, cat1: -1, special_hi_enabled: true };
    assert_eq!(status_JumpSquat_Main(JumpSquatMainPhase::Start, ev, &c), (JumpSquatMainPhase::Done, JumpSquatMainAction::Finish));
    assert_eq!(
        status_JumpSquat_Main(JumpSquatMainPhase::Done, begin(0, true, true, true), &c),
        (JumpSquatMainPhase::Done, JumpSquatMainAction::Finish)
    );
}

// ----- jump squat common setup -----

fn common_input(c: &GameConsts) -> JumpSquatCommonInput {
    JumpSquatCommonInput {
        stick_jump_command_life: 0,
        flick_y_dir: 1,
        jump_mini_button: false,
        prev_status_kind: c.status.wait,
        can_attack_cancel: false,
        lr_update: false,
        abnormal_minijump_slowwalk: false,
        jump_mini_attack: false,
        reserve_jump_mini_attack: false,
    }
}

#[test]
fn jumpsquat_common_button_jump() {
    let c = game();
    let plan = status_JumpSquat_common(common_input(&c), &c);
    assert_eq!(plan, JumpSquatCommonPlan {
        button_jump: true,
        reserve_jump_mini: false,
        update_lr: false,
        buffered_aerial: false,
        disable_conditional_transitions: false,
    });
    let mut flick = common_input(&c);
    flick.stick_jump_command_life = 3;
    flick.jump_mini_button = true;
    let p = status_JumpSquat_common(flick, &c);
    assert!(!p.button_jump && !p.reserve_jump_mini);
}

#[test]
fn jumpsquat_common_short_hop_reservations() {
    let c = game();
    let mut both = common_input(&c);
    both.jump_mini_button = true;
    assert!(status_JumpSquat_common(both, &c).reserve_jump_mini);
    let mut cancel = common_input(&c);
    cancel.prev_status_kind = c.status.attack_s4_hold;
    cancel.can_attack_cancel = true;
    assert!(status_JumpSquat_common(cancel, &c).reserve_jump_mini);
    cancel.can_attack_cancel = false;
    assert!(!status_JumpSquat_common(cancel, &c).reserve_jump_mini);
    let mut walk = common_input(&c);
    walk.stick_jump_command_life = 2;
    walk.abnormal_minijump_slowwalk = true;
    assert!(status_JumpSquat_common(walk, &c).reserve_jump_mini);
}

#[test]
fn jumpsquat_common_buffered_aerial_disables_transitions() {
    let c = game();
    let mut aerial = common_input(&c);
    aerial.jump_mini_attack = true;
    aerial.lr_update = true;
    let p = status_JumpSquat_common(aerial, &c);
    assert!(p.buffered_aerial && p.disable_conditional_transitions && p.update_lr);
    let mut reserved = common_input(&c);
    reserved.reserve_jump_mini_attack = true;
    let q = status_JumpSquat_common(reserved, &c);
    assert!(!q.buffered_aerial && q.disable_conditional_transitions);
}

// ----- jump squat per frame -----

fn exec_input(cat1: i32) -> JumpSquatExecInput {
    JumpSquatExecInput {
        cat1,
        catch_enabled: false,
        squat_ending: false,
        air_escape_requested: false,
        stick_past_slide_threshold: false,
    }
}

#[test]
fn jumpsquat_exec_outcomes() {
    let c = game();
    let grab = uniq_process_JumpSquat_exec_status_param(exec_input(c.cmd.cat1_catch), &c);
    assert_eq!(grab.outcome, JumpSquatExecOutcome::EnableCatch);
    assert!(!grab.request_air_escape);
    assert_eq!(uniq_process_JumpSquat_exec_status_param(exec_input(0), &c).outcome, JumpSquatExecOutcome::TrackVelocity);
    let mut end = exec_input(0);
    end.squat_ending = true;
    assert_eq!(uniq_process_JumpSquat_exec_status_param(end, &c).outcome, JumpSquatExecOutcome::Jump);
    end.air_escape_requested = true;
    assert_eq!(uniq_process_JumpSquat_exec_status_param(end, &c).outcome, JumpSquatExecOutcome::RisingAirDodge);
    end.stick_past_slide_threshold = true;
    assert_eq!(uniq_process_JumpSquat_exec_status_param(end, &c).outcome, JumpSquatExecOutcome::Wavedash);
}

#[test]
fn jumpsquat_exec_air_dodge_pressed_on_last_frame() {
    let c = game();
    let mut last = exec_input(c.cmd.cat1_air_escape);
    last.squat_ending = true;
    last.stick_past_slide_threshold = true;
    let plan = uniq_process_JumpSquat_exec_status_param(last, &c);
    assert!(plan.request_air_escape);
    assert_eq!(plan.outcome, JumpSquatExecOutcome::Wavedash);
    let mut grab_enabled = exec_input(c.cmd.cat1_catch);
    grab_enabled.catch_enabled = true;
    assert_eq!(uniq_process_JumpSquat_exec_status_param(grab_enabled, &c).outcome, JumpSquatExecOutcome::TrackVelocity);
}

#[test]
fn jumpsquat_stick_lr_update_out_of_dash() {
    let c = game();
    assert!(sub_status_JumpSquat_check_stick_lr_update(c.status.dash, &c.status));
    assert!(sub_status_JumpSquat_check_stick_lr_update(c.status.turn_dash, &c.status));
    assert!(!sub_status_JumpSquat_check_stick_lr_update(c.status.wait, &c.status));
}

// ----- momentum -----

#[test]
fn jump_momentum_exceptions() {
    let c = game();
    assert!(status_jump_sub_hook(c.status.jump_squat, &c));
    assert!(!status_jump_sub_hook(c.status.sonic_spin_jump, &c));
}

#[test]
fn aerial_speed_choices() {
    let c = game();
    assert_eq!(status_attack_air_hook(c.status.wait, true, true, &c), AerialSpeed::Keep);
    assert_eq!(status_attack_air_hook(c.status.jump, false, true, &c), AerialSpeed::ClampedMomentum);
    assert_eq!(status_attack_air_hook(c.status.jump_squat, true, true, &c), AerialSpeed::MeleeMomentum);
    assert_eq!(status_attack_air_hook(c.status.jump_squat, true, false, &c), AerialSpeed::ClampedMomentum);
}

fn correction(c: &GameConsts, status_kind: i32, prev_status_kind: i32, situation_kind: i32) -> CorrectionInput {
    CorrectionInput { status_kind, prev_status_kind, situation_kind, frame_below_2: true, jump_mini_attack: false }
}

#[test]
fn reverse_rush_window_and_squat() {
    let c = game();
    let none = MomentumFlags { irar_window: false, irar_jumpsquat: false, sh_macro: false };
    let turn = jumpsquat_correction(none, correction(&c, c.status.turn_dash, c.status.dash, c.situation.ground), &c);
    assert!(turn.flags.irar_window && !turn.clear_speed);
    let squat = jumpsquat_correction(turn.flags, correction(&c, c.status.jump_squat, c.status.turn_dash, c.situation.ground), &c);
    assert!(squat.flags.irar_jumpsquat && squat.clear_speed);
    let air = jumpsquat_correction(squat.flags, correction(&c, c.status.jump, c.status.jump_squat, c.situation.air), &c);
    assert_eq!(air.flags, MomentumFlags { irar_window: false, irar_jumpsquat: true, sh_macro: false });
    let land = jumpsquat_correction(air.flags, correction(&c, c.status.landing, c.status.jump, c.situation.ground), &c);
    assert_eq!(land.flags, MomentumFlags { irar_window: false, irar_jumpsquat: false, sh_macro: false });
}

#[test]
fn reverse_rush_window_closes_late_in_turn_dash() {
    let c = game();
    let open = MomentumFlags { irar_window: true, irar_jumpsquat: false, sh_macro: false };
    let mut late = correction(&c, c.status.turn_dash, c.status.turn_dash, c.situation.ground);
    late.frame_below_2 = false;
    assert!(!jumpsquat_correction(open, late, &c).flags.irar_window);
    let plain = jumpsquat_correction(open, correction(&c, c.status.jump_squat, c.status.wait, c.situation.ground), &c);
    assert!(plain.clear_speed);
    let no_window = MomentumFlags { irar_window: false, irar_jumpsquat: false, sh_macro: false };
    assert!(!jumpsquat_correction(no_window, correction(&c, c.status.jump_squat, c.status.wait, c.situation.ground), &c).clear_speed);
}

#[test]
fn short_hop_macro_tracking() {
    let c = game();
    let none = MomentumFlags { irar_window: false, irar_jumpsquat: false, sh_macro: false };
    let mut input = correction(&c, c.status.jump_squat, c.status.wait, c.situation.ground);
    input.jump_mini_attack = true;
    let buffered = jumpsquat_correction(none, input, &c);
    assert!(buffered.flags.sh_macro);
    let air = jumpsquat_correction(buffered.flags, correction(&c, c.status.attack_air, c.status.jump, c.situation.air), &c);
    assert!(air.flags.sh_macro);
    let mut grounded = correction(&c, c.status.landing, c.status.attack_air, c.situation.ground);
    grounded.jump_mini_attack = true;
    assert!(!jumpsquat_correction(air.flags, grounded, &c).flags.sh_macro);
}

#[test]
fn momentum_helper_records() {
    let c = game();
    let air_jump = momentum_transfer_helper(c.status.jump, c.situation.air, c.fighter.mario, &c);
    assert!(!air_jump.enable_air_escape_magnet && air_jump.record_momentum && air_jump.record_momentum_specials);
    let fall = momentum_transfer_helper(c.status.fall, c.situation.air, c.fighter.mario, &c);
    assert!(fall.enable_air_escape_magnet && !fall.record_momentum && !fall.record_ground_velocity);
    let run = momentum_transfer_helper(c.status.turn_run, c.situation.ground, c.fighter.mario, &c);
    assert!(run.refresh_rar_leniency && run.record_ground_velocity && !run.refresh_jump_speed_ratio);
    let standby = momentum_transfer_helper(c.status.elight_special_lw_standby, c.situation.ground, c.fighter.elight, &c);
    assert!(standby.refresh_jump_speed_ratio);
    let wrong = momentum_transfer_helper(c.status.elight_special_lw_standby, c.situation.ground, c.fighter.eflame, &c);
    assert!(!wrong.refresh_jump_speed_ratio);
}

fn special(c: &GameConsts, fighter_kind: i32, status_kind: i32) -> SpecialMomentumInput {
    SpecialMomentumInput {
        status_kind,
        situation_kind: c.situation.air,
        fighter_kind,
        prev_status_kind: c.status.fall,
        frame_at_most_1: true,
        moving: true,
    }
}

#[test]
fn specials_keep_momentum() {
    let c = game();
    let mario = additional_momentum_transfer_moves(special(&c, c.fighter.mario, c.status.special_n), &c);
    assert!(mario.apply_specials && mario.record_specials);
    let mut from_jump = special(&c, c.fighter.diddy, c.status.diddy_special_n_shoot);
    from_jump.prev_status_kind = c.status.jump;
    let d = additional_momentum_transfer_moves(from_jump, &c);
    assert!(d.apply_specials && !d.record_specials);
    let kirby = additional_momentum_transfer_moves(special(&c, c.fighter.kirby, c.status.kirby_special_s_attack), &c);
    assert!(kirby.apply_specials);
    let captain = additional_momentum_transfer_moves(special(&c, c.fighter.captain, c.status.special_n), &c);
    assert!(!captain.apply_specials);
    let mut still = special(&c, c.fighter.mario, c.status.special_n);
    still.moving = false;
    assert!(!additional_momentum_transfer_moves(still, &c).apply_specials);
    let mut late = special(&c, c.fighter.mario, c.status.special_n);
    late.frame_at_most_1 = false;
    assert!(!additional_momentum_transfer_moves(late, &c).apply_specials);
}

#[test]
fn laser_keeps_kinetic_type() {
    let c = game();
    let ctx = KineticContext {
        status_kind: c.status.special_n,
        prev_status_kind: c.status.jump_squat,
        situation_kind: c.situation.air,
        fighter_kind: c.fighter.falco,
    };
    assert_eq!(change_kinetic_momentum_related(ctx, &c), Some(-1));
    assert_eq!(change_kinetic_hook(12, ctx, &c), -1);
    let grounded = KineticContext { situation_kind: c.situation.ground, ..ctx };
    assert_eq!(change_kinetic_momentum_related(grounded, &c), None);
    assert_eq!(change_kinetic_hook(12, grounded, &c), 12);
    let mario = KineticContext { fighter_kind: c.fighter.mario, ..ctx };
    assert_eq!(change_kinetic_hook(7, mario, &c), 7);
}

#[test]
fn melee_momentum_terms() {
    let c = game();
    let p = melee_momentum_plan(c.status.jump_squat, true, true, &c.status);
    assert!(p.from_jumpsquat_velocity && p.reverse_rush);
    let q = melee_momentum_plan(c.status.jump, true, false, &c.status);
    assert!(!q.from_jumpsquat_velocity && !q.reverse_rush);
}

#[test]
fn line_variant_frame() {
    let c = game();
    let flags = MomentumFlags { irar_window: true, irar_jumpsquat: false, sh_macro: false };
    let input = momentum_transfer_line::RunInput {
        status_kind: c.status.jump_squat,
        prev_status_kind: c.status.turn_dash,
        situation_kind: c.situation.ground,
        fighter_kind: c.fighter.captain,
        frame_below_2: true,
        jump_mini_attack: false,
    };
    let step = momentum_transfer_line::run(flags, input, &c);
    assert!(step.correction.clear_speed && step.correction.flags.irar_jumpsquat);
    assert!(step.helper.record_jumpsquat_velocity && step.helper.record_momentum && step.helper.record_momentum_specials);
    let h = momentum_transfer_line::momentum_transfer_helper(c.status.pass, c.situation.air, &c);
    assert!(h.record_momentum && !h.record_momentum_specials && !h.record_jumpsquat_velocity);
}

#[test]
fn line_variant_specials_include_captain() {
    let c = game();
    let captain = special(&c, c.fighter.captain, c.status.special_n);
    assert!(momentum_transfer_line::additional_momentum_transfer_moves(captain, &c));
    assert!(!additional_momentum_transfer_moves(captain, &c).apply_specials);
    let kirby = special(&c, c.fighter.kirby, c.status.special_s);
    assert!(momentum_transfer_line::additional_momentum_transfer_moves(kirby, &c));
    let mut grounded = special(&c, c.fighter.mario, c.status.special_n);
    grounded.situation_kind = c.situation.ground;
    assert!(!momentum_transfer_line::additional_momentum_transfer_moves(grounded, &c));
}

// ----- cancels -----

fn jump_cancel_input(c: &GameConsts, situation_kind: i32, cat1: i32) -> JumpCancelInput {
    JumpCancelInput { situation_kind, cat1, flick_jump_enabled: false, frame_in_window: true, jump_count: 1, jump_count_max: 2 }
}

#[test]
fn jump_checker_reads_button_or_flick() {
    let c = game();
    assert!(jump_checker_buffer(c.cmd.cat1_jump_button, false, &c));
    assert!(!jump_checker_buffer(c.cmd.cat1_jump, false, &c));
    assert!(jump_checker_buffer(c.cmd.cat1_jump, true, &c));
    assert!(!jump_checker_buffer(0, true, &c));
}

#[test]
fn jump_cancels_by_situation() {
    let c = game();
    let b = c.cmd.cat1_jump_button;
    assert_eq!(enable_jump_cancel(jump_cancel_input(&c, c.situation.air, b), &c), Some(c.status.jump_aerial));
    assert_eq!(enable_jump_cancel(jump_cancel_input(&c, c.situation.ground, b), &c), Some(c.status.jump_squat));
    let mut no_jumps = jump_cancel_input(&c, c.situation.air, b);
    no_jumps.jump_count = 2;
    assert_eq!(enable_jump_cancel(no_jumps, &c), None);
    let mut outside = jump_cancel_input(&c, c.situation.ground, b);
    outside.frame_in_window = false;
    assert_eq!(enable_jump_cancel(outside, &c), None);
    assert_eq!(enable_jump_cancel(jump_cancel_input(&c, c.situation.cliff, b), &c), None);
}

#[test]
fn reversible_jump_cancels() {
    let c = game();
    let b = c.cmd.cat1_jump_button;
    assert_eq!(
        enable_jump_cancel_dir_reversable(jump_cancel_input(&c, c.situation.air, b), false, true, true, &c),
        Some(JumpCancel { status_kind: c.status.jump_aerial, reverse_lr: true })
    );
    assert_eq!(
        enable_jump_cancel_dir_reversable(jump_cancel_input(&c, c.situation.ground, b), false, true, true, &c),
        Some(JumpCancel { status_kind: c.status.jump_squat, reverse_lr: false })
    );
    assert_eq!(
        enable_jump_cancel_dir_reversable(jump_cancel_input(&c, c.situation.ground, b), true, false, false, &c),
        Some(JumpCancel { status_kind: c.status.jump_squat, reverse_lr: false })
    );
    assert_eq!(enable_jump_cancel_dir_reversable(jump_cancel_input(&c, c.situation.ground, 0), true, true, true, &c), None);
}

#[test]
fn fast_fall_land_and_dash_cancels() {
    let c = game();
    assert!(enable_fast_fall(c.situation.air, true, c.cmd.cat2_fall_jump, true, &c));
    assert!(!enable_fast_fall(c.situation.air, true, c.cmd.cat2_fall_jump, false, &c));
    assert!(!enable_fast_fall(c.situation.ground, true, c.cmd.cat2_fall_jump, true, &c));
    assert_eq!(enable_land_cancel(c.situation.ground, c.situation.air, 77, &c), Some(77));
    assert_eq!(enable_land_cancel(c.situation.ground, c.situation.ground, 77, &c), None);
    assert_eq!(enable_dash_cancel(c.cmd.cat1_dash | c.cmd.cat1_turn_dash, c.situation.ground, 5, 5, 9, &c), Some(c.status.dash));
    assert_eq!(enable_dash_cancel(c.cmd.cat1_turn_dash, c.situation.ground, 9, 5, 9, &c), Some(c.status.turn_dash));
    assert_eq!(enable_dash_cancel(c.cmd.cat1_dash, c.situation.ground, 10, 5, 9, &c), None);
    assert_eq!(enable_dash_cancel(c.cmd.cat1_dash, c.situation.air, 6, 5, 9, &c), None);
}

// ----- air-dodge magnet -----

#[test]
fn escape_air_snap_actions() {
    assert_eq!(sub_air_check_escape_air_snap(true, true), SnapAction::ArmNow);
    assert_eq!(sub_air_check_escape_air_snap(false, false), SnapAction::CountDown);
    assert_eq!(sub_air_check_escape_air_snap(false, true), SnapAction::Nothing);
}

// ----- per-frame engine edits -----

#[test]
fn sessions_start_and_end_on_edges() {
    let t = ReadyGoTracker::new();
    assert!(!t.last_ready_go);
    let (t, e) = handle_game_resets(t, true);
    assert_eq!(e, SessionEvent::Start);
    let (t, e) = handle_game_resets(t, true);
    assert_eq!(e, SessionEvent::NoChange);
    let (t, e) = handle_game_resets(t, false);
    assert_eq!(e, SessionEvent::End);
    let (_, e) = handle_game_resets(t, false);
    assert_eq!(e, SessionEvent::NoChange);
}

fn out_of_js(c: &GameConsts) -> OutOfJsInput {
    OutOfJsInput {
        status_kind: c.status.jump_squat,
        situation_kind: c.situation.ground,
        cat1: c.cmd.cat1_catch,
        prev_status_kind: c.status.dash,
        has_item: false,
        current_status_kind: c.status.jump_squat,
        frame_below_3: true,
    }
}

#[test]
fn grab_out_of_jump_squat() {
    let c = game();
    let p = actions_out_of_js(out_of_js(&c), &c);
    assert!(p.grab);
    assert_eq!(p.attack_cancel, None);
    let mut shield = out_of_js(&c);
    shield.prev_status_kind = c.status.guard_off;
    assert!(!actions_out_of_js(shield, &c).grab);
    let mut item = out_of_js(&c);
    item.has_item = true;
    assert!(!actions_out_of_js(item, &c).grab);
}

#[test]
fn attack_cancel_window() {
    let c = game();
    let mut attack = out_of_js(&c);
    attack.status_kind = c.status.attack;
    attack.current_status_kind = c.status.attack;
    let p = actions_out_of_js(attack, &c);
    assert!(!p.grab);
    assert_eq!(p.attack_cancel, Some(true));
    attack.frame_below_3 = false;
    assert_eq!(actions_out_of_js(attack, &c).attack_cancel, Some(false));
}

#[test]
fn shield_stop_out_of_dash() {
    let c = game();
    assert!(shield_stops(c.status.dash, true, true, &c.status));
    assert!(shield_stops(c.status.turn_dash, true, true, &c.status));
    assert!(!shield_stops(c.status.dash, true, false, &c.status));
    assert!(!shield_stops(c.status.wait, true, true, &c.status));
}

fn shield_drop_input(c: &GameConsts) -> ShieldDropInput {
    ShieldDropInput {
        cat2: 0,
        status_kind: c.status.guard,
        fighter_kind: c.fighter.mario,
        pad_flag: 0,
        flick_y: 20,
        stick_down: false,
        passable_ground: true,
    }
}

#[test]
fn shield_drop_inputs() {
    let c = game();
    assert!(!shield_drops(shield_drop_input(&c), &c));
    let mut special = shield_drop_input(&c);
    special.pad_flag = c.cmd.pad_flag_special_trigger;
    assert!(shield_drops(special, &c));
    special.fighter_kind = c.fighter.pickel;
    assert!(!shield_drops(special, &c));
    let mut flick = shield_drop_input(&c);
    flick.flick_y = 11;
    flick.stick_down = true;
    assert!(shield_drops(flick, &c));
    flick.flick_y = 12;
    assert!(!shield_drops(flick, &c));
    let mut pass = shield_drop_input(&c);
    pass.cat2 = c.cmd.cat2_guard_to_pass;
    assert!(shield_drops(pass, &c));
    pass.passable_ground = false;
    assert!(!shield_drops(pass, &c));
    let mut off = shield_drop_input(&c);
    off.cat2 = c.cmd.cat2_guard_to_pass;
    off.status_kind = c.status.guard_off;
    assert!(!shield_drops(off, &c));
}

fn smash_input(c: &GameConsts, direction: StickDirection) -> SmashButtonInput {
    SmashButtonInput {
        status_kind: c.status.wait,
        button_triggered: true,
        flick_x: 3,
        flick_y: 9,
        situation_kind: c.situation.ground,
        cancel_enabled: true,
        direction,
    }
}

#[test]
fn smash_button_directions() {
    let c = game();
    assert_eq!(single_button_smash_attacks(smash_input(&c, StickDirection::Right), &c), Some(c.status.attack_s4_start));
    assert_eq!(single_button_smash_attacks(smash_input(&c, StickDirection::Left), &c), Some(c.status.attack_s4_start));
    assert_eq!(single_button_smash_attacks(smash_input(&c, StickDirection::Up), &c), Some(c.status.attack_hi4_start));
    assert_eq!(single_button_smash_attacks(smash_input(&c, StickDirection::Down), &c), Some(c.status.attack_lw4_start));
    assert_eq!(single_button_smash_attacks(smash_input(&c, StickDirection::Unclassified), &c), None);
    let mut slow = smash_input(&c, StickDirection::Up);
    slow.flick_x = 6;
    slow.flick_y = 6;
    assert_eq!(single_button_smash_attacks(slow, &c), None);
    let mut busy = smash_input(&c, StickDirection::Up);
    busy.status_kind = c.status.appeal;
    assert_eq!(single_button_smash_attacks(busy, &c), None);
}

#[test]
fn pivot_out_of_dash() {
    let c = game();
    let input = PivotInput {
        status_kind: c.status.turn_dash,
        frame_in_snapback_window: true,
        stick_neutral: true,
        prev_status_kind: c.status.dash,
        prev_prev_status_kind: c.status.turn_dash,
    };
    assert!(pivots(input, &c.status));
    assert!(!pivots(PivotInput { prev_prev_status_kind: c.status.wait, ..input }, &c.status));
    assert!(!pivots(PivotInput { stick_neutral: false, ..input }, &c.status));
    assert!(!pivots(PivotInput { prev_status_kind: c.status.wait, ..input }, &c.status));
}

#[test]
fn jump_out_of_early_attack_is_short_hop() {
    let c = game();
    let attack = OutOfJsInput {
        status_kind: c.status.attack_dash,
        situation_kind: c.situation.ground,
        cat1: 0,
        prev_status_kind: c.status.dash,
        has_item: false,
        current_status_kind: c.status.attack_dash,
        frame_below_3: true,
    };
    let allowed = actions_out_of_js(attack, &c).attack_cancel.unwrap();
    let mut squat = common_input(&c);
    squat.prev_status_kind = c.status.attack_dash;
    squat.can_attack_cancel = allowed;
    assert!(status_JumpSquat_common(squat, &c).reserve_jump_mini);
    let late = OutOfJsInput { frame_below_3: false, ..attack };
    squat.can_attack_cancel = actions_out_of_js(late, &c).attack_cancel.unwrap();
    assert!(!status_JumpSquat_common(squat, &c).reserve_jump_mini);
}
