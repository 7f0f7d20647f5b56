use vstd::prelude::*;

use crate::game_consts::{is_one_of, FighterKinds, GameConsts, StatusKinds};

verus! {

// Vertical environment-collision-box offsets, in tenths of a game unit.
/// Upward shift of the smallest fighters while airborne.
pub const ECB_SHIFT_SMALL: i32 = 20;
/// Upward shift of mid-sized fighters while airborne.
pub const ECB_SHIFT_MEDIUM: i32 = 35;
/// Upward shift of large fighters while airborne.
pub const ECB_SHIFT_LARGE: i32 = 40;
/// Upward shift of the tallest fighters while airborne.
pub const ECB_SHIFT_TALL: i32 = 50;
/// Shift on the first frame of an air dodge.
pub const ECB_SHIFT_AIR_DODGE_START: i32 = 60;
/// Downward shift while a reflector is out near the ground.
pub const ECB_SHIFT_SHINE: i32 = -30;
/// A fighter counts as just airborne for fewer frames in the air than this.
pub const AIR_TRANSITION_FRAMES: i32 = 10;
/// A reflector shift applies for fewer frames in the air than this.
pub const SHINE_AIR_FRAMES: i32 = 5;

pub open spec fn small_ecb_fighters(k: FighterKinds) -> Seq<i32> {
    seq![k.kirby, k.pikachu, k.ness, k.purin, k.gamewatch, k.popo, k.nana, k.pichu, k.metaknight, k.wario,
        k.pzenigame, k.pfushigisou, k.lucas, k.pikmin, k.toonlink, k.duckhunt, k.murabito, k.inkling, k.shizue]
}

pub open spec fn medium_ecb_fighters(k: FighterKinds) -> Seq<i32> {
    seq![k.mario, k.yoshi, k.luigi, k.mariod, k.younglink, k.plizardon, k.diddy, k.dedede, k.rockman, k.gekkouga,
        k.pacman, k.koopajr, k.packun, k.miifighter, k.miiswordsman, k.miigunner, k.packun, k.buddy]
}

pub open spec fn large_ecb_fighters(k: FighterKinds) -> Seq<i32> {
    seq![k.fox, k.falco, k.daisy, k.mewtwo, k.pit, k.pitb, k.sonic, k.lucario, k.robot, k.wolf, k.littlemac,
        k.krool, k.gaogaen]
}

pub open spec fn tall_ecb_fighters(k: FighterKinds) -> Seq<i32> {
    seq![k.donkey, k.link, k.samus, k.samusd, k.captain, k.peach, k.koopa, k.sheik, k.zelda, k.marth, k.lucina,
        k.ganon, k.roy, k.chrom, k.szerosuit, k.snake, k.ike, k.wiifit, k.rosetta, k.palutena, k.reflet, k.shulk,
        k.ryu, k.ken, k.cloud, k.kamui, k.bayonetta, k.ridley, k.simon, k.richter, k.jack, k.brave, k.dolly,
        k.master]
}

/// Statuses that, as the previous status, keep the unshifted box.
pub open spec fn vanilla_ecb_prev_statuses(s: StatusKinds) -> Seq<i32> {
    seq![s.capture_pulled, s.capture_wait, s.capture_damage, s.capture_cut, s.thrown]
}

/// Statuses that keep the unshifted box.
pub open spec fn vanilla_ecb_statuses(s: StatusKinds) -> Seq<i32> {
    seq![s.capture_pulled, s.capture_wait, s.capture_damage, s.capture_cut, s.entry, s.thrown, s.damage_fly,
        s.damage_fly_roll, s.damage_fly_meteor, s.damage_fly_reflect_lr, s.damage_fly_reflect_u,
        s.damage_fly_reflect_d, s.damage_fall, s.tread_damage_air, s.bury, s.bury_wait, s.rebirth]
}

pub open spec fn shine_fighters(k: FighterKinds) -> Seq<i32> {
    seq![k.fox, k.wolf, k.falco]
}

pub open spec fn shine_statuses(s: StatusKinds) -> Seq<i32> {
    seq![s.fox_special_lw_hit, s.fox_special_lw_loop, s.special_lw]
}

/// The airborne upward shift of a fighter kind; the first list that holds
/// the kind decides, and a kind in none of them is not shifted.
pub open spec fn max_ecb_offset(fighter_kind: i32, k: FighterKinds) -> i32 {
    if small_ecb_fighters(k).contains(fighter_kind) {
        ECB_SHIFT_SMALL
    } else if medium_ecb_fighters(k).contains(fighter_kind) {
        ECB_SHIFT_MEDIUM
    } else if large_ecb_fighters(k).contains(fighter_kind) {
        ECB_SHIFT_LARGE
    } else if tall_ecb_fighters(k).contains(fighter_kind) {
        ECB_SHIFT_TALL
    } else {
        0
    }
}

/// What the box shift reads of one fighter on one frame.
#[derive(Clone, Copy)]
pub struct EcbInput {
    /// The players have control of their fighters (not in a menu, a reset or
    /// the countdown).
    pub ready_go: bool,
    pub status_kind: i32,
    pub prev_status_kind: i32,
    pub situation_kind: i32,
    pub fighter_kind: i32,
    pub frames_in_air: i32,
    /// The current motion frame is at most 1.
    pub frame_at_most_1: bool,
    /// The current motion frame is at most 2.
    pub frame_at_most_2: bool,
    /// The current motion frame lies strictly between 2 and 5.
    pub frame_in_shine_window: bool,
}

/// What the box shift does for one fighter on one frame, offsets in tenths.
#[derive(Clone, Copy, PartialEq, Eq, Structural, Debug)]
pub struct EcbPlan {
    /// New value of the player's remembered offset, if it changes.
    pub stored_offset: Option<i32>,
    /// Vertical offset that the box is given, if it is set.
    pub applied_offset: Option<i32>,
    /// Vertical offset that the box is given afterwards, if it is set again.
    pub followup_offset: Option<i32>,
}

pub open spec fn keeps_vanilla_ecb(input: EcbInput, s: StatusKinds) -> bool {
    vanilla_ecb_prev_statuses(s).contains(input.prev_status_kind) || vanilla_ecb_statuses(s).contains(
        input.status_kind,
    )
}

/// The offset remembered for an airborne fighter: an air dodge starts high,
/// drops to zero on its second frame and then takes the fighter's shift.
pub open spec fn airborne_offset(input: EcbInput, c: GameConsts) -> i32 {
    if input.status_kind == c.status.escape_air {
        if input.frame_at_most_1 {
            ECB_SHIFT_AIR_DODGE_START
        } else if input.frame_at_most_2 {
            0
        } else {
            max_ecb_offset(input.fighter_kind, c.fighter)
        }
    } else {
        max_ecb_offset(input.fighter_kind, c.fighter)
    }
}

pub open spec fn shine_applies(input: EcbInput, c: GameConsts) -> bool {
    &&& input.frames_in_air < SHINE_AIR_FRAMES
    &&& shine_fighters(c.fighter).contains(input.fighter_kind)
    &&& input.situation_kind == c.situation.air
    &&& input.frame_in_shine_window
    &&& shine_statuses(c.status).contains(input.status_kind)
}

pub open spec fn ecb_plan(input: EcbInput, c: GameConsts) -> EcbPlan {
    if !input.ready_go {
        EcbPlan { stored_offset: None, applied_offset: Some(0), followup_offset: None }
    } else {
        let vanilla = keeps_vanilla_ecb(input, c.status);
        let air_trans = input.frames_in_air < AIR_TRANSITION_FRAMES;
        let followup = if shine_applies(input, c) { Some(ECB_SHIFT_SHINE) } else { None };
        if input.situation_kind == c.situation.air {
            let offset: i32 = airborne_offset(input, c);
            EcbPlan {
                stored_offset: Some(offset),
                applied_offset: if !vanilla && !air_trans { Some(offset) } else { None },
                followup_offset: followup,
            }
        } else if input.situation_kind == c.situation.ground {
            EcbPlan {
                stored_offset: None,
                applied_offset: if !vanilla { Some(0) } else { None },
                followup_offset: followup,
            }
        } else {
            EcbPlan {
                stored_offset: Some(0),
                applied_offset: if !vanilla { Some(0) } else { None },
                followup_offset: followup,
            }
        }
    }
}

fn max_ecb_offset_of(fighter_kind: i32, k: &FighterKinds) -> (r: i32)
    ensures
        r == max_ecb_offset(fighter_kind, *k),
{
    let small = [k.kirby, k.pikachu, k.ness, k.purin, k.gamewatch, k.popo, k.nana, k.pichu, k.metaknight, k.wario,
        k.pzenigame, k.pfushigisou, k.lucas, k.pikmin, k.toonlink, k.duckhunt, k.murabito, k.inkling, k.shizue];
    assert(small@ =~= small_ecb_fighters(*k));
    let medium = [k.mario, k.yoshi, k.luigi, k.mariod, k.younglink, k.plizardon, k.diddy, k.dedede, k.rockman,
        k.gekkouga, k.pacman, k.koopajr, k.packun, k.miifighter, k.miiswordsman, k.miigunner, k.packun, k.buddy];
    assert(medium@ =~= medium_ecb_fighters(*k));
    let large = [k.fox, k.falco, k.daisy, k.mewtwo, k.pit, k.pitb, k.sonic, k.lucario, k.robot, k.wolf,
        k.littlemac, k.krool, k.gaogaen];
    assert(large@ =~= large_ecb_fighters(*k));
    let tall = [k.donkey, k.link, k.samus, k.samusd, k.captain, k.peach, k.koopa, k.sheik, k.zelda, k.marth,
        k.lucina, k.ganon, k.roy, k.chrom, k.szerosuit, k.snake, k.ike, k.wiifit, k.rosetta, k.palutena, k.reflet,
        k.shulk, k.ryu, k.ken, k.cloud, k.kamui, k.bayonetta, k.ridley, k.simon, k.richter, k.jack, k.brave,
        k.dolly, k.master];
    assert(tall@ =~= tall_ecb_fighters(*k));
    if is_one_of(&small, fighter_kind) {
        ECB_SHIFT_SMALL
    } else if is_one_of(&medium, fighter_kind) {
        ECB_SHIFT_MEDIUM
    } else if is_one_of(&large, fighter_kind) {
        ECB_SHIFT_LARGE
    } else if is_one_of(&tall, fighter_kind) {
        ECB_SHIFT_TALL
    } else {
        0
    }
}

/// The box shift of one fighter on one frame: airborne fighters get their
/// box raised (unless they were just launched, grabbed or thrown, or only
/// just left the ground), grounded ones keep it at zero, and a reflector
/// near the ground pulls it down.
pub fn fixed_ecbs(input: EcbInput, c: &GameConsts) -> (plan: EcbPlan)
    ensures
        plan == ecb_plan(input, *c),
{
    if !input.ready_go {
        return EcbPlan { stored_offset: None, applied_offset: Some(0), followup_offset: None };
    }
    let max_offset: i32 = max_ecb_offset_of(input.fighter_kind, &c.fighter);
    let s = &c.status;
    let vanilla_prev = [s.capture_pulled, s.capture_wait, s.capture_damage, s.capture_cut, s.thrown];
    assert(vanilla_prev@ =~= vanilla_ecb_prev_statuses(*s));
    let vanilla_now = [s.capture_pulled, s.capture_wait, s.capture_damage, s.capture_cut, s.entry, s.thrown,
        s.damage_fly, s.damage_fly_roll, s.damage_fly_meteor, s.damage_fly_reflect_lr, s.damage_fly_reflect_u,
        s.damage_fly_reflect_d, s.damage_fall, s.tread_damage_air, s.bury, s.bury_wait, s.rebirth];
    assert(vanilla_now@ =~= vanilla_ecb_statuses(*s));
    let air_trans = input.frames_in_air < AIR_TRANSITION_FRAMES;
    let vanilla_ecb = is_one_of(&vanilla_prev, input.prev_status_kind) || is_one_of(
        &vanilla_now,
        input.status_kind,
    );
    let mut stored: Option<i32> = None;
    let mut applied: Option<i32> = None;
    if input.situation_kind == c.situation.air {
        let offset: i32 = if input.status_kind == s.escape_air {
            if input.frame_at_most_1 {
                ECB_SHIFT_AIR_DODGE_START
            } else if input.frame_at_most_2 {
                0
            } else {
                max_offset
            }
        } else {
            max_offset
        };
        stored = Some(offset);
        if !vanilla_ecb && !air_trans {
            applied = Some(offset);
        }
    } else if input.situation_kind == c.situation.ground {
        if !vanilla_ecb {
            applied = Some(0);
        }
    } else {
        stored = Some(0);
        if !vanilla_ecb {
            applied = Some(0);
        }
    }
    let k = &c.fighter;
    let shine_kinds = [k.fox, k.wolf, k.falco];
    assert(shine_kinds@ =~= shine_fighters(*k));
    let shine_kind_statuses = [s.fox_special_lw_hit, s.fox_special_lw_loop, s.special_lw];
    assert(shine_kind_statuses@ =~= shine_statuses(*s));
    let followup = if input.frames_in_air < SHINE_AIR_FRAMES && is_one_of(&shine_kinds, input.fighter_kind)
        && input.situation_kind == c.situation.air && input.frame_in_shine_window && is_one_of(
        &shine_kind_statuses,
        input.status_kind,
    ) {
        Some(ECB_SHIFT_SHINE)
    } else {
        None
    };
    EcbPlan { stored_offset: stored, applied_offset: applied, followup_offset: followup }
}

/// Before the players have control, the box is reset to no shift and
/// nothing else happens.
pub proof fn lemma_ecb_reset_before_ready_go(input: EcbInput, c: GameConsts)
    requires
        !input.ready_go,
    ensures
        ecb_plan(input, c) == (EcbPlan { stored_offset: None, applied_offset: Some(0), followup_offset: None }),
{
}

/// A grounded fighter's box is never raised, and its remembered offset is
/// left alone.
pub proof fn lemma_ecb_grounded_stays_level(input: EcbInput, c: GameConsts)
    requires
        input.ready_go,
        input.situation_kind == c.situation.ground,
        input.situation_kind != c.situation.air,
    ensures
        ecb_plan(input, c).stored_offset is None,
        ecb_plan(input, c).applied_offset matches Some(o) ==> o == 0,
        ecb_plan(input, c).applied_offset == (if keeps_vanilla_ecb(input, c.status) { None } else { Some(0i32) }),
        ecb_plan(input, c).followup_offset is None,
{
}

/// The box is raised by at most the air-dodge shift and lowered only by the
/// reflector shift.
pub proof fn lemma_ecb_offsets_bounded(input: EcbInput, c: GameConsts)
    ensures
        ecb_plan(input, c).applied_offset matches Some(o) ==> 0 <= o <= ECB_SHIFT_AIR_DODGE_START,
        ecb_plan(input, c).stored_offset matches Some(o) ==> 0 <= o <= ECB_SHIFT_AIR_DODGE_START,
        ecb_plan(input, c).followup_offset matches Some(o) ==> o == ECB_SHIFT_SHINE,
{
}

/// An airborne fighter that is neither launched, grabbed or thrown nor only
/// just airborne gets its box raised by exactly the offset it remembers.
pub proof fn lemma_ecb_airborne_shift_applied(input: EcbInput, c: GameConsts)
    requires
        input.ready_go,
        input.situation_kind == c.situation.air,
        !keeps_vanilla_ecb(input, c.status),
        input.frames_in_air >= 10,
    ensures
        ecb_plan(input, c).applied_offset == Some(airborne_offset(input, c)),
        ecb_plan(input, c).stored_offset == Some(airborne_offset(input, c)),
{
}

/// The reflector pull-down happens only in the air: it is set exactly when
/// the players have control, the fighter is airborne for fewer than the
/// reflector frames, is one of the reflector fighters in a reflector status,
/// and the frame lies within the reflector window.
pub proof fn lemma_ecb_shine_only_in_air(input: EcbInput, c: GameConsts)
    ensures
        input.situation_kind != c.situation.air ==> ecb_plan(input, c).followup_offset is None,
        ecb_plan(input, c).followup_offset is Some ==> {
            &&& input.ready_go
            &&& input.situation_kind == c.situation.air
            &&& input.frames_in_air < 5
            &&& shine_fighters(c.fighter).contains(input.fighter_kind)
            &&& shine_statuses(c.status).contains(input.status_kind)
            &&& input.frame_in_shine_window
            &&& ecb_plan(input, c).followup_offset == Some(-30i32)
        },
        input.ready_go && input.situation_kind == c.situation.air && input.frames_in_air < 5
            && shine_fighters(c.fighter).contains(input.fighter_kind) && shine_statuses(c.status).contains(
            input.status_kind,
        ) && input.frame_in_shine_window ==> ecb_plan(input, c).followup_offset == Some(-30i32),
{
}

/// The remembered airborne offset outside an air dodge is the fighter's size
/// shift: small fighters 2, mid-sized 3.5, large 4, tall 5 units, any other
/// fighter none; during an air dodge it is 6 on the first frame, 0 on the
/// second, and the size shift afterwards.
pub proof fn lemma_ecb_airborne_offsets(input: EcbInput, c: GameConsts)
    requires
        input.ready_go,
        input.situation_kind == c.situation.air,
    ensures
        ({
            let stored = ecb_plan(input, c).stored_offset;
            let k = c.fighter;
            let size = if small_ecb_fighters(k).contains(input.fighter_kind) {
                20i32
            } else if medium_ecb_fighters(k).contains(input.fighter_kind) {
                35i32
            } else if large_ecb_fighters(k).contains(input.fighter_kind) {
                40i32
            } else if tall_ecb_fighters(k).contains(input.fighter_kind) {
                50i32
            } else {
                0i32
            };
            &&& input.status_kind != c.status.escape_air ==> stored == Some(size)
            &&& input.status_kind == c.status.escape_air && input.frame_at_most_1 ==> stored == Some(60i32)
            &&& input.status_kind == c.status.escape_air && !input.frame_at_most_1 && input.frame_at_most_2
                ==> stored == Some(0i32)
            &&& input.status_kind == c.status.escape_air && !input.frame_at_most_1 && !input.frame_at_most_2
                ==> stored == Some(size)
        }),
{
}

/// A fighter neither grounded nor airborne (on a ledge, say) has its
/// remembered offset reset to zero, and its box set level unless it keeps the
/// unshifted box.
pub proof fn lemma_ecb_other_situations(input: EcbInput, c: GameConsts)
    requires
        input.ready_go,
        input.situation_kind != c.situation.air,
        input.situation_kind != c.situation.ground,
    ensures
        ecb_plan(input, c).stored_offset == Some(0i32),
        ecb_plan(input, c).applied_offset == (if keeps_vanilla_ecb(input, c.status) { None } else { Some(0i32) }),
        ecb_plan(input, c).followup_offset is None,
{
}

/// The size classes: every small fighter is raised by 2 units, every
/// mid-sized one by 3.5, every large one by 4 and every tall one by 5, unless
/// an earlier class also holds its kind id.
pub proof fn lemma_ecb_size_classes(k: FighterKinds)
    ensures
        max_ecb_offset(k.kirby, k) == ECB_SHIFT_SMALL,
        max_ecb_offset(k.pikachu, k) == ECB_SHIFT_SMALL,
        max_ecb_offset(k.ness, k) == ECB_SHIFT_SMALL,
        max_ecb_offset(k.purin, k) == ECB_SHIFT_SMALL,
        max_ecb_offset(k.gamewatch, k) == ECB_SHIFT_SMALL,
        max_ecb_offset(k.popo, k) == ECB_SHIFT_SMALL,
        max_ecb_offset(k.nana, k) == ECB_SHIFT_SMALL,
        max_ecb_offset(k.pichu, k) == ECB_SHIFT_SMALL,
        max_ecb_offset(k.metaknight, k) == ECB_SHIFT_SMALL,
        max_ecb_offset(k.wario, k) == ECB_SHIFT_SMALL,
        max_ecb_offset(k.pzenigame, k) == ECB_SHIFT_SMALL,
        max_ecb_offset(k.pfushigisou, k) == ECB_SHIFT_SMALL,
        max_ecb_offset(k.lucas, k) == ECB_SHIFT_SMALL,
        max_ecb_offset(k.pikmin, k) == ECB_SHIFT_SMALL,
        max_ecb_offset(k.toonlink, k) == ECB_SHIFT_SMALL,
        max_ecb_offset(k.duckhunt, k) == ECB_SHIFT_SMALL,
        max_ecb_offset(k.murabito, k) == ECB_SHIFT_SMALL,
        max_ecb_offset(k.inkling, k) == ECB_SHIFT_SMALL,
        max_ecb_offset(k.shizue, k) == ECB_SHIFT_SMALL,
        max_ecb_offset(k.mario, k) == ECB_SHIFT_MEDIUM || small_ecb_fighters(k).contains(k.mario),
        max_ecb_offset(k.yoshi, k) == ECB_SHIFT_MEDIUM || small_ecb_fighters(k).contains(k.yoshi),
        max_ecb_offset(k.luigi, k) == ECB_SHIFT_MEDIUM || small_ecb_fighters(k).contains(k.luigi),
        max_ecb_offset(k.mariod, k) == ECB_SHIFT_MEDIUM || small_ecb_fighters(k).contains(k.mariod),
        max_ecb_offset(k.younglink, k) == ECB_SHIFT_MEDIUM || small_ecb_fighters(k).contains(k.younglink),
        max_ecb_offset(k.plizardon, k) == ECB_SHIFT_MEDIUM || small_ecb_fighters(k).contains(k.plizardon),
        max_ecb_offset(k.diddy, k) == ECB_SHIFT_MEDIUM || small_ecb_fighters(k).contains(k.diddy),
        max_ecb_offset(k.dedede, k) == ECB_SHIFT_MEDIUM || small_ecb_fighters(k).contains(k.dedede),
        max_ecb_offset(k.rockman, k) == ECB_SHIFT_MEDIUM || small_ecb_fighters(k).contains(k.rockman),
        max_ecb_offset(k.gekkouga, k) == ECB_SHIFT_MEDIUM || small_ecb_fighters(k).contains(k.gekkouga),
        max_ecb_offset(k.pacman, k) == ECB_SHIFT_MEDIUM || small_ecb_fighters(k).contains(k.pacman),
        max_ecb_offset(k.koopajr, k) == ECB_SHIFT_MEDIUM || small_ecb_fighters(k).contains(k.koopajr),
        max_ecb_offset(k.packun, k) == ECB_SHIFT_MEDIUM || small_ecb_fighters(k).contains(k.packun),
        max_ecb_offset(k.miifighter, k) == ECB_SHIFT_MEDIUM || small_ecb_fighters(k).contains(k.miifighter),
        max_ecb_offset(k.miiswordsman, k) == ECB_SHIFT_MEDIUM || small_ecb_fighters(k).contains(k.miiswordsman),
        max_ecb_offset(k.miigunner, k) == ECB_SHIFT_MEDIUM || small_ecb_fighters(k).contains(k.miigunner),
        max_ecb_offset(k.buddy, k) == ECB_SHIFT_MEDIUM || small_ecb_fighters(k).contains(k.buddy),
        max_ecb_offset(k.fox, k) == ECB_SHIFT_LARGE || small_ecb_fighters(k).contains(k.fox) || medium_ecb_fighters(k).contains(k.fox),
        max_ecb_offset(k.falco, k) == ECB_SHIFT_LARGE || small_ecb_fighters(k).contains(k.falco) || medium_ecb_fighters(k).contains(k.falco),
        max_ecb_offset(k.daisy, k) == ECB_SHIFT_LARGE || small_ecb_fighters(k).contains(k.daisy) || medium_ecb_fighters(k).contains(k.daisy),
        max_ecb_offset(k.mewtwo, k) == ECB_SHIFT_LARGE || small_ecb_fighters(k).contains(k.mewtwo) || medium_ecb_fighters(k).contains(k.mewtwo),
        max_ecb_offset(k.pit, k) == ECB_SHIFT_LARGE || small_ecb_fighters(k).contains(k.pit) || medium_ecb_fighters(k).contains(k.pit),
        max_ecb_offset(k.pitb, k) == ECB_SHIFT_LARGE || small_ecb_fighters(k).contains(k.pitb) || medium_ecb_fighters(k).contains(k.pitb),
        max_ecb_offset(k.sonic, k) == ECB_SHIFT_LARGE || small_ecb_fighters(k).contains(k.sonic) || medium_ecb_fighters(k).contains(k.sonic),
        max_ecb_offset(k.lucario, k) == ECB_SHIFT_LARGE || small_ecb_fighters(k).contains(k.lucario) || medium_ecb_fighters(k).contains(k.lucario),
        max_ecb_offset(k.robot, k) == ECB_SHIFT_LARGE || small_ecb_fighters(k).contains(k.robot) || medium_ecb_fighters(k).contains(k.robot),
        max_ecb_offset(k.wolf, k) == ECB_SHIFT_LARGE || small_ecb_fighters(k).contains(k.wolf) || medium_ecb_fighters(k).contains(k.wolf),
        max_ecb_offset(k.littlemac, k) == ECB_SHIFT_LARGE || small_ecb_fighters(k).contains(k.littlemac) || medium_ecb_fighters(k).contains(k.littlemac),
        max_ecb_offset(k.krool, k) == ECB_SHIFT_LARGE || small_ecb_fighters(k).contains(k.krool) || medium_ecb_fighters(k).contains(k.krool),
        max_ecb_offset(k.gaogaen, k) == ECB_SHIFT_LARGE || small_ecb_fighters(k).contains(k.gaogaen) || medium_ecb_fighters(k).contains(k.gaogaen),
        max_ecb_offset(k.donkey, k) == ECB_SHIFT_TALL || small_ecb_fighters(k).contains(k.donkey) || medium_ecb_fighters(k).contains(k.donkey) || large_ecb_fighters(k).contains(k.donkey),
        max_ecb_offset(k.link, k) == ECB_SHIFT_TALL || small_ecb_fighters(k).contains(k.link) || medium_ecb_fighters(k).contains(k.link) || large_ecb_fighters(k).contains(k.link),
        max_ecb_offset(k.samus, k) == ECB_SHIFT_TALL || small_ecb_fighters(k).contains(k.samus) || medium_ecb_fighters(k).contains(k.samus) || large_ecb_fighters(k).contains(k.samus),
        max_ecb_offset(k.samusd, k) == ECB_SHIFT_TALL || small_ecb_fighters(k).contains(k.samusd) || medium_ecb_fighters(k).contains(k.samusd) || large_ecb_fighters(k).contains(k.samusd),
        max_ecb_offset(k.captain, k) == ECB_SHIFT_TALL || small_ecb_fighters(k).contains(k.captain) || medium_ecb_fighters(k).contains(k.captain) || large_ecb_fighters(k).contains(k.captain),
        max_ecb_offset(k.peach, k) == ECB_SHIFT_TALL || small_ecb_fighters(k).contains(k.peach) || medium_ecb_fighters(k).contains(k.peach) || large_ecb_fighters(k).contains(k.peach),
        max_ecb_offset(k.koopa, k) == ECB_SHIFT_TALL || small_ecb_fighters(k).contains(k.koopa) || medium_ecb_fighters(k).contains(k.koopa) || large_ecb_fighters(k).contains(k.koopa),
        max_ecb_offset(k.sheik, k) == ECB_SHIFT_TALL || small_ecb_fighters(k).contains(k.sheik) || medium_ecb_fighters(k).contains(k.sheik) || large_ecb_fighters(k).contains(k.sheik),
        max_ecb_offset(k.zelda, k) == ECB_SHIFT_TALL || small_ecb_fighters(k).contains(k.zelda) || medium_ecb_fighters(k).contains(k.zelda) || large_ecb_fighters(k).contains(k.zelda),
        max_ecb_offset(k.marth, k) == ECB_SHIFT_TALL || small_ecb_fighters(k).contains(k.marth) || medium_ecb_fighters(k).contains(k.marth) || large_ecb_fighters(k).contains(k.marth),
        max_ecb_offset(k.lucina, k) == ECB_SHIFT_TALL || small_ecb_fighters(k).contains(k.lucina) || medium_ecb_fighters(k).contains(k.lucina) || large_ecb_fighters(k).contains(k.lucina),
        max_ecb_offset(k.ganon, k) == ECB_SHIFT_TALL || small_ecb_fighters(k).contains(k.ganon) || medium_ecb_fighters(k).contains(k.ganon) || large_ecb_fighters(k).contains(k.ganon),
        max_ecb_offset(k.roy, k) == ECB_SHIFT_TALL || small_ecb_fighters(k).contains(k.roy) || medium_ecb_fighters(k).contains(k.roy) || large_ecb_fighters(k).contains(k.roy),
        max_ecb_offset(k.chrom, k) == ECB_SHIFT_TALL || small_ecb_fighters(k).contains(k.chrom) || medium_ecb_fighters(k).contains(k.chrom) || large_ecb_fighters(k).contains(k.chrom),
        max_ecb_offset(k.szerosuit, k) == ECB_SHIFT_TALL || small_ecb_fighters(k).contains(k.szerosuit) || medium_ecb_fighters(k).contains(k.szerosuit) || large_ecb_fighters(k).contains(k.szerosuit),
        max_ecb_offset(k.snake, k) == ECB_SHIFT_TALL || small_ecb_fighters(k).contains(k.snake) || medium_ecb_fighters(k).contains(k.snake) || large_ecb_fighters(k).contains(k.snake),
        max_ecb_offset(k.ike, k) == ECB_SHIFT_TALL || small_ecb_fighters(k).contains(k.ike) || medium_ecb_fighters(k).contains(k.ike) || large_ecb_fighters(k).contains(k.ike),
        max_ecb_offset(k.wiifit, k) == ECB_SHIFT_TALL || small_ecb_fighters(k).contains(k.wiifit) || medium_ecb_fighters(k).contains(k.wiifit) || large_ecb_fighters(k).contains(k.wiifit),
        max_ecb_offset(k.rosetta, k) == ECB_SHIFT_TALL || small_ecb_fighters(k).contains(k.rosetta) || medium_ecb_fighters(k).contains(k.rosetta) || large_ecb_fighters(k).contains(k.rosetta),
        max_ecb_offset(k.palutena, k) == ECB_SHIFT_TALL || small_ecb_fighters(k).contains(k.palutena) || medium_ecb_fighters(k).contains(k.palutena) || large_ecb_fighters(k).contains(k.palutena),
        max_ecb_offset(k.reflet, k) == ECB_SHIFT_TALL || small_ecb_fighters(k).contains(k.reflet) || medium_ecb_fighters(k).contains(k.reflet) || large_ecb_fighters(k).contains(k.reflet),
        max_ecb_offset(k.shulk, k) == ECB_SHIFT_TALL || small_ecb_fighters(k).contains(k.shulk) || medium_ecb_fighters(k).contains(k.shulk) || large_ecb_fighters(k).contains(k.shulk),
        max_ecb_offset(k.ryu, k) == ECB_SHIFT_TALL || small_ecb_fighters(k).contains(k.ryu) || medium_ecb_fighters(k).contains(k.ryu) || large_ecb_fighters(k).contains(k.ryu),
        max_ecb_offset(k.ken, k) == ECB_SHIFT_TALL || small_ecb_fighters(k).contains(k.ken) || medium_ecb_fighters(k).contains(k.ken) || large_ecb_fighters(k).contains(k.ken),
        max_ecb_offset(k.cloud, k) == ECB_SHIFT_TALL || small_ecb_fighters(k).contains(k.cloud) || medium_ecb_fighters(k).contains(k.cloud) || large_ecb_fighters(k).contains(k.cloud),
        max_ecb_offset(k.kamui, k) == ECB_SHIFT_TALL || small_ecb_fighters(k).contains(k.kamui) || medium_ecb_fighters(k).contains(k.kamui) || large_ecb_fighters(k).contains(k.kamui),
        max_ecb_offset(k.bayonetta, k) == ECB_SHIFT_TALL || small_ecb_fighters(k).contains(k.bayonetta) || medium_ecb_fighters(k).contains(k.bayonetta) || large_ecb_fighters(k).contains(k.bayonetta),
        max_ecb_offset(k.ridley, k) == ECB_SHIFT_TALL || small_ecb_fighters(k).contains(k.ridley) || medium_ecb_fighters(k).contains(k.ridley) || large_ecb_fighters(k).contains(k.ridley),
        max_ecb_offset(k.simon, k) == ECB_SHIFT_TALL || small_ecb_fighters(k).contains(k.simon) || medium_ecb_fighters(k).contains(k.simon) || large_ecb_fighters(k).contains(k.simon),
        max_ecb_offset(k.richter, k) == ECB_SHIFT_TALL || small_ecb_fighters(k).contains(k.richter) || medium_ecb_fighters(k).contains(k.richter) || large_ecb_fighters(k).contains(k.richter),
        max_ecb_offset(k.jack, k) == ECB_SHIFT_TALL || small_ecb_fighters(k).contains(k.jack) || medium_ecb_fighters(k).contains(k.jack) || large_ecb_fighters(k).contains(k.jack),
        max_ecb_offset(k.brave, k) == ECB_SHIFT_TALL || small_ecb_fighters(k).contains(k.brave) || medium_ecb_fighters(k).contains(k.brave) || large_ecb_fighters(k).contains(k.brave),
        max_ecb_offset(k.dolly, k) == ECB_SHIFT_TALL || small_ecb_fighters(k).contains(k.dolly) || medium_ecb_fighters(k).contains(k.dolly) || large_ecb_fighters(k).contains(k.dolly),
        max_ecb_offset(k.master, k) == ECB_SHIFT_TALL || small_ecb_fighters(k).contains(k.master) || medium_ecb_fighters(k).contains(k.master) || large_ecb_fighters(k).contains(k.master),
{
    assert(small_ecb_fighters(k)[0] == k.kirby);
    assert(small_ecb_fighters(k)[1] == k.pikachu);
    assert(small_ecb_fighters(k)[2] == k.ness);
    assert(small_ecb_fighters(k)[3] == k.purin);
    assert(small_ecb_fighters(k)[4] == k.gamewatch);
    assert(small_ecb_fighters(k)[5] == k.popo);
    assert(small_ecb_fighters(k)[6] == k.nana);
    assert(small_ecb_fighters(k)[7] == k.pichu);
    assert(small_ecb_fighters(k)[8] == k.metaknight);
    assert(small_ecb_fighters(k)[9] == k.wario);
    assert(small_ecb_fighters(k)[10] == k.pzenigame);
    assert(small_ecb_fighters(k)[11] == k.pfushigisou);
    assert(small_ecb_fighters(k)[12] == k.lucas);
    assert(small_ecb_fighters(k)[13] == k.pikmin);
    assert(small_ecb_fighters(k)[14] == k.toonlink);
    assert(small_ecb_fighters(k)[15] == k.duckhunt);
    assert(small_ecb_fighters(k)[16] == k.murabito);
    assert(small_ecb_fighters(k)[17] == k.inkling);
    assert(small_ecb_fighters(k)[18] == k.shizue);
    assert(medium_ecb_fighters(k)[0] == k.mario);
    assert(medium_ecb_fighters(k)[1] == k.yoshi);
    assert(medium_ecb_fighters(k)[2] == k.luigi);
    assert(medium_ecb_fighters(k)[3] == k.mariod);
    assert(medium_ecb_fighters(k)[4] == k.younglink);
    assert(medium_ecb_fighters(k)[5] == k.plizardon);
    assert(medium_ecb_fighters(k)[6] == k.diddy);
    assert(medium_ecb_fighters(k)[7] == k.dedede);
    assert(medium_ecb_fighters(k)[8] == k.rockman);
    assert(medium_ecb_fighters(k)[9] == k.gekkouga);
    assert(medium_ecb_fighters(k)[10] == k.pacman);
    assert(medium_ecb_fighters(k)[11] == k.koopajr);
    assert(medium_ecb_fighters(k)[12] == k.packun);
    assert(medium_ecb_fighters(k)[13] == k.miifighter);
    assert(medium_ecb_fighters(k)[14] == k.miiswordsman);
    assert(medium_ecb_fighters(k)[15] == k.miigunner);
    assert(medium_ecb_fighters(k)[16] == k.packun);
    assert(medium_ecb_fighters(k)[17] == k.buddy);
    assert(large_ecb_fighters(k)[0] == k.fox);
    assert(large_ecb_fighters(k)[1] == k.falco);
    assert(large_ecb_fighters(k)[2] == k.daisy);
    assert(large_ecb_fighters(k)[3] == k.mewtwo);
    assert(large_ecb_fighters(k)[4] == k.pit);
    assert(large_ecb_fighters(k)[5] == k.pitb);
    assert(large_ecb_fighters(k)[6] == k.sonic);
    assert(large_ecb_fighters(k)[7] == k.lucario);
    assert(large_ecb_fighters(k)[8] == k.robot);
    assert(large_ecb_fighters(k)[9] == k.wolf);
    assert(large_ecb_fighters(k)[10] == k.littlemac);
    assert(large_ecb_fighters(k)[11] == k.krool);
    assert(large_ecb_fighters(k)[12] == k.gaogaen);
    assert(tall_ecb_fighters(k)[0] == k.donkey);
    assert(tall_ecb_fighters(k)[1] == k.link);
    assert(tall_ecb_fighters(k)[2] == k.samus);
    assert(tall_ecb_fighters(k)[3] == k.samusd);
    assert(tall_ecb_fighters(k)[4] == k.captain);
    assert(tall_ecb_fighters(k)[5] == k.peach);
    assert(tall_ecb_fighters(k)[6] == k.koopa);
    assert(tall_ecb_fighters(k)[7] == k.sheik);
    assert(tall_ecb_fighters(k)[8] == k.zelda);
    assert(tall_ecb_fighters(k)[9] == k.marth);
    assert(tall_ecb_fighters(k)[10] == k.lucina);
    assert(tall_ecb_fighters(k)[11] == k.ganon);
    assert(tall_ecb_fighters(k)[12] == k.roy);
    assert(tall_ecb_fighters(k)[13] == k.chrom);
    assert(tall_ecb_fighters(k)[14] == k.szerosuit);
    assert(tall_ecb_fighters(k)[15] == k.snake);
    assert(tall_ecb_fighters(k)[16] == k.ike);
    assert(tall_ecb_fighters(k)[17] == k.wiifit);
    assert(tall_ecb_fighters(k)[18] == k.rosetta);
    assert(tall_ecb_fighters(k)[19] == k.palutena);
    assert(tall_ecb_fighters(k)[20] == k.reflet);
    assert(tall_ecb_fighters(k)[21] == k.shulk);
    assert(tall_ecb_fighters(k)[22] == k.ryu);
    assert(tall_ecb_fighters(k)[23] == k.ken);
    assert(tall_ecb_fighters(k)[24] == k.cloud);
    assert(tall_ecb_fighters(k)[25] == k.kamui);
    assert(tall_ecb_fighters(k)[26] == k.bayonetta);
    assert(tall_ecb_fighters(k)[27] == k.ridley);
    assert(tall_ecb_fighters(k)[28] == k.simon);
    assert(tall_ecb_fighters(k)[29] == k.richter);
    assert(tall_ecb_fighters(k)[30] == k.jack);
    assert(tall_ecb_fighters(k)[31] == k.brave);
    assert(tall_ecb_fighters(k)[32] == k.dolly);
    assert(tall_ecb_fighters(k)[33] == k.master);
}

/// The box stays unshifted after being pulled in, held, hit or cut loose from a
/// grab, or thrown.
pub proof fn lemma_vanilla_prev_statuses(x: i32, s: StatusKinds)
    ensures
        vanilla_ecb_prev_statuses(s).contains(x) <==> (x == s.capture_pulled || x == s.capture_wait || x == s.capture_damage || x == s.capture_cut || x == s.thrown),
{
    let q = vanilla_ecb_prev_statuses(s);
    assert(q[0] == s.capture_pulled);
    assert(q[1] == s.capture_wait);
    assert(q[2] == s.capture_damage);
    assert(q[3] == s.capture_cut);
    assert(q[4] == s.thrown);
    if q.contains(x) {
        let i = choose|i: int| 0 <= i < 5 && q[i] == x;
    }
}

/// The box stays unshifted while grabbed, thrown, entering, launched, tumbling,
/// buried, reviving or stepped on in the air.
pub proof fn lemma_vanilla_statuses(x: i32, s: StatusKinds)
    ensures
        vanilla_ecb_statuses(s).contains(x) <==> (x == s.capture_pulled || x == s.capture_wait || x == s.capture_damage || x == s.capture_cut || x == s.entry || x == s.thrown || x == s.damage_fly || x == s.damage_fly_roll || x == s.damage_fly_meteor || x == s.damage_fly_reflect_lr || x == s.damage_fly_reflect_u || x == s.damage_fly_reflect_d || x == s.damage_fall || x == s.tread_damage_air || x == s.bury || x == s.bury_wait || x == s.rebirth),
{
    let q = vanilla_ecb_statuses(s);
    assert(q[0] == s.capture_pulled);
    assert(q[1] == s.capture_wait);
    assert(q[2] == s.capture_damage);
    assert(q[3] == s.capture_cut);
    assert(q[4] == s.entry);
    assert(q[5] == s.thrown);
    assert(q[6] == s.damage_fly);
    assert(q[7] == s.damage_fly_roll);
    assert(q[8] == s.damage_fly_meteor);
    assert(q[9] == s.damage_fly_reflect_lr);
    assert(q[10] == s.damage_fly_reflect_u);
    assert(q[11] == s.damage_fly_reflect_d);
    assert(q[12] == s.damage_fall);
    assert(q[13] == s.tread_damage_air);
    assert(q[14] == s.bury);
    assert(q[15] == s.bury_wait);
    assert(q[16] == s.rebirth);
    if q.contains(x) {
        let i = choose|i: int| 0 <= i < 17 && q[i] == x;
    }
}

/// Fox, Wolf and Falco have the reflector pull-down.
pub proof fn lemma_shine_fighters(x: i32, k: FighterKinds)
    ensures
        shine_fighters(k).contains(x) <==> (x == k.fox || x == k.wolf || x == k.falco),
{
    let q = shine_fighters(k);
    assert(q[0] == k.fox);
    assert(q[1] == k.wolf);
    assert(q[2] == k.falco);
    if q.contains(x) {
        let i = choose|i: int| 0 <= i < 3 && q[i] == x;
    }
}

/// The pull-down applies to the reflector's hit and loop statuses and to the
/// down special.
pub proof fn lemma_shine_statuses(x: i32, s: StatusKinds)
    ensures
        shine_statuses(s).contains(x) <==> (x == s.fox_special_lw_hit || x == s.fox_special_lw_loop || x == s.special_lw),
{
    let q = shine_statuses(s);
    assert(q[0] == s.fox_special_lw_hit);
    assert(q[1] == s.fox_special_lw_loop);
    assert(q[2] == s.special_lw);
    if q.contains(x) {
        let i = choose|i: int| 0 <= i < 3 && q[i] == x;
    }
}

/// Launched, grabbed or thrown fighters, and fighters that only just became
/// airborne, keep their box where it is.
pub proof fn lemma_ecb_vanilla_not_shifted(input: EcbInput, c: GameConsts)
    requires
        input.ready_go,
        keeps_vanilla_ecb(input, c.status) || (input.situation_kind == c.situation.air && input.frames_in_air
            < 10),
    ensures
        ecb_plan(input, c).applied_offset is None,
{
}

} // verus!
