use vstd::prelude::*;

verus! {

/// Fighter kind ids of the game, one field per fighter that the rules name.
///
/// The game hands these ids out at run time, so the library never assumes a
/// value: whoever drives it fills the table once from the game.
#[derive(Clone, Copy)]
pub struct FighterKinds {
    pub mario: i32,
    pub donkey: i32,
    pub link: i32,
    pub samus: i32,
    pub samusd: i32,
    pub yoshi: i32,
    pub kirby: i32,
    pub fox: i32,
    pub pikachu: i32,
    pub luigi: i32,
    pub ness: i32,
    pub captain: i32,
    pub purin: i32,
    pub peach: i32,
    pub daisy: i32,
    pub koopa: i32,
    pub sheik: i32,
    pub zelda: i32,
    pub mariod: i32,
    pub pichu: i32,
    pub falco: i32,
    pub marth: i32,
    pub lucina: i32,
    pub younglink: i32,
    pub ganon: i32,
    pub mewtwo: i32,
    pub roy: i32,
    pub chrom: i32,
    pub gamewatch: i32,
    pub metaknight: i32,
    pub pit: i32,
    pub pitb: i32,
    pub szerosuit: i32,
    pub wario: i32,
    pub snake: i32,
    pub ike: i32,
    pub pzenigame: i32,
    pub pfushigisou: i32,
    pub plizardon: i32,
    pub diddy: i32,
    pub lucas: i32,
    pub sonic: i32,
    pub dedede: i32,
    pub pikmin: i32,
    pub lucario: i32,
    pub robot: i32,
    pub toonlink: i32,
    pub wolf: i32,
    pub murabito: i32,
    pub rockman: i32,
    pub wiifit: i32,
    pub rosetta: i32,
    pub littlemac: i32,
    pub gekkouga: i32,
    pub palutena: i32,
    pub pacman: i32,
    pub reflet: i32,
    pub shulk: i32,
    pub koopajr: i32,
    pub duckhunt: i32,
    pub ryu: i32,
    pub ken: i32,
    pub cloud: i32,
    pub kamui: i32,
    pub bayonetta: i32,
    pub inkling: i32,
    pub ridley: i32,
    pub simon: i32,
    pub richter: i32,
    pub krool: i32,
    pub shizue: i32,
    pub gaogaen: i32,
    pub packun: i32,
    pub jack: i32,
    pub brave: i32,
    pub buddy: i32,
    pub dolly: i32,
    pub master: i32,
    pub miifighter: i32,
    pub miiswordsman: i32,
    pub miigunner: i32,
    pub popo: i32,
    pub nana: i32,
    pub eflame: i32,
    pub elight: i32,
    pub pickel: i32,
}

/// Status kind ids of the game, one field per status that the rules name.
///
/// The ids of fighter-specific statuses are only meaningful together with the
/// fighter kind that owns them.
#[derive(Clone, Copy)]
pub struct StatusKinds {
    pub wait: i32,
    pub turn: i32,
    pub dash: i32,
    pub turn_dash: i32,
    pub turn_run: i32,
    pub turn_run_brake: i32,
    pub jump_squat: i32,
    pub jump: i32,
    pub jump_aerial: i32,
    pub fall: i32,
    pub pass: i32,
    pub landing: i32,
    pub guard: i32,
    pub guard_on: i32,
    pub guard_off: i32,
    pub escape_air: i32,
    pub attack: i32,
    pub attack_100: i32,
    pub attack_dash: i32,
    pub attack_s3: i32,
    pub attack_hi3: i32,
    pub attack_lw3: i32,
    pub attack_s4: i32,
    pub attack_hi4: i32,
    pub attack_lw4: i32,
    pub attack_s4_hold: i32,
    pub attack_hi4_hold: i32,
    pub attack_lw4_hold: i32,
    pub attack_s4_start: i32,
    pub attack_hi4_start: i32,
    pub attack_lw4_start: i32,
    pub attack_air: i32,
    pub catch: i32,
    pub special_n: i32,
    pub special_s: i32,
    pub special_hi: i32,
    pub special_lw: i32,
    pub appeal: i32,
    pub entry: i32,
    pub capture_pulled: i32,
    pub capture_wait: i32,
    pub capture_damage: i32,
    pub capture_cut: i32,
    pub thrown: i32,
    pub damage_fly: i32,
    pub damage_fly_roll: i32,
    pub damage_fly_meteor: i32,
    pub damage_fly_reflect_lr: i32,
    pub damage_fly_reflect_u: i32,
    pub damage_fly_reflect_d: i32,
    pub damage_fall: i32,
    pub tread_damage_air: i32,
    pub bury: i32,
    pub bury_wait: i32,
    pub rebirth: i32,
    pub fox_special_lw_hit: i32,
    pub fox_special_lw_loop: i32,
    pub dolly_super_special: i32,
    pub sonic_spin_jump: i32,
    pub pfushigisou_special_lw_standby: i32,
    pub plizardon_special_lw_standby: i32,
    pub pzenigame_special_lw_standby: i32,
    pub eflame_special_lw_standby: i32,
    pub elight_special_lw_standby: i32,
    pub diddy_special_n_charge: i32,
    pub diddy_special_n_shoot: i32,
    pub kirby_special_s_attack: i32,
}
/// Situation kind ids of the game.
#[derive(Clone, Copy)]
pub struct SituationKinds {
    pub ground: i32,
    pub air: i32,
    pub cliff: i32,
}

/// Bit masks of the command categories and of the pad flag.
#[derive(Clone, Copy)]
pub struct CommandFlags {
    pub cat1_escape: i32,
    pub cat1_escape_f: i32,
    pub cat1_escape_b: i32,
    pub cat1_air_escape: i32,
    pub cat1_special_hi: i32,
    pub cat1_catch: i32,
    pub cat1_jump: i32,
    pub cat1_jump_button: i32,
    pub cat1_dash: i32,
    pub cat1_turn_dash: i32,
    pub cat2_attack_dash_attack_hi4: i32,
    pub cat2_fall_jump: i32,
    pub cat2_guard_to_pass: i32,
    pub pad_flag_special_trigger: i32,
}

/// Every run-time constant of the game that the rules of this library read.
#[derive(Clone, Copy)]
pub struct GameConsts {
    pub fighter: FighterKinds,
    pub status: StatusKinds,
    pub situation: SituationKinds,
    pub cmd: CommandFlags,
    /// Category of battle objects that are fighters.
    pub battle_object_category_fighter: i32,
    /// Ground correction kind that keeps a fighter glued to the ground.
    pub ground_correct_kind_ground: i32,
}

/// Whether `x` is one of the ids in `list`.
pub fn is_one_of(list: &[i32], x: i32) -> (r: bool)
    ensures
        r == list@.contains(x),
{
    let mut i: usize = 0;
    while i < list.len()
        invariant
            0 <= i <= list.len(),
            forall|j: int| 0 <= j < i ==> list@[j] != x,
        decreases list.len() - i,
    {
        if list[i] == x {
            assert(list@[i as int] == x);
            return true;
        }
        i = i + 1;
    }
    false
}

} // verus!
