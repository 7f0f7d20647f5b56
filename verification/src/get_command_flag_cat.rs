use vstd::prelude::*;

use crate::cmd_flags::{bits_within, cat_has, clear_buffered_action, command_bit, compare_cat};
use crate::game_consts::GameConsts;

verus! {

/// What the buffer fix reads of the fighter besides the command category.
#[derive(Clone, Copy)]
pub struct CommandCatContext {
    pub status_kind: i32,
    pub situation_kind: i32,
    pub prev_status_kind: i32,
    /// The fighter's damage reaction frame count is above zero.
    pub in_damage_reaction: bool,
}

/// `cat` with the bit of `cmd` cleared when `cond` holds.
pub open spec fn clear_if(cat: i32, cond: bool, cmd: i32) -> i32 {
    if cond {
        cat & !command_bit(cmd)
    } else {
        cat
    }
}

/// The first command category after the buffer fixes: a spot dodge is kept
/// only out of landing, rolls are never kept, and dodges are dropped entirely
/// while in damage reaction, during an aerial or on a ledge.
pub open spec fn fixed_command_cat(cat: i32, category: i32, ctx: CommandCatContext, c: GameConsts) -> i32 {
    if category != 0 {
        cat
    } else {
        let f = c.cmd;
        let c1: i32 = clear_if(
            cat,
            cat_has(cat, f.cat1_escape) && ctx.prev_status_kind != c.status.landing,
            f.cat1_escape,
        );
        let c2: i32 = clear_if(c1, cat_has(c1, f.cat1_escape_b), f.cat1_escape_b);
        let c3: i32 = clear_if(c2, cat_has(c2, f.cat1_escape_f), f.cat1_escape_f);
        let drop_dodges = ((cat_has(c3, f.cat1_air_escape) || cat_has(c3, f.cat1_escape))
            && ctx.in_damage_reaction) || ctx.status_kind == c.status.attack_air
            || ctx.situation_kind == c.situation.cliff;
        if drop_dodges {
            (c3 & !command_bit(f.cat1_air_escape)) & !command_bit(f.cat1_escape)
        } else {
            c3
        }
    }
}

/// The command category that the game gets back for the one it computed,
/// `cat`, in category `category`.
pub fn get_command_flag_cat_hook(cat: i32, category: i32, ctx: CommandCatContext, c: &GameConsts) -> (r: i32)
    ensures
        r == fixed_command_cat(cat, category, ctx, *c),
        category != 0 ==> r == cat,
        bits_within(r, cat),
{
    let mut cat: i32 = cat;
    let ghost orig: i32 = cat;
    proof {
        assert(orig & !orig == 0) by (bit_vector);
    }
    if category == 0 {
        let f = c.cmd;
        if compare_cat(cat, f.cat1_escape) && ctx.prev_status_kind != c.status.landing {
            let ghost before: i32 = cat;
            cat = clear_buffered_action(cat, f.cat1_escape);
            proof { lemma_cleared_within(before, f.cat1_escape, orig); }
        }
        if compare_cat(cat, f.cat1_escape_b) {
            let ghost before: i32 = cat;
            cat = clear_buffered_action(cat, f.cat1_escape_b);
            proof { lemma_cleared_within(before, f.cat1_escape_b, orig); }
        }
        if compare_cat(cat, f.cat1_escape_f) {
            let ghost before: i32 = cat;
            cat = clear_buffered_action(cat, f.cat1_escape_f);
            proof { lemma_cleared_within(before, f.cat1_escape_f, orig); }
        }
        let any_dodge = compare_cat(cat, f.cat1_air_escape) || compare_cat(cat, f.cat1_escape);
        if any_dodge && ctx.in_damage_reaction || ctx.status_kind == c.status.attack_air
            || ctx.situation_kind == c.situation.cliff {
            let ghost before: i32 = cat;
            let once: i32 = clear_buffered_action(cat, f.cat1_air_escape);
            proof { lemma_cleared_within(before, f.cat1_air_escape, orig); }
            cat = clear_buffered_action(once, f.cat1_escape);
            proof { lemma_cleared_within(once, f.cat1_escape, orig); }
        }
    }
    cat
}

proof fn lemma_cleared_within(x: i32, cmd: i32, orig: i32)
    requires
        bits_within(x, orig),
    ensures
        bits_within(x & !command_bit(cmd), orig),
{
    let b: i32 = command_bit(cmd);
    assert((x & !b) & !orig == 0) by (bit_vector)
        requires
            x & !orig == 0,
    ;
}

proof fn lemma_within_keeps_clear(x: i32, y: i32, b: i32)
    requires
        bits_within(x, y),
        y & b == 0,
    ensures
        x & b == 0,
{
    assert(x & b == 0) by (bit_vector)
        requires
            x & !y == 0,
            y & b == 0,
    ;
}

proof fn lemma_fix_chain(cat: i32, category: i32, ctx: CommandCatContext, c: GameConsts)
    requires
        category == 0,
    ensures
        ({
            let f = c.cmd;
            let c1 = clear_if(cat, cat_has(cat, f.cat1_escape) && ctx.prev_status_kind != c.status.landing, f.cat1_escape);
            let c2 = clear_if(c1, cat_has(c1, f.cat1_escape_b), f.cat1_escape_b);
            let c3 = clear_if(c2, cat_has(c2, f.cat1_escape_f), f.cat1_escape_f);
            let r = fixed_command_cat(cat, category, ctx, c);
            &&& bits_within(c2, c1)
            &&& bits_within(c3, c2)
            &&& bits_within(r, c3)
            &&& bits_within(c3, c1)
            &&& bits_within(r, c2)
            &&& bits_within(r, c1)
        }),
{
    let f = c.cmd;
    let c1 = clear_if(cat, cat_has(cat, f.cat1_escape) && ctx.prev_status_kind != c.status.landing, f.cat1_escape);
    let c2 = clear_if(c1, cat_has(c1, f.cat1_escape_b), f.cat1_escape_b);
    let c3 = clear_if(c2, cat_has(c2, f.cat1_escape_f), f.cat1_escape_f);
    assert(c1 & !c1 == 0) by (bit_vector);
    assert(c2 & !c2 == 0) by (bit_vector);
    assert(c3 & !c3 == 0) by (bit_vector);
    lemma_cleared_within(c1, f.cat1_escape_b, c1);
    lemma_cleared_within(c2, f.cat1_escape_f, c2);
    lemma_cleared_within(c3, f.cat1_air_escape, c3);
    lemma_cleared_within(c3 & !command_bit(f.cat1_air_escape), f.cat1_escape, c3);
    crate::cmd_flags::lemma_bits_within_trans(c3, c2, c1);
    crate::cmd_flags::lemma_bits_within_trans(fixed_command_cat(cat, category, ctx, c), c3, c2);
    crate::cmd_flags::lemma_bits_within_trans(fixed_command_cat(cat, category, ctx, c), c2, c1);
}

/// A category with no dodge or roll bits, outside an aerial and off the
/// ledge, passes the buffer fix unchanged.
pub proof fn lemma_command_fix_without_dodges(cat: i32, ctx: CommandCatContext, c: GameConsts)
    requires
        cat & (c.cmd.cat1_escape | c.cmd.cat1_escape_b | c.cmd.cat1_escape_f | c.cmd.cat1_air_escape) == 0,
        ctx.status_kind != c.status.attack_air,
        ctx.situation_kind != c.situation.cliff,
    ensures
        fixed_command_cat(cat, 0, ctx, c) == cat,
{
    let f = c.cmd;
    let (a, b, d, e) = (f.cat1_escape, f.cat1_escape_b, f.cat1_escape_f, f.cat1_air_escape);
    assert(cat & a == 0 && cat & b == 0 && cat & d == 0 && cat & e == 0) by (bit_vector)
        requires
            cat & (a | b | d | e) == 0,
    ;
}

/// Out of landing, a spot dodge survives the buffer fix: with no roll bits,
/// outside an aerial, off the ledge and out of damage reaction, the category
/// is unchanged.
pub proof fn lemma_command_fix_spot_dodge_out_of_landing(cat: i32, ctx: CommandCatContext, c: GameConsts)
    requires
        ctx.prev_status_kind == c.status.landing,
        cat & (c.cmd.cat1_escape_b | c.cmd.cat1_escape_f) == 0,
        ctx.status_kind != c.status.attack_air,
        ctx.situation_kind != c.situation.cliff,
        !ctx.in_damage_reaction,
    ensures
        fixed_command_cat(cat, 0, ctx, c) == cat,
{
    let f = c.cmd;
    let (b, d) = (f.cat1_escape_b, f.cat1_escape_f);
    assert(cat & b == 0 && cat & d == 0) by (bit_vector)
        requires
            cat & (b | d) == 0,
    ;
}

/// Outside landing, a spot dodge command loses the bit that its flag names.
pub proof fn lemma_command_fix_spot_dodge_dropped(cat: i32, ctx: CommandCatContext, c: GameConsts)
    requires
        ctx.prev_status_kind != c.status.landing,
        cat & c.cmd.cat1_escape != 0,
    ensures
        fixed_command_cat(cat, 0, ctx, c) & command_bit(c.cmd.cat1_escape) == 0,
{
    lemma_fix_chain(cat, 0, ctx, c);
    let b = command_bit(c.cmd.cat1_escape);
    assert((cat & !b) & b == 0) by (bit_vector);
    lemma_within_keeps_clear(fixed_command_cat(cat, 0, ctx, c), cat & !b, b);
}

/// A roll, backward or forward, loses the bit that its flag names, when the
/// roll bits survive the earlier clears.
pub proof fn lemma_command_fix_rolls_dropped(cat: i32, ctx: CommandCatContext, c: GameConsts)
    ensures
        (cat & !command_bit(c.cmd.cat1_escape)) & c.cmd.cat1_escape_b != 0 ==> fixed_command_cat(cat, 0, ctx, c)
            & command_bit(c.cmd.cat1_escape_b) == 0,
        (cat & !command_bit(c.cmd.cat1_escape) & !command_bit(c.cmd.cat1_escape_b)) & c.cmd.cat1_escape_f != 0
            ==> fixed_command_cat(cat, 0, ctx, c) & command_bit(c.cmd.cat1_escape_f) == 0,
{
    lemma_fix_chain(cat, 0, ctx, c);
    let f = c.cmd;
    let (be, bb, bf) = (command_bit(f.cat1_escape), command_bit(f.cat1_escape_b), command_bit(f.cat1_escape_f));
    let (mb, mf) = (f.cat1_escape_b, f.cat1_escape_f);
    let c1 = clear_if(cat, cat_has(cat, f.cat1_escape) && ctx.prev_status_kind != c.status.landing, f.cat1_escape);
    let c2 = clear_if(c1, cat_has(c1, mb), mb);
    let r = fixed_command_cat(cat, 0, ctx, c);
    if (cat & !be) & mb != 0 {
        assert(c1 & mb != 0) by (bit_vector)
            requires
                (cat & !be) & mb != 0,
                c1 == cat || c1 == cat & !be,
        ;
        assert(c2 & bb == 0) by (bit_vector)
            requires
                c2 == c1 & !bb,
        ;
        lemma_within_keeps_clear(r, c2, bb);
    }
    if (cat & !be & !bb) & mf != 0 {
        let c3 = clear_if(c2, cat_has(c2, mf), mf);
        assert(c2 & mf != 0) by (bit_vector)
            requires
                (cat & !be & !bb) & mf != 0,
                c1 == cat || c1 == cat & !be,
                c2 == c1 || c2 == c1 & !bb,
        ;
        assert(c3 & bf == 0) by (bit_vector)
            requires
                c3 == c2 & !bf,
        ;
        lemma_within_keeps_clear(r, c3, bf);
    }
}

/// During an aerial or on the ledge, both the air dodge and the spot dodge
/// lose the bits that their flags name; in damage reaction the same holds
/// whenever a dodge bit survives the spot-dodge and roll clears.
pub proof fn lemma_command_fix_drops_dodges(cat: i32, ctx: CommandCatContext, c: GameConsts)
    ensures
        ({
            let f = c.cmd;
            let (be, bb, bf) = (command_bit(f.cat1_escape), command_bit(f.cat1_escape_b), command_bit(
                f.cat1_escape_f,
            ));
            let r = fixed_command_cat(cat, 0, ctx, c);
            let dropped = r & command_bit(f.cat1_air_escape) == 0 && r & be == 0;
            &&& ctx.status_kind == c.status.attack_air || ctx.situation_kind == c.situation.cliff ==> dropped
            &&& ctx.in_damage_reaction && (cat & !be & !bb & !bf) & (f.cat1_air_escape | f.cat1_escape) != 0
                ==> dropped
        }),
{
    let f = c.cmd;
    let (be, bb, bf, ba) = (command_bit(f.cat1_escape), command_bit(f.cat1_escape_b), command_bit(f.cat1_escape_f), command_bit(f.cat1_air_escape));
    let (ma, me, mb, mf) = (f.cat1_air_escape, f.cat1_escape, f.cat1_escape_b, f.cat1_escape_f);
    let c1 = clear_if(cat, cat_has(cat, me) && ctx.prev_status_kind != c.status.landing, me);
    let c2 = clear_if(c1, cat_has(c1, mb), mb);
    let c3 = clear_if(c2, cat_has(c2, mf), mf);
    let r = fixed_command_cat(cat, 0, ctx, c);
    assert((c3 & !ba) & !be & ba == 0 && (c3 & !ba) & !be & be == 0) by (bit_vector);
    if ctx.in_damage_reaction && (cat & !be & !bb & !bf) & (ma | me) != 0 {
        assert(c3 & ma != 0 || c3 & me != 0) by (bit_vector)
            requires
                (cat & !be & !bb & !bf) & (ma | me) != 0,
                c1 == cat || c1 == cat & !be,
                c2 == c1 || c2 == c1 & !bb,
                c3 == c2 || c3 == c2 & !bf,
        ;
    }
}

} // verus!
