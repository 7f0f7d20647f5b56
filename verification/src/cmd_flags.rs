use vstd::prelude::*;

verus! {

/// The single bit that `clear_buffered_action` removes for the command
/// number `cmd`.
///
/// The shift `1 << cmd` of the plugin is built without overflow checks, so a
/// shift amount outside `0..32` is taken modulo 32: for a command number that
/// is itself a flag mask of 32 or more, this is not the bit of that mask.
pub open spec fn command_bit(cmd: i32) -> i32 {
    1i32 << ((cmd & 31) as i32)
}

/// `cat` holds at least one of the bits of `flag`.
pub open spec fn cat_has(cat: i32, flag: i32) -> bool {
    cat & flag != 0
}

/// Every bit of `a` is also a bit of `b`.
pub open spec fn bits_within(a: i32, b: i32) -> bool {
    a & !b == 0
}

/// Whether the command category `cat` holds any bit of `fighter_pad_cmd_flag`.
pub fn compare_cat(cat: i32, fighter_pad_cmd_flag: i32) -> (r: bool)
    ensures
        r == cat_has(cat, fighter_pad_cmd_flag),
{
    (cat & fighter_pad_cmd_flag) != 0
}

/// Adds the bits of `cmd` to the buffered commands `flag`.
pub fn add_buffered_action(flag: i32, cmd: i32) -> (r: i32)
    ensures
        r == flag | cmd,
{
    flag | cmd
}

/// Removes the bit numbered `cmd` (modulo 32, see `command_bit`) from the
/// buffered commands `flag`.
pub fn clear_buffered_action(flag: i32, cmd: i32) -> (r: i32)
    ensures
        r == flag & !command_bit(cmd),
{
    let shift: i32 = cmd & 31;
    assert(0 <= shift < 32) by (bit_vector)
        requires
            shift == cmd & 31,
    ;
    flag & !(1i32 << shift)
}

/// The command numbered `cmd` within `0..32` is the bit `1 << cmd`; other
/// numbers wrap around modulo 32.
pub proof fn lemma_command_bit_numbering(cmd: i32)
    ensures
        0 <= cmd < 32 ==> command_bit(cmd) == 1i32 << cmd,
        command_bit(cmd) == command_bit(cmd & 31),
{
    let s: i32 = cmd & 31;
    assert(0 <= s < 32) by (bit_vector)
        requires
            s == cmd & 31,
    ;
    assert(0 <= cmd < 32 ==> s == cmd) by (bit_vector)
        requires
            s == cmd & 31,
    ;
    assert(s & 31 == s) by (bit_vector)
        requires
            s == cmd & 31,
    ;
}

/// Clearing a command leaves its bit unset and every other bit as it was.
pub proof fn lemma_clear_removes_only_its_bit(flag: i32, cmd: i32, other: i32)
    requires
        other & command_bit(cmd) == 0,
    ensures
        !cat_has(flag & !command_bit(cmd), command_bit(cmd)),
        (flag & !command_bit(cmd)) & other == flag & other,
        bits_within(flag & !command_bit(cmd), flag),
{
    let b: i32 = command_bit(cmd);
    assert(!((flag & !b) & b != 0)) by (bit_vector);
    assert((flag & !b) & other == flag & other) by (bit_vector)
        requires
            other & b == 0,
    ;
    assert((flag & !b) & !flag == 0) by (bit_vector);
}

/// Clearing the same command twice is the same as clearing it once.
pub proof fn lemma_clear_idempotent(flag: i32, cmd: i32)
    ensures
        (flag & !command_bit(cmd)) & !command_bit(cmd) == flag & !command_bit(cmd),
{
    let b: i32 = command_bit(cmd);
    assert((flag & !b) & !b == flag & !b) by (bit_vector);
}

/// Clearing a command undoes adding its bit.
pub proof fn lemma_clear_undoes_add(flag: i32, cmd: i32)
    ensures
        (flag | command_bit(cmd)) & !command_bit(cmd) == flag & !command_bit(cmd),
{
    let b: i32 = command_bit(cmd);
    assert((flag | b) & !b == flag & !b) by (bit_vector);
}

/// An added command is found again by `compare_cat`, whenever it has a bit.
pub proof fn lemma_add_then_compare(flag: i32, cmd: i32)
    ensures
        cat_has(flag | cmd, cmd) <==> cmd != 0,
        bits_within(flag, flag | cmd),
{
    assert(((flag | cmd) & cmd != 0) <==> cmd != 0) by (bit_vector);
    assert(flag & !(flag | cmd) == 0) by (bit_vector);
}

/// `compare_cat` does not depend on the order of its arguments.
pub proof fn lemma_compare_cat_symmetric(a: i32, b: i32)
    ensures
        cat_has(a, b) == cat_has(b, a),
{
    assert((a & b != 0) == (b & a != 0)) by (bit_vector);
}

/// Being a bit subset is transitive.
pub proof fn lemma_bits_within_trans(a: i32, b: i32, c: i32)
    requires
        bits_within(a, b),
        bits_within(b, c),
    ensures
        bits_within(a, c),
{
    assert(a & !c == 0) by (bit_vector)
        requires
            a & !b == 0,
            b & !c == 0,
    ;
}

} // verus!
