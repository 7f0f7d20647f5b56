use vstd::prelude::*;

use crate::game_consts::{is_one_of, GameConsts};

verus! {

// Status ids, as numbers, in which fighters never slip off edges.
pub const STATUS_ID_AIR_DODGE: i32 = 0x22;
pub const STATUS_ID_LANDING: i32 = 0x16;
pub const STATUS_ID_RUN_BRAKE: i32 = 0x5;
pub const STATUS_ID_TURN_DASH: i32 = 0x7;
pub const STATUS_ID_DASH: i32 = 0x3;

pub open spec fn no_slip_off_statuses() -> Seq<i32> {
    seq![STATUS_ID_AIR_DODGE, STATUS_ID_LANDING, STATUS_ID_RUN_BRAKE, STATUS_ID_TURN_DASH, STATUS_ID_DASH]
}

/// Fighters never slip off in status ids 0x22 (air dodge), 0x16 (landing),
/// 0x5 (run brake), 0x7 (turn dash) and 0x3 (dash).
pub proof fn lemma_no_slip_off_statuses(x: i32)
    ensures
        no_slip_off_statuses().contains(x) <==> (x == 0x22 || x == 0x16 || x == 0x5 || x == 0x7 || x == 0x3),
{
    let q = no_slip_off_statuses();
    assert(q[0] == 0x22);
    assert(q[1] == 0x16);
    assert(q[2] == 0x5);
    assert(q[3] == 0x7);
    assert(q[4] == 0x3);
    if q.contains(x) {
        let i = choose|i: int| 0 <= i < 5 && q[i] == x;
    }
}

/// The ground correction kind that a battle object gets when the game asks
/// for `requested`: fighters air dodging, landing, braking or dashing are kept
/// on the ground instead of slipping off the edge.
pub fn correct_hook(battle_object_category: i32, status_kind: i32, requested: u64, c: &GameConsts) -> (r: u64)
    ensures
        r == (if battle_object_category == c.battle_object_category_fighter && no_slip_off_statuses().contains(
            status_kind,
        ) {
            c.ground_correct_kind_ground as u64
        } else {
            requested
        }),
{
    if battle_object_category == c.battle_object_category_fighter {
        let statuses = [STATUS_ID_AIR_DODGE, STATUS_ID_LANDING, STATUS_ID_RUN_BRAKE, STATUS_ID_TURN_DASH, STATUS_ID_DASH];
        assert(statuses@ =~= no_slip_off_statuses());
        if is_one_of(&statuses, status_kind) {
            return c.ground_correct_kind_ground as u64;
        }
    }
    requested
}

} // verus!
