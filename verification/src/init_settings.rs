use vstd::prelude::*;

use crate::game_consts::GameConsts;

verus! {

/// Which jostle teams a battle object is put on when its status starts.
#[derive(Clone, Copy, PartialEq, Eq, Structural, Debug)]
pub enum JostlePlan {
    /// Not a fighter: left alone.
    Leave,
    /// Put on team 0.
    Team0,
    /// Put on team 0, then on team 1.
    Team0ThenTeam1,
}

/// The jostle team of a battle object as its status starts: every fighter
/// joins team 0, and Terry's super special moves him on to team 1.
pub fn init_settings_hook(battle_object_category: i32, fighter_kind: i32, status_kind: i32, c: &GameConsts) -> (r:
    JostlePlan)
    ensures
        r == (if battle_object_category != c.battle_object_category_fighter {
            JostlePlan::Leave
        } else if fighter_kind == c.fighter.dolly && status_kind == c.status.dolly_super_special {
            JostlePlan::Team0ThenTeam1
        } else {
            JostlePlan::Team0
        }),
{
    if battle_object_category == c.battle_object_category_fighter {
        if fighter_kind == c.fighter.dolly && status_kind == c.status.dolly_super_special {
            return JostlePlan::Team0ThenTeam1;
        }
        return JostlePlan::Team0;
    }
    JostlePlan::Leave
}

} // verus!
