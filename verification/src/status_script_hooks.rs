use vstd::prelude::*;

verus! {

/// What the air-dodge magnet check does.
#[derive(Clone, Copy, PartialEq, Eq, Structural, Debug)]
pub enum SnapAction {
    /// Zero the magnet countdown and arm the magnet now.
    ArmNow,
    /// Count the magnet countdown down, and arm the magnet when it runs out.
    CountDown,
    /// Leave the magnet as it is.
    Nothing,
}

/// The air-dodge magnet check: armed at once when asked, otherwise counted
/// down while it is not armed yet.
pub fn sub_air_check_escape_air_snap(immediate: bool, magnet_enabled: bool) -> (r: SnapAction)
    ensures
        r == (if immediate {
            SnapAction::ArmNow
        } else if !magnet_enabled {
            SnapAction::CountDown
        } else {
            SnapAction::Nothing
        }),
{
    if immediate {
        SnapAction::ArmNow
    } else if !magnet_enabled {
        SnapAction::CountDown
    } else {
        SnapAction::Nothing
    }
}

} // verus!
