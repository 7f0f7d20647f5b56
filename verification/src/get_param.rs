use vstd::prelude::*;

verus! {

/// Hashes of the parameter names that the override looks for.
#[derive(Clone, Copy)]
pub struct ParamHashes {
    /// The `param_motion` table.
    pub param_motion: u64,
    /// The landing lag after a directional air dodge.
    pub landing_frame_escape_air_slide_max: u64,
}

/// Landing lag of a directional air dodge that travelled some distance.
pub const LANDING_LAG_DISTANCED_AIR_DODGE: u32 = 20;
/// Landing lag of a directional air dodge into the ground (a wavedash).
pub const LANDING_LAG_WAVEDASH: u32 = 10;

/// The overridden value of a float parameter, if any: the landing lag of a
/// directional air dodge is short for a wavedash and long once the dodge is
/// past its eighth frame.
pub fn get_param_float_middle(param_type: u64, param_hash: u64, past_frame_8: bool, h: &ParamHashes) -> (r: Option<
    u32,
>)
    ensures
        r == (if param_hash != 0 && param_type == h.param_motion && param_hash
            == h.landing_frame_escape_air_slide_max {
            Some(if past_frame_8 { LANDING_LAG_DISTANCED_AIR_DODGE } else { LANDING_LAG_WAVEDASH })
        } else {
            None
        }),
        r matches Some(lag) ==> lag == (if past_frame_8 { 20u32 } else { 10u32 }),
{
    if param_hash == 0 {
        None
    } else if param_type == h.param_motion {
        if param_hash == h.landing_frame_escape_air_slide_max {
            if past_frame_8 {
                return Some(LANDING_LAG_DISTANCED_AIR_DODGE);
            }
            return Some(LANDING_LAG_WAVEDASH);
        }
        None
    } else {
        None
    }
}

} // verus!
