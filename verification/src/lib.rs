//! Gameplay rules of a fighting-game plugin: buffered-input filtering,
//! environment-collision box shifts, jump-squat transitions, momentum
//! bookkeeping and cancel windows, written as decisions over plain values.
//!
//! The game's constants are only known at run time, so every rule takes them
//! in a `GameConsts` table; float quantities (frames, speeds, stick
//! positions) stay with the caller, which hands in the comparisons that the
//! rules need and applies the decisions.
use vstd::prelude::*;

pub mod cmd_flags;
pub mod ecbs;
pub mod edge_slipoffs;
pub mod game_consts;
pub mod get_command_flag_cat;
pub mod get_param;
pub mod init_settings;
pub mod jumpsquat;
pub mod momentum_transfer;
pub mod momentum_transfer_line;
pub mod moveset_utils;
pub mod status_script_hooks;
pub mod sys_line;

verus! {
}
