use vstd::prelude::*;

pub mod text;
pub mod types;
pub mod policy;
pub mod source;
pub mod glob;
pub mod matcher;
pub mod errors;
pub mod anticheat;
pub mod dto;
pub mod vulkan;
pub mod service;
pub mod host_policy;
pub mod record;
pub mod reshade;
pub mod dlss_fix;
pub mod install_plan;
pub mod dlss_fix_binding;
pub mod tool;
pub mod manifest;
pub mod peer_effects;
pub mod active_install;
pub mod active_update;
pub mod uninstall;
pub mod uninstall_plan;
pub mod game_participants;

verus! {
} // verus!
