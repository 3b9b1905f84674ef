//! The library's service error and the RenoDX error constructors.
use vstd::prelude::*;

use crate::types::ReshadeChannel;

verus! {

/// An error returned to the caller of a RenoDX service operation.
#[derive(Clone, Debug)]
pub enum ServiceError {
    /// The request cannot be honoured in the current state.
    InvalidInput(String),
    /// An operation failed.
    Failed(String),
}

/// Whether `e` is an invalid-input error carrying exactly `msg`.
pub open spec fn invalid_with(e: ServiceError, msg: Seq<char>) -> bool {
    match e {
        ServiceError::InvalidInput(m) => m@ == msg,
        _ => false,
    }
}

/// An invalid-input error with the given message.
pub fn invalid(message: &str) -> (r: ServiceError)
    ensures
        invalid_with(r, message@),
{
    ServiceError::InvalidInput(String::from_str(message))
}

/// An operation-failed error with the given message.
pub fn failed(message: &str) -> (r: ServiceError)
    ensures
        r matches ServiceError::Failed(m) && m@ == message@,
{
    ServiceError::Failed(String::from_str(message))
}

/// The install record carries more than one ReShade host entry.
pub fn duplicate_host_sources() -> (r: ServiceError)
    ensures
        invalid_with(r, "RenoDX install record has multiple ReShade host sources"@),
{
    invalid("RenoDX install record has multiple ReShade host sources")
}

/// No RenoDX install is on record for the game.
pub fn not_installed() -> (r: ServiceError)
    ensures
        invalid_with(r, "RenoDX is not installed for this game"@),
{
    invalid("RenoDX is not installed for this game")
}

/// Install state drifted while the network preparation ran unlocked.
pub fn state_changed_retry_install() -> (r: ServiceError)
    ensures
        invalid_with(r, "RenoDX install state changed during preparation; retry the install"@),
{
    invalid("RenoDX install state changed during preparation; retry the install")
}

/// Update state drifted while the network preparation ran unlocked.
pub fn state_changed_retry_update() -> (r: ServiceError)
    ensures
        invalid_with(
            r,
            "RenoDX install state changed during update preparation; retry the update"@,
        ),
{
    invalid("RenoDX install state changed during update preparation; retry the update")
}

/// The catalogue has no ReShade source for the requested channel.
pub fn channel_unavailable(channel: ReshadeChannel) -> (r: ServiceError)
    ensures
        invalid_with(
            r,
            "no ReShade "@ + crate::types::reshade_channel_key(channel)
                + " source is available in the manifest"@,
        ),
{
    let msg = String::from_str("no ReShade ").concat(channel.as_str()).concat(
        " source is available in the manifest",
    );
    ServiceError::InvalidInput(msg)
}

/// Shared Vulkan layer management is Windows-only.
pub fn vulkan_unsupported_platform() -> (r: ServiceError)
    ensures
        invalid_with(r, "RenoDX for Vulkan games is only supported on Windows"@),
{
    invalid("RenoDX for Vulkan games is only supported on Windows")
}

/// A shared Vulkan layer conflict that blocks the named operation.
pub fn vulkan_layer_conflict(operation: &str) -> (r: ServiceError)
    ensures
        invalid_with(
            r,
            "shared Vulkan layer conflict must be resolved before "@ + operation@ + " RenoDX"@,
        ),
{
    let msg = String::from_str("shared Vulkan layer conflict must be resolved before ").concat(
        operation,
    ).concat(" RenoDX");
    ServiceError::InvalidInput(msg)
}

} // verus!
