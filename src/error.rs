use vstd::prelude::*;

verus! {

/// Failures of a registry lookup.
#[derive(Debug, Clone, PartialEq, Eq, Structural)]
pub enum RegistryError {
    /// The id is unknown, or its entry has been released.
    InvalidHandle,
    /// The entry's guard was left inconsistent by an earlier failure.
    LockUnavailable,
}

/// The single error shape that crosses the boundary.
#[derive(Debug, Clone, PartialEq, Eq)]
pub enum BridgeError {
    InvalidHandle,
    MalformedHandle,
    MalformedArgument,
    /// The wrapped engine failed; carries the engine's own detail.
    EngineError(String),
    LockUnavailable,
}

/// What a registry failure becomes at the boundary.
pub open spec fn translated(e: RegistryError) -> BridgeError {
    match e {
        RegistryError::InvalidHandle => BridgeError::InvalidHandle,
        RegistryError::LockUnavailable => BridgeError::LockUnavailable,
    }
}

/// Maps a registry failure onto the boundary error of the same kind.
pub fn translate(e: RegistryError) -> (r: BridgeError)
    ensures
        r == translated(e),
{
    match e {
        RegistryError::InvalidHandle => BridgeError::InvalidHandle,
        RegistryError::LockUnavailable => BridgeError::LockUnavailable,
    }
}

} // verus!
