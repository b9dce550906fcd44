//! Errors reported when a gamepad configuration is rejected at construction.
use vstd::prelude::*;

verus! {

/// Why a requested gamepad configuration was rejected. All of these are
/// detected before the OS-level device is created; a configuration that
/// passes is safe to register as declared.
#[derive(Clone, Copy, PartialEq, Eq, Structural, Debug)]
pub enum ConfigError {
    /// Two axis mapping entries share the same (key, value) pair.
    DuplicateAxisMapping,
    /// Two key mapping entries share the same physical key.
    DuplicateKeyMapping,
    /// An axis capability's minimum is not strictly below its maximum.
    InvalidAxisRange,
    /// An axis capability's neutral position lies outside its range.
    NeutralOutOfRange,
    /// Two axis capabilities declare the same axis identifier.
    DuplicateAxisCapability,
    /// An axis mapping entry targets an axis that no capability declares.
    UnmappedAxis,
    /// An axis mapping entry's position lies outside the declared range.
    PositionOutOfRange,
    /// A release entry does not return its axis to the neutral position.
    ReleaseNotNeutral,
    /// A key mapping entry targets a button that is not declared.
    UnknownButtonTarget,
}

} // verus!
