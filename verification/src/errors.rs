//! Error taxonomy of the configuration and persisted-state core.

use vstd::prelude::*;

verus! {

/// A configuration load failure.  Any such failure aborts the whole load: no
/// partial configuration ever escapes.
#[derive(Debug, Clone)]
pub enum ConfigError {
    /// A value failed to parse (an invalid URL, an invalid user id).
    SyntaxError(String),
    /// A field that the enabled features require is absent; carries the
    /// field's name.
    MissingRequiredField(String),
    /// Two sections contradict each other (repos configured without a token,
    /// matchers configured against an empty URL map).
    InconsistentFeatureConfiguration(String),
    /// A group-ping member used the reserved name.
    ReservedNameUsed,
    /// A group-ping alias referenced a group that does not exist; carries the
    /// missing group's name.
    UnresolvedAliasReference(String),
}

/// A persisted-state failure.  Loading distinguishes a record that has never
/// existed (recovered silently by establishing a default) from one that
/// cannot be read; saving distinguishes a serialization invariant violation
/// from a plain write failure.
#[derive(Debug, Clone)]
pub enum StateError {
    /// The backing record exists but this process may not open it.
    AccessDenied,
    /// The backing record exists but its content does not parse; corrupt
    /// state is never silently replaced with a default.
    CorruptPersistedState,
    /// An in-memory value failed to serialize; unreachable in practice but
    /// still surfaced as a typed error.
    SerializationInvariantViolation,
    /// Any other I/O failure while opening, reading or writing the record.
    Io,
}

} // verus!
