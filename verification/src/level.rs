//! Severity levels and their fixed tag table.
//!
//! The host tracing facility supplies a five-valued severity enumeration.
//! Each level maps to a fixed (suffix, icon) pair used by the builder's
//! level shortcut and by the level-to-tag conversion.

use vstd::prelude::*;

verus! {

/// A severity level for an event record.
///
/// This is the closed five-valued enumeration consumed by
/// [`crate::tag::Builder::set_level`] and by `Tag::from`.
#[derive(Clone, Copy, Debug, Hash, PartialEq, Eq, Structural)]
pub enum Level {
    /// The "trace" severity, the lowest.
    Trace,
    /// The "debug" severity.
    Debug,
    /// The "info" severity.
    Info,
    /// The "warn" severity.
    Warn,
    /// The "error" severity, the highest.
    Error,
}

/// The suffix that the fixed table assigns to each severity level.
pub open spec fn spec_level_suffix(level: Level) -> Seq<char> {
    match level {
        Level::Trace => "trace"@,
        Level::Debug => "debug"@,
        Level::Info => "info"@,
        Level::Warn => "warn"@,
        Level::Error => "error"@,
    }
}

/// The icon that the fixed table assigns to each severity level.
pub open spec fn spec_level_icon(level: Level) -> char {
    match level {
        Level::Trace => '📍',
        Level::Debug => '🐛',
        Level::Info => 'ｉ',
        Level::Warn => '🚧',
        Level::Error => '🚨',
    }
}

} // verus!
