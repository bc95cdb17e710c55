//! A minimal read-only view of an incoming event record.
//!
//! The host tracing facility hands classifiers an opaque structured record;
//! all this crate ever reads from it is a target string and a severity
//! level, so those two fields are what [`Event`] carries. An adapter around
//! the library converts the host facility's record into this type.

use crate::level::Level;
use vstd::prelude::*;

verus! {

/// The part of an incoming event record that classification reads:
/// a target string and a severity level.
#[derive(Clone, Copy, Debug)]
pub struct Event {
    target: &'static str,
    level: Level,
}

impl Event {
    /// The target string, as a sequence of characters.
    pub closed spec fn spec_target(&self) -> Seq<char> {
        self.target@
    }

    /// The severity level.
    pub closed spec fn spec_level(&self) -> Level {
        self.level
    }

    /// Bundle a target and a level into an event record.
    pub fn new(target: &'static str, level: Level) -> (e: Event)
        ensures
            e.spec_target() == target@,
            e.spec_level() == level,
    {
        Event { target, level }
    }

    /// Returns the target string.
    pub fn target(&self) -> (t: &'static str)
        ensures
            t@ == self.spec_target(),
    {
        self.target
    }

    /// Returns the severity level.
    pub fn level(&self) -> (l: Level)
        ensures
            l == self.spec_level(),
    {
        self.level
    }
}

} // verus!
