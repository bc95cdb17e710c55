//! Categorical annotations ("tags") for structured event records.
//!
//! A [`tag::Tag`] is an immutable value with a required label (its suffix), a
//! required glyph (its icon), and an optional namespace prefix. Tags are
//! produced through a staged construction protocol ([`tag::Builder`]) whose
//! type changes with each step, so that a tag can never exist with a missing
//! label or icon. A pluggable classification capability ([`tag::TagParser`])
//! maps an incoming event record to at most one tag.

pub mod event;
pub mod level;
pub mod protocol;
pub mod tag;
