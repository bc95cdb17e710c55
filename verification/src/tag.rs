//! Supplement event records with categorical information.
//!
//! A [`Tag`] distinguishes kinds of trace data — requests, internal state,
//! special operations — without overloading severity level. Every tag has a
//! label (its suffix) and an icon; it may also carry a namespace prefix.
//!
//! Tags are built through [`Builder`], a staged construction protocol: the
//! builder's type records which required fields have been provided, and
//! [`Builder::finish`] exists only on the shape where both the suffix and
//! the icon are set. A partially-specified tag is therefore unrepresentable.

use crate::event::Event;
use crate::level::{spec_level_icon, spec_level_suffix, Level};
use vstd::prelude::*;
use vstd::std_specs::convert::FromSpec;
use vstd::string::StringExecFns;

verus! {

/// The mathematical value of a [`Tag`]: an optional prefix, a suffix and an
/// icon, with the strings abstracted to character sequences.
#[verifier::ext_equal]
pub struct TagView {
    /// The optional namespace prefix.
    pub prefix: Option<Seq<char>>,
    /// The required label.
    pub suffix: Seq<char>,
    /// The required icon.
    pub icon: char,
}

impl TagView {
    /// The canonical display form: `prefix.suffix` when a prefix is
    /// present, plain `suffix` otherwise.
    pub open spec fn render(self) -> Seq<char> {
        match self.prefix {
            Some(p) => p + seq!['.'] + self.suffix,
            None => self.suffix,
        }
    }
}

/// A basic `Copy` type containing information about where an event occurred.
///
/// Every finished tag has a suffix and an icon; the prefix may be absent.
/// See the [module-level documentation](self) for more details.
#[derive(Debug, Clone, Copy, Hash, PartialEq, Eq)]
pub struct Tag {
    /// Optional prefix for the tag message.
    prefix: Option<&'static str>,

    /// Label specifying the kind of the event.
    ///
    /// This value isn't necessarily "trace", "debug", "info", "warn", or
    /// "error", and can be customized.
    suffix: &'static str,

    /// An icon, typically an emoji, that represents the tag.
    icon: char,
}

impl View for Tag {
    type V = TagView;

    closed spec fn view(&self) -> TagView {
        TagView {
            prefix: match self.prefix {
                Some(p) => Some(p@),
                None => None,
            },
            suffix: self.suffix@,
            icon: self.icon,
        }
    }
}

impl Tag {
    /// Create a new [`Builder`] with no prefix and neither required field set.
    pub fn builder() -> (b: Builder<Empty, Empty>)
        ensures
            b.spec_prefix() is None,
    {
        Builder { prefix: None, suffix: Empty(()), icon: Empty(()) }
    }

    /// Returns the prefix, if there is one.
    pub fn prefix(&self) -> (r: Option<&'static str>)
        ensures
            match r {
                Some(p) => self@.prefix == Some(p@),
                None => self@.prefix is None,
            },
    {
        self.prefix
    }

    /// Returns the suffix.
    pub fn suffix(&self) -> (r: &'static str)
        ensures
            r@ == self@.suffix,
    {
        self.suffix
    }

    /// Returns the icon.
    pub fn icon(&self) -> (c: char)
        ensures
            c == self@.icon,
    {
        self.icon
    }

    /// The canonical textual rendering: `"<prefix>.<suffix>"` when a prefix
    /// is present, `"<suffix>"` otherwise. This string is also the lossy
    /// serialized form of a tag.
    pub fn render(&self) -> (s: String)
        ensures
            s@ == self@.render(),
    {
        match self.prefix {
            Some(prefix) => {
                let mut s = String::from_str(prefix);
                s.append(".");
                s.append(self.suffix);
                proof {
                    reveal_strlit(".");
                    assert(s@ =~= self@.render());
                }
                s
            },
            None => String::from_str(self.suffix),
        }
    }
}

/// Incrementally construct [`Tag`]s.
///
/// This type uses generics to indicate when a field has been provided, so
/// that [`Builder::finish`] can only be called once all the required fields
/// have been provided.
#[derive(Copy, Clone)]
pub struct Builder<S, I> {
    prefix: Option<&'static str>,
    suffix: S,
    icon: I,
}

/// A type used by [`Builder`] to indicate that a field hasn't been set.
#[derive(Copy, Clone)]
pub struct Empty(());

/// A type used by [`Builder`] to indicate that the suffix has been set.
#[derive(Copy, Clone)]
pub struct Suffix(&'static str);

impl Suffix {
    /// The suffix that was set, as a sequence of characters.
    pub closed spec fn spec_str(self) -> Seq<char> {
        self.0@
    }
}

/// A type used by [`Builder`] to indicate that the icon has been set.
#[derive(Copy, Clone)]
pub struct Icon(char);

impl Icon {
    /// The icon that was set.
    pub closed spec fn spec_char(self) -> char {
        self.0
    }
}

impl<S, I> Builder<S, I> {
    /// The prefix accumulated so far, as a sequence of characters.
    pub closed spec fn spec_prefix(self) -> Option<Seq<char>> {
        match self.prefix {
            Some(p) => Some(p@),
            None => None,
        }
    }

    /// The suffix slot: [`Empty`] or [`Suffix`].
    pub closed spec fn spec_suffix(self) -> S {
        self.suffix
    }

    /// The icon slot: [`Empty`] or [`Icon`].
    pub closed spec fn spec_icon(self) -> I {
        self.icon
    }

    /// Set the prefix. A later call overwrites an earlier one.
    pub fn set_prefix(self, prefix: &'static str) -> (b: Builder<S, I>)
        ensures
            b.spec_prefix() == Some(prefix@),
            b.spec_suffix() == self.spec_suffix(),
            b.spec_icon() == self.spec_icon(),
    {
        Builder { prefix: Some(prefix), suffix: self.suffix, icon: self.icon }
    }

    /// Set the suffix. A later call overwrites an earlier one.
    pub fn set_suffix(self, suffix: &'static str) -> (b: Builder<Suffix, I>)
        ensures
            b.spec_prefix() == self.spec_prefix(),
            b.spec_suffix().spec_str() == suffix@,
            b.spec_icon() == self.spec_icon(),
    {
        Builder { prefix: self.prefix, suffix: Suffix(suffix), icon: self.icon }
    }

    /// Set the icon. A later call overwrites an earlier one.
    pub fn set_icon(self, icon: char) -> (b: Builder<S, Icon>)
        ensures
            b.spec_prefix() == self.spec_prefix(),
            b.spec_suffix() == self.spec_suffix(),
            b.spec_icon().spec_char() == icon,
    {
        Builder { prefix: self.prefix, suffix: self.suffix, icon: Icon(icon) }
    }

    /// Set the suffix and icon using the fixed table entry for `level`.
    ///
    /// If the tag won't have a prefix, then `Tag::from(level)` can be used
    /// as a shorter alternative.
    pub fn set_level(self, level: Level) -> (b: Builder<Suffix, Icon>)
        ensures
            b.spec_prefix() == self.spec_prefix(),
            b.spec_suffix().spec_str() == spec_level_suffix(level),
            b.spec_icon().spec_char() == spec_level_icon(level),
    {
        let (suffix, icon): (&'static str, char) = match level {
            Level::Trace => ("trace", '📍'),
            Level::Debug => ("debug", '🐛'),
            Level::Info => ("info", 'ｉ'),
            Level::Warn => ("warn", '🚧'),
            Level::Error => ("error", '🚨'),
        };
        Builder { prefix: self.prefix, suffix: Suffix(suffix), icon: Icon(icon) }
    }
}

impl Builder<Suffix, Icon> {
    /// Finish building a [`Tag`] from the accumulated fields.
    ///
    /// Note that this can only be called once the suffix and icon have been
    /// provided: only this shape of the builder has a finishing operation.
    pub fn finish(self) -> (t: Tag)
        ensures
            t@.prefix == self.spec_prefix(),
            t@.suffix == self.spec_suffix().spec_str(),
            t@.icon == self.spec_icon().spec_char(),
    {
        Tag { prefix: self.prefix, suffix: self.suffix.0, icon: self.icon.0 }
    }
}

impl From<Level> for Tag {
    /// Convert a severity level into its fixed table entry, with no prefix.
    fn from(level: Level) -> (t: Tag) {
        match level {
            Level::Trace => Tag { prefix: None, suffix: "trace", icon: '📍' },
            Level::Debug => Tag { prefix: None, suffix: "debug", icon: '🐛' },
            Level::Info => Tag { prefix: None, suffix: "info", icon: 'ｉ' },
            Level::Warn => Tag { prefix: None, suffix: "warn", icon: '🚧' },
            Level::Error => Tag { prefix: None, suffix: "error", icon: '🚨' },
        }
    }
}

impl vstd::std_specs::convert::FromSpecImpl<Level> for Tag {
    closed spec fn obeys_from_spec() -> bool {
        true
    }

    closed spec fn from_spec(level: Level) -> Tag {
        match level {
            Level::Trace => Tag { prefix: None, suffix: "trace", icon: '📍' },
            Level::Debug => Tag { prefix: None, suffix: "debug", icon: '🐛' },
            Level::Info => Tag { prefix: None, suffix: "info", icon: 'ｉ' },
            Level::Warn => Tag { prefix: None, suffix: "warn", icon: '🚧' },
            Level::Error => Tag { prefix: None, suffix: "error", icon: '🚨' },
        }
    }
}

/// Law: for every severity level, the tag that `Tag::from` returns is
/// exactly the fixed table entry with no prefix — the same value, field for
/// field, as `Tag::builder().set_level(level).finish()` produces by the
/// contracts of [`Tag::builder`], [`Builder::set_level`] and
/// [`Builder::finish`].
pub proof fn lemma_from_level_is_table_entry(level: Level)
    ensures
        <Tag as FromSpec<Level>>::obeys_from_spec(),
        (<Tag as FromSpec<Level>>::from_spec(level))@ == (TagView {
            prefix: None,
            suffix: spec_level_suffix(level),
            icon: spec_level_icon(level),
        }),
{
    let t = <Tag as FromSpec<Level>>::from_spec(level);
    assert(t@ =~= TagView {
        prefix: None,
        suffix: spec_level_suffix(level),
        icon: spec_level_icon(level),
    });
}

/// A type that can parse [`Tag`]s from incoming event records.
///
/// The capability is intentionally minimal: one method mapping an event to
/// zero or one tag. Absence of a tag is a normal outcome, not a failure,
/// and the event is taken by shared reference, so it is never mutated.
///
/// This trait is blanket-implemented for all
/// `Fn(&Event) -> Option<Tag>`, so top-level `fn`s can be used.
pub trait TagParser: 'static {
    /// When a call to [`Self::parse`] is permitted on `event`.
    spec fn parse_req(&self, event: &Event) -> bool;

    /// What holds of the result of [`Self::parse`] on `event`.
    spec fn parse_ens(&self, event: &Event, r: Option<Tag>) -> bool;

    /// Parse a tag from an event record.
    fn parse(&self, event: &Event) -> (r: Option<Tag>)
        requires
            self.parse_req(event),
        ensures
            self.parse_ens(event, r),
    ;
}

/// A [`TagParser`] that always returns `None`.
#[derive(Clone, Debug)]
pub struct NoTag;

impl TagParser for NoTag {
    /// Parsing with [`NoTag`] is permitted on every event.
    open spec fn parse_req(&self, event: &Event) -> bool {
        true
    }

    /// Law: the no-op classifier returns no tag, whatever the event.
    open spec fn parse_ens(&self, event: &Event, r: Option<Tag>) -> bool {
        r is None
    }

    fn parse(&self, event: &Event) -> (r: Option<Tag>) {
        None
    }
}

impl<F> TagParser for F where F: 'static + Fn(&Event) -> Option<Tag> {
    /// A callable is usable as a classifier wherever its own precondition
    /// admits the event.
    open spec fn parse_req(&self, event: &Event) -> bool {
        call_requires(*self, (event,))
    }

    /// The callable's own postcondition is all that is promised of the
    /// result.
    open spec fn parse_ens(&self, event: &Event, r: Option<Tag>) -> bool {
        call_ensures(*self, (event,), r)
    }

    fn parse(&self, event: &Event) -> (r: Option<Tag>) {
        self(event)
    }
}

} // verus!
