//! A mathematical model of the staged construction protocol.
//!
//! The builder in [`crate::tag`] encodes its progress in its type, so the
//! guarantee "a finishing call is only reachable once both required fields
//! are set, and each field holds the last value written to it" is spread
//! over the contracts of the individual steps. This module states that
//! guarantee in one place, over a state machine whose transitions are
//! exactly the ones those contracts describe: [`apply`] mirrors what each
//! builder step ensures about the prefix, suffix and icon it accumulates.

use crate::level::{spec_level_icon, spec_level_suffix, Level};
use vstd::prelude::*;

verus! {

/// The accumulated state of a construction run: for each field, the last
/// value written to it, or `None` when it has not been written yet.
#[verifier::ext_equal]
pub struct BuilderModel {
    /// The last prefix written.
    pub prefix: Option<Seq<char>>,
    /// The last suffix written, directly or through a level.
    pub suffix: Option<Seq<char>>,
    /// The last icon written, directly or through a level.
    pub icon: Option<char>,
}

/// One call of the construction protocol.
pub enum Step {
    /// A call of `set_prefix` with the given text.
    SetPrefix(Seq<char>),
    /// A call of `set_suffix` with the given text.
    SetSuffix(Seq<char>),
    /// A call of `set_icon` with the given character.
    SetIcon(char),
    /// A call of `set_level` with the given severity level.
    SetLevel(Level),
}

/// The state a fresh builder starts in: nothing written.
pub open spec fn init() -> BuilderModel {
    BuilderModel { prefix: None, suffix: None, icon: None }
}

/// What one step does to the accumulated state. Each step overwrites the
/// fields it sets and carries every other field forward; the level step
/// writes the suffix and the icon at once, from the fixed table.
pub open spec fn apply(m: BuilderModel, step: Step) -> BuilderModel {
    match step {
        Step::SetPrefix(p) => BuilderModel { prefix: Some(p), suffix: m.suffix, icon: m.icon },
        Step::SetSuffix(s) => BuilderModel { prefix: m.prefix, suffix: Some(s), icon: m.icon },
        Step::SetIcon(c) => BuilderModel { prefix: m.prefix, suffix: m.suffix, icon: Some(c) },
        Step::SetLevel(l) => BuilderModel {
            prefix: m.prefix,
            suffix: Some(spec_level_suffix(l)),
            icon: Some(spec_level_icon(l)),
        },
    }
}

/// The state after a whole sequence of steps, first step first.
pub open spec fn apply_all(m: BuilderModel, steps: Seq<Step>) -> BuilderModel
    decreases steps.len(),
{
    if steps.len() == 0 {
        m
    } else {
        apply_all(apply(m, steps[0]), steps.drop_first())
    }
}

/// Whether a finishing call is available: both required fields written.
pub open spec fn finishable(m: BuilderModel) -> bool {
    m.suffix is Some && m.icon is Some
}

/// Whether every step of the sequence only sets the prefix.
pub open spec fn all_prefix_steps(steps: Seq<Step>) -> bool {
    forall|i: int| 0 <= i < steps.len() ==> (#[trigger] steps[i]) is SetPrefix
}

/// The last prefix that the sequence writes, or `start` when it writes none.
pub open spec fn last_prefix(start: Option<Seq<char>>, steps: Seq<Step>) -> Option<Seq<char>>
    decreases steps.len(),
{
    if steps.len() == 0 {
        start
    } else {
        last_prefix(
            match steps[0] {
                Step::SetPrefix(p) => Some(p),
                _ => start,
            },
            steps.drop_first(),
        )
    }
}

/// The last suffix that the sequence writes, directly or through a level,
/// or `start` when it writes none.
pub open spec fn last_suffix(start: Option<Seq<char>>, steps: Seq<Step>) -> Option<Seq<char>>
    decreases steps.len(),
{
    if steps.len() == 0 {
        start
    } else {
        last_suffix(
            match steps[0] {
                Step::SetSuffix(s) => Some(s),
                Step::SetLevel(l) => Some(spec_level_suffix(l)),
                _ => start,
            },
            steps.drop_first(),
        )
    }
}

/// The last icon that the sequence writes, directly or through a level,
/// or `start` when it writes none.
pub open spec fn last_icon(start: Option<char>, steps: Seq<Step>) -> Option<char>
    decreases steps.len(),
{
    if steps.len() == 0 {
        start
    } else {
        last_icon(
            match steps[0] {
                Step::SetIcon(c) => Some(c),
                Step::SetLevel(l) => Some(spec_level_icon(l)),
                _ => start,
            },
            steps.drop_first(),
        )
    }
}

/// Law: after any sequence of steps, every field of the accumulated state
/// equals the last value written to it, or its starting value when the
/// sequence wrote none. In particular no step ever clears a field.
pub proof fn lemma_fields_equal_last_written(m: BuilderModel, steps: Seq<Step>)
    ensures
        apply_all(m, steps).prefix == last_prefix(m.prefix, steps),
        apply_all(m, steps).suffix == last_suffix(m.suffix, steps),
        apply_all(m, steps).icon == last_icon(m.icon, steps),
    decreases steps.len(),
{
    if steps.len() > 0 {
        lemma_fields_equal_last_written(apply(m, steps[0]), steps.drop_first());
    }
}

/// Running a concatenated sequence is running its parts in order.
pub proof fn lemma_apply_all_concat(m: BuilderModel, a: Seq<Step>, b: Seq<Step>)
    ensures
        apply_all(m, a + b) == apply_all(apply_all(m, a), b),
    decreases a.len(),
{
    if a.len() == 0 {
        assert(a + b =~= b);
    } else {
        assert((a + b).drop_first() =~= a.drop_first() + b);
        assert((a + b)[0] == a[0]);
        lemma_apply_all_concat(apply(m, a[0]), a.drop_first(), b);
    }
}

/// A run of prefix settings writes neither a suffix nor an icon.
pub proof fn lemma_prefix_steps_write_no_requirement(
    suffix: Option<Seq<char>>,
    icon: Option<char>,
    steps: Seq<Step>,
)
    requires
        all_prefix_steps(steps),
    ensures
        last_suffix(suffix, steps) == suffix,
        last_icon(icon, steps) == icon,
    decreases steps.len(),
{
    if steps.len() > 0 {
        assert(all_prefix_steps(steps.drop_first())) by {
            assert(forall|i: int|
                0 <= i < steps.drop_first().len() ==> #[trigger] steps.drop_first()[i] == steps[i
                    + 1]);
        }
        lemma_prefix_steps_write_no_requirement(suffix, icon, steps.drop_first());
    }
}

/// Law: a call sequence that only sets prefixes never reaches the
/// finishable state — omitting both required fields leaves no way to
/// finish.
pub proof fn lemma_prefix_only_never_finishes(prefixes: Seq<Step>)
    requires
        all_prefix_steps(prefixes),
    ensures
        !finishable(apply_all(init(), prefixes)),
{
    lemma_fields_equal_last_written(init(), prefixes);
    lemma_prefix_steps_write_no_requirement(None, None, prefixes);
}

/// A completing run: setting the suffix and the icon in either order, or
/// setting both at once from a severity level.
pub open spec fn is_completion(steps: Seq<Step>) -> bool {
    ||| steps.len() == 2 && steps[0] is SetSuffix && steps[1] is SetIcon
    ||| steps.len() == 2 && steps[0] is SetIcon && steps[1] is SetSuffix
    ||| steps.len() == 1 && steps[0] is SetLevel
}

/// Law: every call sequence made of prefix settings followed by a
/// completing run — suffix and icon in either order, or a level — reaches
/// the finishable state, and each field of the result equals the last
/// value written to it (the prefix stays unwritten when no prefix step
/// occurred).
pub proof fn lemma_protocol_always_finishes(prefixes: Seq<Step>, completion: Seq<Step>)
    requires
        all_prefix_steps(prefixes),
        is_completion(completion),
    ensures
        finishable(apply_all(init(), prefixes + completion)),
        apply_all(init(), prefixes + completion).prefix == last_prefix(None, prefixes + completion),
        apply_all(init(), prefixes + completion).suffix == last_suffix(None, prefixes + completion),
        apply_all(init(), prefixes + completion).icon == last_icon(None, prefixes + completion),
{
    lemma_fields_equal_last_written(init(), prefixes + completion);
    lemma_apply_all_concat(init(), prefixes, completion);
    let mid = apply_all(init(), prefixes);
    if completion.len() == 2 {
        let after_first = apply(mid, completion[0]);
        let rest = completion.drop_first();
        assert(apply_all(mid, completion) == apply_all(after_first, rest));
        assert(apply_all(after_first, rest) == apply_all(apply(after_first, rest[0]), rest.drop_first()));
        assert(rest.drop_first().len() == 0);
        assert(rest[0] == completion[1]);
        assert(finishable(apply(after_first, completion[1])));
    } else {
        let rest = completion.drop_first();
        assert(apply_all(mid, completion) == apply_all(apply(mid, completion[0]), rest));
        assert(rest.len() == 0);
        assert(finishable(apply(mid, completion[0])));
    }
}

} // verus!
