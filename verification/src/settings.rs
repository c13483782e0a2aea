//! The scoped settings that can be controlled at runtime for the collector.
//!
//! A shared [`GCSettings`] cell holds the current policy together with the
//! strength under which it was last accepted. A nested scope requests a
//! change through a [`ScopedGCSettings`] handle; the request is merged into
//! the cell by the domination algebra below, so a weaker scope can never
//! overrule a stronger one.

use vstd::prelude::*;

verus! {

/// Whether the collector is currently permitted to run.
#[derive(PartialEq, Eq, Copy, Clone, Debug)]
pub enum Collect {
    NoCollect,
    Collect,
}

/// Determines the strength of a setting.
#[derive(Copy, Clone, Debug)]
pub enum Strength<T> {
    /// Deeper scopes can change the setting at will.
    Lenient,
    /// Deeper scopes can only strengthen the setting from the held threshold.
    AsStrongAs(T),
    /// Deeper scopes cannot change the setting.
    Strict,
}

/// The domination relation used to pick a winner between two competing
/// values or strengths during a merge.
pub trait Stronger: Sized {
    /// What it means for `self` to dominate `other`.
    spec fn spec_stronger_than(self, other: Self) -> bool;

    /// Returns whether `self` dominates `other`.
    fn stronger_than(&self, other: &Self) -> (r: bool)
        ensures
            r == self.spec_stronger_than(*other),
    ;
}

impl Stronger for Collect {
    /// `NoCollect` dominates unconditionally; `Collect` never dominates.
    /// Disabling collection is therefore sticky under merge.
    open spec fn spec_stronger_than(self, other: Self) -> bool {
        self is NoCollect
    }

    fn stronger_than(&self, other: &Self) -> (r: bool) {
        match self {
            Collect::Collect => false,
            Collect::NoCollect => true,
        }
    }
}

impl<T: Stronger> Stronger for Strength<T> {
    /// `Strict` dominates everything; `Lenient` dominates nothing;
    /// `AsStrongAs` dominates `Lenient`, loses to `Strict`, and compares
    /// two thresholds under the governed type's own rule.
    open spec fn spec_stronger_than(self, other: Self) -> bool {
        match self {
            Strength::Lenient => false,
            Strength::AsStrongAs(threshold) => match other {
                Strength::Lenient => true,
                Strength::AsStrongAs(test) => threshold.spec_stronger_than(test),
                Strength::Strict => false,
            },
            Strength::Strict => true,
        }
    }

    fn stronger_than(&self, other: &Self) -> (r: bool) {
        match self {
            Strength::Lenient => false,
            Strength::AsStrongAs(threshold) => match other {
                Strength::Lenient => true,
                Strength::AsStrongAs(test) => threshold.stronger_than(test),
                Strength::Strict => false,
            },
            Strength::Strict => true,
        }
    }
}

/// The winner of a merge: the prior value if it dominates the incoming one,
/// else the incoming value.
pub open spec fn spec_strongest<T: Stronger>(prior: T, incoming: T) -> T {
    if prior.spec_stronger_than(incoming) {
        prior
    } else {
        incoming
    }
}

/// Picks the winner between the prior and the incoming value.
pub fn strongest<T: Stronger>(prior: T, incoming: T) -> (r: T)
    ensures
        r == spec_strongest(prior, incoming),
{
    if prior.stronger_than(&incoming) {
        prior
    } else {
        incoming
    }
}

/// A governed value paired with the strength under which it was last
/// accepted.
#[derive(Copy, Clone, Debug)]
pub struct Setting<T> {
    pub val: T,
    pub strength: Strength<T>,
}

impl<T: Copy> Setting<T> {
    /// Read-only access to the governed value, for external collaborators
    /// such as the collector's scheduler.
    pub fn value(&self) -> (r: T)
        ensures
            r == self.val,
    {
        self.val
    }
}

/// The effect of requesting a new value while leaving the recorded strength
/// alone: accepted outright under `Lenient`, clamped by the threshold under
/// `AsStrongAs`, ignored under `Strict`.
pub open spec fn spec_apply_value<T: Stronger>(s: Setting<T>, val: T) -> Setting<T> {
    match s.strength {
        Strength::Lenient => (Setting { val: val, strength: s.strength }),
        Strength::AsStrongAs(threshold) => (Setting {
            val: spec_strongest(val, threshold),
            strength: s.strength,
        }),
        Strength::Strict => s,
    }
}

/// The effect of requesting both a new value and a new strength: accepted
/// outright under `Lenient`; under `AsStrongAs` the value is clamped by the
/// threshold and the strength can only escalate; ignored under `Strict`.
pub open spec fn spec_apply_value_strength<T: Stronger>(
    s: Setting<T>,
    val: T,
    strength: Strength<T>,
) -> Setting<T> {
    match s.strength {
        Strength::Lenient => (Setting { val: val, strength: strength }),
        Strength::AsStrongAs(threshold) => (Setting {
            val: spec_strongest(val, threshold),
            strength: spec_strongest(s.strength, strength),
        }),
        Strength::Strict => s,
    }
}

/// The collector-wide cell of available settings.
///
/// Designed for single-threaded, cooperative access within one collector
/// context: it is not thread-safe unless explicitly upgraded.
#[derive(Copy, Clone, Debug)]
pub struct GCSettings {
    pub collect: Setting<Collect>,
}

impl GCSettings {
    /// The initial policy at collector start: collection enabled, freely
    /// changeable.
    pub fn new() -> (r: GCSettings)
        ensures
            r.collect.val == Collect::Collect,
            r.collect.strength is Lenient,
    {
        GCSettings {
            collect: Setting { val: Collect::Collect, strength: Strength::Lenient },
        }
    }
}

/// A scope handle: the snapshot of the settings as they were at scope
/// entry, restored into the live cell when the scope ends.
pub struct ScopedGCSettings {
    pub snapshot: GCSettings,
}

impl ScopedGCSettings {
    /// Enters a scope by capturing the live settings, so that they can be
    /// restored when the scope ends.
    pub fn new(cur: &GCSettings) -> (r: ScopedGCSettings)
        ensures
            r.snapshot == *cur,
    {
        ScopedGCSettings { snapshot: *cur }
    }

    /// Merges one request into the live cell; `strength` is `None` for a
    /// value-only request.
    fn apply(cur: &mut GCSettings, val: Collect, strength: Option<Strength<Collect>>)
        ensures
            final(cur).collect == (match strength {
                Option::Some(st) => spec_apply_value_strength(old(cur).collect, val, st),
                Option::None => spec_apply_value(old(cur).collect, val),
            }),
    {
        let setting = cur.collect;
        let merged = match setting.strength {
            Strength::Lenient => Setting {
                val: val,
                strength: match strength {
                    Option::Some(st) => st,
                    Option::None => setting.strength,
                },
            },
            Strength::AsStrongAs(test) => Setting {
                val: strongest(val, test),
                strength: match strength {
                    Option::Some(st) => strongest(setting.strength, st),
                    Option::None => setting.strength,
                },
            },
            Strength::Strict => setting,
        };
        cur.collect = merged;
    }

    /// Requests a new collect value under this scope; the recorded strength
    /// is left alone.
    pub fn with_collect<'a>(&'a self, cur: &mut GCSettings, val: Collect) -> (r:
        &'a ScopedGCSettings)
        ensures
            final(cur).collect == spec_apply_value(old(cur).collect, val),
            r == self,
    {
        Self::apply(cur, val, Option::None);
        self
    }

    /// Requests both a new collect value and a new strength under this
    /// scope.
    pub fn with_collect_strength<'a>(
        &'a self,
        cur: &mut GCSettings,
        val: Collect,
        strength: Strength<Collect>,
    ) -> (r: &'a ScopedGCSettings)
        ensures
            final(cur).collect == spec_apply_value_strength(old(cur).collect, val, strength),
            r == self,
    {
        Self::apply(cur, val, Option::Some(strength));
        self
    }

    /// Ends the scope: the live cell is put back exactly as it was at scope
    /// entry, so sibling and outer scopes never observe this scope's
    /// mutations. Must run once per scope end, on every exit path.
    pub fn restore(self, cur: &mut GCSettings)
        ensures
            *final(cur) == self.snapshot,
    {
        *cur = self.snapshot;
    }
}

} // verus!
