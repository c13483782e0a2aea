//! The guarantees of the merge algebra, stated over whole sequences of
//! requests.

use vstd::prelude::*;

use crate::settings::Collect;
use crate::settings::Setting;
use crate::settings::Strength;
use crate::settings::Stronger;
use crate::settings::spec_apply_value;
use crate::settings::spec_apply_value_strength;
use crate::settings::spec_strongest;

verus! {

/// A single request a scope may make against the live setting: a new value
/// alone, or a new value together with a new strength.
pub enum Request {
    Value(Collect),
    ValueStrength(Collect, Strength<Collect>),
}

/// The effect of one request on a setting.
pub open spec fn spec_apply_request(s: Setting<Collect>, req: Request) -> Setting<Collect> {
    match req {
        Request::Value(v) => spec_apply_value(s, v),
        Request::ValueStrength(v, st) => spec_apply_value_strength(s, v, st),
    }
}

/// The effect of a sequence of requests, applied in order.
pub open spec fn spec_apply_requests(s: Setting<Collect>, reqs: Seq<Request>) -> Setting<Collect>
    decreases reqs.len(),
{
    if reqs.len() == 0 {
        s
    } else {
        spec_apply_requests(spec_apply_request(s, reqs[0]), reqs.drop_first())
    }
}

/// Once a setting is guarded by `Strict`, no sequence of requests changes
/// it: its value and strength are fixed for the rest of its lifetime.
pub proof fn lemma_strict_absorbs_all(s: Setting<Collect>, reqs: Seq<Request>)
    requires
        s.strength is Strict,
    ensures
        spec_apply_requests(s, reqs) == s,
    decreases reqs.len(),
{
    if reqs.len() != 0 {
        assert(spec_apply_request(s, reqs[0]) == s);
        lemma_strict_absorbs_all(s, reqs.drop_first());
    }
}

/// Under `Lenient`, a request replaces the prior value outright, and the
/// prior strength too when one is requested.
pub proof fn lemma_lenient_replaces(s: Setting<Collect>, val: Collect, strength: Strength<Collect>)
    requires
        s.strength is Lenient,
    ensures
        spec_apply_value_strength(s, val, strength) == (Setting { val: val, strength: strength }),
        spec_apply_value(s, val) == (Setting { val: val, strength: s.strength }),
{
}

/// Under `AsStrongAs(threshold)`, a requested value that the threshold
/// dominates yields the threshold, not the requested value.
pub proof fn lemma_threshold_clamps_value(
    s: Setting<Collect>,
    threshold: Collect,
    val: Collect,
    strength: Strength<Collect>,
)
    requires
        s.strength == Strength::AsStrongAs(threshold),
        threshold.spec_stronger_than(val),
    ensures
        spec_apply_value(s, val).val == threshold,
        spec_apply_value_strength(s, val, strength).val == threshold,
{
}

/// Under `AsStrongAs(_)`, a requested strength that the current strength
/// dominates leaves the current strength unchanged.
pub proof fn lemma_weaker_strength_ignored(
    s: Setting<Collect>,
    val: Collect,
    strength: Strength<Collect>,
)
    requires
        s.strength is AsStrongAs,
        s.strength.spec_stronger_than(strength),
    ensures
        spec_apply_value_strength(s, val, strength).strength == s.strength,
{
}

/// Merging two `Collect` values is order-dependent: the prior operand wins
/// exactly when it is `NoCollect`; otherwise the incoming operand wins.
pub proof fn lemma_collect_merge_asymmetric(prior: Collect, incoming: Collect)
    ensures
        spec_strongest(prior, incoming) == (if prior is NoCollect {
            prior
        } else {
            incoming
        }),
{
}

} // verus!
