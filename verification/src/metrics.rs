//! Metrics attached to an agent or a run: recording stores a value under a
//! key; resetting forgets one key or all of them. (Where numbers accumulate,
//! their floating-point sum is made before it is recorded.)

use vstd::prelude::*;
use crate::fields::{Fields, Val, ValView};

verus! {

/// The metrics after `value` is stored under `key`.
pub open spec fn metrics_after(
    m: Map<Seq<char>, ValView>,
    key: Seq<char>,
    value: ValView,
) -> Map<Seq<char>, ValView> {
    m.insert(key, value)
}

/// The metrics after a reset of one key, or of every key.
pub open spec fn metrics_reset(m: Map<Seq<char>, ValView>, key: Option<Seq<char>>) -> Map<
    Seq<char>,
    ValView,
> {
    match key {
        Some(k) => m.remove(k),
        None => Map::empty(),
    }
}

/// Stores `value` under `key`, replacing what was there. Where a number is
/// recorded over a number the two are added as floating-point numbers, and
/// that sum is the value handed in.
pub fn record_metric(metrics: &mut Fields, key: &str, value: Val)
    ensures
        final(metrics)@ == metrics_after(old(metrics)@, key@, value@),
{
    metrics.insert(String::from_str(key), value);
}

/// Forgets the metric `key`, or every metric when no key is given.
pub fn reset_metric(metrics: &mut Fields, key: Option<&str>)
    ensures
        final(metrics)@ == metrics_reset(old(metrics)@, match key {
            Some(k) => Some(k@),
            None => None,
        }),
{
    match key {
        Some(k) => {
            let _ = metrics.remove(k);
        },
        None => metrics.clear(),
    }
}

/// The value recorded is the value the key then holds.
pub proof fn law_value_recorded(m: Map<Seq<char>, ValView>, key: Seq<char>, v: ValView)
    ensures
        metrics_after(m, key, v).dom().contains(key),
        metrics_after(m, key, v)[key] == v,
{
}

/// Recording a metric leaves every other metric as it was.
pub proof fn law_other_metrics_unchanged(
    m: Map<Seq<char>, ValView>,
    key: Seq<char>,
    v: ValView,
    other: Seq<char>,
)
    requires
        other != key,
    ensures
        metrics_after(m, key, v).dom().contains(other) == m.dom().contains(other),
        m.dom().contains(other) ==> metrics_after(m, key, v)[other] == m[other],
{
}

/// Resetting one key removes exactly that key; resetting all leaves nothing.
pub proof fn law_reset(m: Map<Seq<char>, ValView>, key: Seq<char>, other: Seq<char>)
    requires
        other != key,
    ensures
        !metrics_reset(m, Some(key)).dom().contains(key),
        metrics_reset(m, Some(key)).dom().contains(other) == m.dom().contains(other),
        m.dom().contains(other) ==> metrics_reset(m, Some(key))[other] == m[other],
        metrics_reset(m, None).dom() == Set::<Seq<char>>::empty(),
{
    assert(metrics_reset(m, None).dom() =~= Set::<Seq<char>>::empty());
}

} // verus!
