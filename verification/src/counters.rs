//! Counter discovery and cache: a single linear scan of the enumerated
//! counter names classifies each into at most one semantic category by
//! substring match, and the first counter found per category is cached
//! for the session's lifetime.  Unmatched categories stay empty and
//! their readings degrade to zero/unavailable; that is accepted, not an
//! error.

use vstd::prelude::*;
use crate::strutil::{contains_seq, str_contains};

verus! {

/// The semantic quantities the monitor samples.
#[derive(Debug, Clone, Copy, PartialEq, Eq, Structural)]
pub enum CounterCategory {
    Utilization,
    MemoryUsed,
    MemoryTotal,
    Temperature,
}

/// The category a counter name falls into, if any: the first category
/// whose name-fragment list matches wins for that counter.
pub open spec fn spec_category_of(name: Seq<char>) -> Option<CounterCategory> {
    if contains_seq(name, "GPUUtilization"@) || contains_seq(name, "GpuBusy"@) || contains_seq(
        name,
        "GPUUtil"@,
    ) || contains_seq(name, "GpuLoad"@) {
        Some(CounterCategory::Utilization)
    } else if contains_seq(name, "MemUsed"@) || contains_seq(name, "MemoryUsed"@) || contains_seq(
        name,
        "MemUsage"@,
    ) || contains_seq(name, "MemoryUsage"@) {
        Some(CounterCategory::MemoryUsed)
    } else if contains_seq(name, "MemTotal"@) || contains_seq(name, "MemoryTotal"@) || contains_seq(
        name,
        "MemSize"@,
    ) || contains_seq(name, "MemorySize"@) {
        Some(CounterCategory::MemoryTotal)
    } else if contains_seq(name, "Temperature"@) || contains_seq(name, "Temp"@) || contains_seq(
        name,
        "Thermal"@,
    ) || contains_seq(name, "CoreTemp"@) {
        Some(CounterCategory::Temperature)
    } else {
        None
    }
}

/// Classify one counter name.
pub fn classify_counter(name: &str) -> (c: Option<CounterCategory>)
    ensures
        c == spec_category_of(name@),
{
    if str_contains(name, "GPUUtilization") || str_contains(name, "GpuBusy") || str_contains(
        name,
        "GPUUtil",
    ) || str_contains(name, "GpuLoad") {
        Some(CounterCategory::Utilization)
    } else if str_contains(name, "MemUsed") || str_contains(name, "MemoryUsed") || str_contains(
        name,
        "MemUsage",
    ) || str_contains(name, "MemoryUsage") {
        Some(CounterCategory::MemoryUsed)
    } else if str_contains(name, "MemTotal") || str_contains(name, "MemoryTotal") || str_contains(
        name,
        "MemSize",
    ) || str_contains(name, "MemorySize") {
        Some(CounterCategory::MemoryTotal)
    } else if str_contains(name, "Temperature") || str_contains(name, "Temp") || str_contains(
        name,
        "Thermal",
    ) || str_contains(name, "CoreTemp") {
        Some(CounterCategory::Temperature)
    } else {
        None
    }
}

/// The cached counter index per category: populated once per session by
/// one scan, then valid for the session's lifetime.
#[derive(Debug, Clone, Copy, PartialEq, Eq, Structural)]
pub struct CounterCache {
    pub utilization_counter: Option<u32>,
    pub memory_used_counter: Option<u32>,
    pub memory_total_counter: Option<u32>,
    pub temperature_counter: Option<u32>,
}

/// `slot` names the first counter in `names` that classifies into
/// `cat`, or is empty when none does.
pub open spec fn cache_slot_is(slot: Option<u32>, names: Seq<Seq<char>>, cat: CounterCategory) -> bool {
    match slot {
        Some(i) => i < names.len() && spec_category_of(names[i as int]) == Some(cat) && (forall|
            k: int,
        |
            0 <= k < i ==> #[trigger] spec_category_of(names[k]) != Some(cat)),
        None => forall|k: int|
            0 <= k < names.len() ==> #[trigger] spec_category_of(names[k]) != Some(cat),
    }
}

/// All four slots of the cache agree with one scan of `names`.
pub open spec fn cache_matches(cache: CounterCache, names: Seq<Seq<char>>) -> bool {
    &&& cache_slot_is(cache.utilization_counter, names, CounterCategory::Utilization)
    &&& cache_slot_is(cache.memory_used_counter, names, CounterCategory::MemoryUsed)
    &&& cache_slot_is(cache.memory_total_counter, names, CounterCategory::MemoryTotal)
    &&& cache_slot_is(cache.temperature_counter, names, CounterCategory::Temperature)
}

/// One linear scan of the enumerated counter names.  Each counter is
/// classified into at most one category, and the first counter found
/// per category wins; later matches do not displace it.
pub fn build_counter_cache(names: &Vec<String>) -> (cache: CounterCache)
    requires
        names@.len() <= u32::MAX,
    ensures
        cache_matches(cache, names@.map_values(|s: String| s@)),
{
    let ghost name_views = names@.map_values(|s: String| s@);
    let mut cache = CounterCache {
        utilization_counter: None,
        memory_used_counter: None,
        memory_total_counter: None,
        temperature_counter: None,
    };
    let mut i: usize = 0;
    while i < names.len()
        invariant
            names@.len() <= u32::MAX,
            name_views == names@.map_values(|s: String| s@),
            i <= names@.len(),
            cache_slot_is(cache.utilization_counter, name_views.take(i as int), CounterCategory::Utilization),
            cache_slot_is(cache.memory_used_counter, name_views.take(i as int), CounterCategory::MemoryUsed),
            cache_slot_is(cache.memory_total_counter, name_views.take(i as int), CounterCategory::MemoryTotal),
            cache_slot_is(cache.temperature_counter, name_views.take(i as int), CounterCategory::Temperature),
        decreases names@.len() - i,
    {
        let category = classify_counter(names[i].as_str());
        assert(spec_category_of(name_views[i as int]) == category);
        match category {
            Some(CounterCategory::Utilization) => {
                if cache.utilization_counter.is_none() {
                    cache.utilization_counter = Some(i as u32);
                }
            },
            Some(CounterCategory::MemoryUsed) => {
                if cache.memory_used_counter.is_none() {
                    cache.memory_used_counter = Some(i as u32);
                }
            },
            Some(CounterCategory::MemoryTotal) => {
                if cache.memory_total_counter.is_none() {
                    cache.memory_total_counter = Some(i as u32);
                }
            },
            Some(CounterCategory::Temperature) => {
                if cache.temperature_counter.is_none() {
                    cache.temperature_counter = Some(i as u32);
                }
            },
            None => {},
        }
        assert(name_views.take(i + 1).drop_last() =~= name_views.take(i as int));
        assert(name_views.take(i + 1).last() == name_views[i as int]);
        i += 1;
    }
    assert(name_views.take(names@.len() as int) =~= name_views);
    cache
}

} // verus!
