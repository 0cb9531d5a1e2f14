//! What is reported of a read.

use vstd::prelude::*;

use crate::cache::storage::Lookup;
use crate::cache::storage::LookupView;

verus! {

/// The level of the cache that a measurement is about.
#[derive(Clone, Copy, Debug, PartialEq, Eq, Structural)]
pub enum CacheStorageName {
    Redis,
    Memory,
}

impl CacheStorageName {
    /// The name under which measurements are reported.
    pub fn name(&self) -> (name: String)
        ensures
            name@ == (match self {
                CacheStorageName::Redis => "redis"@,
                CacheStorageName::Memory => "memory"@,
            }),
    {
        match self {
            CacheStorageName::Redis => "redis".to_string(),
            CacheStorageName::Memory => "memory".to_string(),
        }
    }
}

/// A measurement of a read: the component that the cache serves, the level that was asked,
/// and whether it had the value.
#[derive(Clone, Debug, PartialEq, Eq)]
pub struct Measurement {
    pub kind: String,
    pub storage: CacheStorageName,
    pub hit: bool,
}

/// The mathematical value of a [`Measurement`].
pub struct MeasurementView {
    pub kind: Seq<char>,
    pub storage: CacheStorageName,
    pub hit: bool,
}

impl View for Measurement {
    type V = MeasurementView;

    open spec fn view(&self) -> MeasurementView {
        MeasurementView { kind: self.kind@, storage: self.storage, hit: self.hit }
    }
}

/// The measurements that one read calls for: one of memory, and after it one of the second
/// level if and only if that was asked. `answered` says whether the second level, where it
/// was asked, had a value.
pub open spec fn measurements_due(
    caller: Seq<char>,
    lookup: LookupView,
    answered: bool,
) -> Seq<MeasurementView> {
    let memory = MeasurementView {
        kind: caller,
        storage: CacheStorageName::Memory,
        hit: lookup is Hit,
    };
    let redis = MeasurementView {
        kind: caller,
        storage: CacheStorageName::Redis,
        hit: answered,
    };
    if lookup is AskSecondary {
        seq![memory, redis]
    } else {
        seq![memory]
    }
}

/// The mathematical values of a list of measurements.
pub open spec fn views_of(measurements: Seq<Measurement>) -> Seq<MeasurementView> {
    measurements.map_values(|measurement: Measurement| measurement@)
}

/// The measurements that are due for a read of which memory said `lookup` and the second
/// level, where it was asked, `reply`. The first of them does not depend on `reply`.
pub fn measurements<V>(caller: &str, lookup: &Lookup, reply: &Option<V>) -> (due: Vec<Measurement>)
    ensures
        views_of(due@) == measurements_due(caller@, lookup@, reply is Some),
{
    let (hit, asked) = match lookup {
        Lookup::Hit(_) => (true, false),
        Lookup::Miss => (false, false),
        Lookup::AskSecondary(_) => (false, true),
    };
    let mut due: Vec<Measurement> = Vec::new();
    due.push(Measurement { kind: caller.to_string(), storage: CacheStorageName::Memory, hit });
    if asked {
        due.push(
            Measurement {
                kind: caller.to_string(),
                storage: CacheStorageName::Redis,
                hit: reply.is_some(),
            },
        );
    }
    assert(views_of(due@) =~= measurements_due(caller@, lookup@, reply is Some));
    due
}

} // verus!
