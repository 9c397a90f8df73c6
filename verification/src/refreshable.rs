use vstd::prelude::*;

use crate::messages::Message;

verus! {

/// Staleness window, in milliseconds, for slow-changing metadata such as a
/// device's name, model, location and firmware versions.
pub const HOUR_MILLIS: u64 = 60 * 60 * 1000;

/// Staleness window, in milliseconds, for fast-changing runtime state such as
/// power level and colors.
pub const FIFTEEN_SECONDS_MILLIS: u64 = 15 * 1000;

/// A single staleness-tracked value slot: the cached value (absent until a
/// reply supplies it), how old the value may grow, when it was last written,
/// and the query that refreshes it. Times are milliseconds on one monotonic
/// clock supplied by the caller.
#[derive(Debug)]
pub struct RefreshableData<T> {
    pub data: Option<T>,
    pub max_age: u64,
    pub last_updated: u64,
    pub refresh_msg: Message,
}

impl<T> RefreshableData<T> {
    /// The slot as created empty at time `now`.
    pub open spec fn empty_spec(max_age: u64, refresh_msg: Message, now: u64) -> Self {
        RefreshableData { data: None, max_age, last_updated: now, refresh_msg }
    }

    /// The slot after its value is overwritten at time `now`: the one
    /// mutation path, an overwrite and never a merge.
    pub open spec fn updated(self, data: T, now: u64) -> Self {
        RefreshableData { data: Some(data), last_updated: now, ..self }
    }

    /// A slot is stale when it holds no value, or when more than `max_age`
    /// milliseconds have passed since the value was written.
    pub open spec fn is_stale(self, now: u64) -> bool {
        self.data is None || now > self.last_updated + self.max_age
    }

    pub fn empty(max_age: u64, refresh_msg: Message, now: u64) -> (r: Self)
        ensures
            r == Self::empty_spec(max_age, refresh_msg, now),
    {
        RefreshableData { data: None, max_age, last_updated: now, refresh_msg }
    }

    pub fn update(&mut self, data: T, now: u64)
        ensures
            *final(self) == old(self).updated(data, now),
    {
        self.data = Some(data);
        self.last_updated = now;
    }

    pub fn needs_refresh(&self, now: u64) -> (r: bool)
        ensures
            r == self.is_stale(now),
    {
        match &self.data {
            None => true,
            Some(_) => now > self.max_age && now - self.max_age > self.last_updated,
        }
    }

    pub fn as_ref(&self) -> (r: Option<&T>)
        ensures
            r is Some <==> self.data is Some,
            r matches Some(v) ==> self.data == Some(*v),
    {
        match &self.data {
            Some(v) => Some(v),
            None => None,
        }
    }
}

/// A freshly created slot is stale at every time: it holds no value yet.
pub proof fn lemma_empty_is_stale<T>(max_age: u64, msg: Message, created: u64, t: u64)
    ensures
        RefreshableData::<T>::empty_spec(max_age, msg, created).is_stale(t),
{
}

/// Right after an update a slot is not stale, and it is stale again at any
/// time more than `max_age` past the update.
pub proof fn lemma_update_freshness<T>(f: RefreshableData<T>, v: T, now: u64, t: u64)
    ensures
        !f.updated(v, now).is_stale(now),
        t > now + f.max_age ==> f.updated(v, now).is_stale(t),
{
}

/// The slot always holds exactly the most recently written value: an update
/// overwrites whatever was there, whether the slot was empty or full, so
/// replaying a duplicate reply changes nothing.
pub proof fn lemma_update_overwrites<T>(f: RefreshableData<T>, v1: T, t1: u64, v2: T, t2: u64)
    ensures
        f.updated(v1, t1).data == Some(v1),
        f.updated(v1, t1).updated(v2, t2).data == Some(v2),
        f.updated(v1, t1).updated(v1, t1) == f.updated(v1, t1),
{
}

} // verus!
