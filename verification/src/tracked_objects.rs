//! Objects keyed by station id that expire when they have not been refreshed in time.
use std::collections::HashMap;
use std::time::Duration;
use std::time::Instant;
use vstd::prelude::*;
use vstd::std_specs::iter::IteratorSpec;

use crate::clock::{duration_as_nanos, instant_elapsed, instant_now};

verus! {

broadcast use vstd::std_specs::hash::group_hash_axioms;

/// One tracked item and the moment it was last refreshed.
#[derive(Debug)]
pub struct TrackedObject<T> {
    pub item: T,
    /// Nanoseconds from the creation of the collection to the last refresh.
    pub last_seen: u128,
}

/// A collection of items keyed by id, each stamped with the time it was last seen.
pub struct TrackedObjects<T> {
    objects: HashMap<u32, TrackedObject<T>>,
    epoch: Instant,
    latest: u128,
}

/// Time from `then` to `now`, or zero when `then` lies after `now`.
pub open spec fn elapsed_between(now: u128, then: u128) -> int {
    if now >= then {
        now - then
    } else {
        0
    }
}

/// An object seen at `last_seen` is still fresh at `now` when no more than `timeout`
/// has passed since.
pub open spec fn is_fresh(last_seen: u128, now: u128, timeout: u128) -> bool {
    elapsed_between(now, last_seen) <= timeout
}

/// The entries of `m` that are still fresh at `now`.
pub open spec fn fresh_entries<T>(m: Map<u32, TrackedObject<T>>, now: u128, timeout: u128) -> Map<
    u32,
    TrackedObject<T>,
> {
    m.restrict(m.dom().filter(|id: u32| is_fresh(m[id].last_seen, now, timeout)))
}

/// The map after `item` was stored under `id`, seen at `now`.
pub open spec fn with_entry<T>(m: Map<u32, TrackedObject<T>>, id: u32, item: T, now: u128) -> Map<
    u32,
    TrackedObject<T>,
> {
    m.insert(id, TrackedObject { item, last_seen: now })
}

impl<T> View for TrackedObjects<T> {
    type V = Map<u32, TrackedObject<T>>;

    closed spec fn view(&self) -> Map<u32, TrackedObject<T>> {
        self.objects@
    }
}

/// The later of two moments.
pub open spec fn later(a: u128, b: u128) -> u128 {
    if a >= b {
        a
    } else {
        b
    }
}

impl<T> TrackedObjects<T> {
    /// The latest moment the collection has been told of or has read from the clock, in
    /// nanoseconds since it was created; the clock it reads never goes back before it.
    pub closed spec fn latest(&self) -> u128 {
        self.latest
    }

    /// `now` is the moment the collection's clock gives when it is read while the
    /// collection is `self`: the whole nanoseconds that `Instant::elapsed` reports since the
    /// collection was created, as `Duration::as_nanos` counts them, or the latest moment
    /// already used when that is later.
    pub closed spec fn clock_moment(&self, now: u128) -> bool {
        exists|d: Duration, n: u128|
            #![trigger call_ensures(instant_elapsed, (&self.epoch,), d), call_ensures(duration_as_nanos, (&d,), n)]
            call_ensures(instant_elapsed, (&self.epoch,), d) && call_ensures(duration_as_nanos, (&d,), n)
                && now == later(self.latest, n)
    }

    /// A clock moment is never earlier than the latest moment already used.
    pub proof fn lemma_clock_moment(&self, now: u128)
        requires
            self.clock_moment(now),
        ensures
            now >= self.latest(),
    {
    }

    /// A collection holds finitely many objects.
    pub proof fn lemma_finite(&self)
        ensures
            self@.dom().finite(),
    {
    }

    /// An empty collection.
    pub fn new() -> (s: Self)
        ensures
            s@ == Map::<u32, TrackedObject<T>>::empty(),
            s@.dom().finite(),
            s.latest() == 0,
    {
        TrackedObjects { objects: HashMap::new(), epoch: instant_now(), latest: 0 }
    }

    /// The current time, in nanoseconds since the collection was created, and never
    /// earlier than a moment it has already used.
    pub(crate) fn now(&mut self) -> (now: u128)
        ensures
            now >= old(self).latest(),
            old(self).clock_moment(now),
            final(self).latest() == now,
            final(self)@ == old(self)@,
            final(self)@.dom().finite(),
    {
        let elapsed = instant_elapsed(&self.epoch);
        let reading = duration_as_nanos(&elapsed);
        if reading > self.latest {
            self.latest = reading;
        }
        self.latest
    }

    /// Stores `item` under `id` as seen at `now`, replacing what was stored there.
    pub fn insert_at(&mut self, id: u32, item: T, now: u128)
        ensures
            final(self)@ == with_entry(old(self)@, id, item, now),
            final(self)@.dom().finite(),
            final(self).latest() == later(old(self).latest(), now),
    {
        self.objects.insert(id, TrackedObject { item, last_seen: now });
        if now > self.latest {
            self.latest = now;
        }
    }

    /// Stores `item` under `id` as seen now, replacing what was stored there.
    pub fn insert(&mut self, id: u32, item: T)
        ensures
            exists|now: u128|
                now >= old(self).latest() && final(self).latest() == now
                    && final(self)@ == with_entry(old(self)@, id, item, now),
            exists|now: u128|
                old(self).clock_moment(now) && final(self).latest() == now
                    && final(self)@ == with_entry(old(self)@, id, item, now),
            final(self)@.dom().finite(),
    {
        let now = self.now();
        self.insert_at(id, item, now);
    }

    /// Drops every object that was last seen more than `timeout` nanoseconds before `now`.
    pub fn clean_expired_at(&mut self, timeout: u128, now: u128)
        ensures
            final(self)@ == fresh_entries(old(self)@, now, timeout),
            final(self)@.dom().finite(),
            final(self).latest() == later(old(self).latest(), now),
    {
        let ghost start = self.objects@;
        let mut expired: Vec<u32> = Vec::new();
        let ghost entries = vstd::std_specs::hash::spec_hash_map_iter(&self.objects).remaining();
        let ghost mut visited: int = 0;
        for entry in it: self.objects.iter()
            invariant
                self.objects@ == start,
                it.seq() == entries,
                visited == it.index(),
                it.seq().len() == start.dom().len(),
                forall|j: int| 0 <= j < it.seq().len() ==> #[trigger] start.contains_key(*it.seq()[j].0) && start[*it.seq()[j].0] == *it.seq()[j].1,
                forall|k: u32| #[trigger] start.contains_key(k) ==> it.seq().contains((&k, &start[k])),
                forall|i: int| 0 <= i < expired.len() ==> start.contains_key(#[trigger] expired@[i]) && !is_fresh(start[expired@[i]].last_seen, now, timeout),
                forall|j: int| 0 <= j < it.index() ==> (!is_fresh((*it.seq()[j].1).last_seen, now, timeout) ==> expired@.contains(*it.seq()[j].0)),
        {
            let (id, object) = entry;
            let ghost before = expired@;
            if now >= object.last_seen {
                if now - object.last_seen > timeout {
                    expired.push(*id);
                    assert forall|x: u32| before.contains(x) implies expired@.contains(x) by {
                        let w = choose|w: int| 0 <= w < before.len() && before[w] == x;
                        assert(expired@[w] == x);
                    }
                    assert(expired@[expired.len() - 1] == *id);
                }
            }
            proof {
                visited = visited + 1;
            }
        }
        assert(visited == entries.len());
        assert forall|k: u32| #[trigger] start.contains_key(k) && !is_fresh(start[k].last_seen, now, timeout)
            implies expired@.contains(k) by {
            let j = choose|j: int| 0 <= j < entries.len() && entries[j] == (&k, &start[k]);
            assert(*entries[j].0 == k);
        }
        let mut i: usize = 0;
        while i < expired.len()
            invariant
                i <= expired.len(),
                self.objects@ == start.remove_keys(expired@.take(i as int).to_set()),
                self.latest == old(self).latest,
            decreases expired.len() - i,
        {
            let ghost removed = expired@.take(i as int).to_set();
            self.objects.remove(&expired[i]);
            proof {
                assert(expired@.take(i + 1) =~= expired@.take(i as int).push(expired@[i as int]));
                expired@.take(i as int).lemma_push_to_set_commute(expired@[i as int]);
                assert(expired@.take(i + 1).to_set() =~= removed.insert(expired@[i as int]));
                assert(start.remove_keys(removed.insert(expired@[i as int])) =~= start.remove_keys(removed).remove(expired@[i as int]));
            }
            i = i + 1;
        }
        assert(expired@.take(expired.len() as int) =~= expired@);
        assert(self.objects@ =~= fresh_entries(start, now, timeout));
        if now > self.latest {
            self.latest = now;
        }
    }

    /// Drops every object that was last seen more than `timeout` nanoseconds ago.
    pub fn clean_expired(&mut self, timeout: u128)
        ensures
            exists|now: u128|
                now >= old(self).latest() && final(self).latest() == now
                    && final(self)@ == fresh_entries(old(self)@, now, timeout),
            exists|now: u128|
                old(self).clock_moment(now) && final(self).latest() == now
                    && final(self)@ == fresh_entries(old(self)@, now, timeout),
            final(self)@.dom().finite(),
    {
        let now = self.now();
        self.clean_expired_at(timeout, now);
    }

    /// The stored items, one for each id, in no particular order.
    pub fn values(&self) -> (items: Vec<&T>)
        ensures
            exists|ids: Seq<u32>|
                {
                    &&& ids.len() == items.len()
                    &&& ids.no_duplicates()
                    &&& ids.to_set() == self@.dom()
                    &&& forall|i: int| 0 <= i < ids.len() ==> *items@[i] == #[trigger] self@[ids[i]].item
                },
    {
        let ghost start = self.objects@;
        let ghost entries = vstd::std_specs::hash::spec_hash_map_iter(&self.objects).remaining();
        let ghost mut visited: int = 0;
        let mut items: Vec<&T> = Vec::new();
        for entry in it: self.objects.iter()
            invariant
                self.objects@ == start,
                it.seq() == entries,
                visited == it.index(),
                entries.len() == start.dom().len(),
                entries.no_duplicates(),
                forall|j: int| 0 <= j < entries.len() ==> #[trigger] start.contains_key(*entries[j].0) && start[*entries[j].0] == *entries[j].1,
                forall|k: u32| #[trigger] start.contains_key(k) ==> entries.contains((&k, &start[k])),
                items.len() == visited,
                forall|j: int| 0 <= j < visited ==> *items@[j] == #[trigger] (*entries[j].1).item,
        {
            let (_, object) = entry;
            items.push(&object.item);
            proof {
                visited = visited + 1;
            }
        }
        let ghost ids = entries.map_values(|e: (&u32, &TrackedObject<T>)| *e.0);
        proof {
            assert(visited == entries.len());
            assert forall|a: int, b: int| 0 <= a < ids.len() && 0 <= b < ids.len() && a != b implies ids[a] != ids[b] by {
                if ids[a] == ids[b] {
                    assert(start.contains_key(*entries[a].0) && start.contains_key(*entries[b].0));
                    assert(*entries[a].1 == *entries[b].1);
                    assert(entries[a].0 == entries[b].0);
                    assert(entries[a].1 == entries[b].1);
                    assert(entries[a] == entries[b]);
                }
            }
            assert forall|k: u32| #[trigger] ids.to_set().contains(k) <==> start.dom().contains(k) by {
                if start.dom().contains(k) {
                    let j = choose|j: int| 0 <= j < entries.len() && entries[j] == (&k, &start[k]);
                    assert(ids[j] == k);
                }
                if ids.to_set().contains(k) {
                    let j = choose|j: int| 0 <= j < ids.len() && ids[j] == k;
                    assert(start.contains_key(*entries[j].0));
                }
            }
            assert(ids.to_set() =~= start.dom());
            assert forall|i: int| 0 <= i < ids.len() implies *items@[i] == #[trigger] start[ids[i]].item by {
                assert(start[*entries[i].0] == *entries[i].1);
            }
        }
        items
    }
}

/// An object stored at `seen` survives a clean-up at `now` exactly when it is still fresh
/// then, and survives it unchanged; storing under one id leaves the others as they were.
pub proof fn law_insert_then_clean<T>(m: Map<u32, TrackedObject<T>>, id: u32, item: T, seen: u128, now: u128, timeout: u128)
    ensures
        fresh_entries(with_entry(m, id, item, seen), now, timeout).contains_key(id) == is_fresh(seen, now, timeout),
        is_fresh(seen, now, timeout) ==> fresh_entries(with_entry(m, id, item, seen), now, timeout)[id]
            == (TrackedObject { item, last_seen: seen }),
        forall|other: u32| other != id ==> #[trigger] with_entry(m, id, item, seen).contains_key(other) == m.contains_key(other),
{
}

/// Storing under an id that is not yet stored adds one entry; storing under a stored id
/// keeps the number of entries.
pub proof fn law_store_count<T>(m: Map<u32, TrackedObject<T>>, id: u32, item: T, seen: u128)
    requires
        m.dom().finite(),
    ensures
        with_entry(m, id, item, seen).dom().finite(),
        with_entry(m, id, item, seen).len() == if m.contains_key(id) { m.len() } else { m.len() + 1 },
{
}

/// A longer timeout keeps at least as much: every object that a clean-up at `now` keeps
/// with the timeout `shorter` is kept, unchanged, by one at the same moment with the
/// timeout `longer`; and an object last seen at `now` is kept whatever the timeout, zero
/// included.
pub proof fn law_clean_expired_monotone<T>(m: Map<u32, TrackedObject<T>>, now: u128, shorter: u128, longer: u128)
    requires
        shorter <= longer,
    ensures
        fresh_entries(m, now, shorter).dom().subset_of(fresh_entries(m, now, longer).dom()),
        forall|id: u32| #[trigger] fresh_entries(m, now, shorter).contains_key(id)
            ==> fresh_entries(m, now, longer)[id] == fresh_entries(m, now, shorter)[id],
        forall|id: u32| #[trigger] m.contains_key(id) && m[id].last_seen == now
            ==> fresh_entries(m, now, shorter).contains_key(id),
{
}

/// A clean-up keeps exactly the fresh entries, each unchanged, and a second clean-up at the
/// same time with the same timeout changes nothing.
pub proof fn law_clean_expired<T>(m: Map<u32, TrackedObject<T>>, now: u128, timeout: u128)
    ensures
        forall|id: u32| #[trigger] fresh_entries(m, now, timeout).contains_key(id)
            <==> m.contains_key(id) && is_fresh(m[id].last_seen, now, timeout),
        forall|id: u32| #[trigger] fresh_entries(m, now, timeout).contains_key(id)
            ==> fresh_entries(m, now, timeout)[id] == m[id],
        fresh_entries(fresh_entries(m, now, timeout), now, timeout) == fresh_entries(m, now, timeout),
{
    let once = fresh_entries(m, now, timeout);
    assert(fresh_entries(once, now, timeout) =~= once);
}

} // verus!
