//! Station ids handed out to simulated vehicles.
use vstd::prelude::*;

verus! {

/// The station id given to the `i`-th distinct vehicle (counting from zero): ids count up
/// from one and wrap around after `u32::MAX`.
pub open spec fn nth_station_id(i: int) -> u32 {
    ((1 + i) % 0x1_0000_0000) as u32
}

/// The id that `known` holds for `vehicle`, if any.
pub open spec fn registered_id(known: Seq<(Seq<char>, u32)>, vehicle: Seq<char>) -> Option<u32> {
    if exists|i: int| 0 <= i < known.len() && #[trigger] known[i].0 == vehicle {
        let i = choose|i: int| 0 <= i < known.len() && #[trigger] known[i].0 == vehicle;
        Some(known[i].1)
    } else {
        None
    }
}

/// Assigns each vehicle a station id the first time it is seen, and the same id ever after.
pub struct StationRegistry {
    station_ids: Vec<(String, u32)>,
    next_station_id: u32,
}

impl StationRegistry {
    /// The registry's internal consistency, which `new` establishes and every call keeps.
    pub closed spec fn well_formed(self) -> bool {
        &&& forall|i: int, j: int|
            0 <= i < j < self.station_ids@.len() ==> self.station_ids@[i].0@ != self.station_ids@[j].0@
        &&& forall|i: int|
            0 <= i < self.station_ids@.len() ==> #[trigger] self.station_ids@[i].1 == nth_station_id(i)
        &&& self.next_station_id == nth_station_id(self.station_ids@.len() as int)
    }

    /// The vehicles seen so far with their ids, in the order in which they were first seen.
    pub closed spec fn known(self) -> Seq<(Seq<char>, u32)> {
        self.station_ids@.map_values(|e: (String, u32)| (e.0@, e.1))
    }

    /// The id that the next new vehicle will get.
    pub closed spec fn next_id(self) -> u32 {
        self.next_station_id
    }

    /// Ids are handed out in order: the `i`-th vehicle seen holds `nth_station_id(i)`, the
    /// next new one gets the id after the last, and no vehicle is listed twice.
    pub open spec fn assigned_in_order(self) -> bool {
        &&& forall|i: int| 0 <= i < self.known().len() ==> #[trigger] self.known()[i].1 == nth_station_id(i)
        &&& self.next_id() == nth_station_id(self.known().len() as int)
        &&& forall|i: int, j: int| 0 <= i < j < self.known().len() ==> self.known()[i].0 != self.known()[j].0
    }

    /// A well-formed registry hands ids out in order.
    pub proof fn lemma_assigned_in_order(self)
        requires
            self.well_formed(),
        ensures
            self.assigned_in_order(),
    {
        assert forall|i: int, j: int| 0 <= i < j < self.known().len() implies self.known()[i].0 != self.known()[j].0 by {
            assert(self.station_ids@[i].0@ != self.station_ids@[j].0@);
        }
    }

    /// No vehicle has been seen; the first one will get id 1.
    pub fn new() -> (r: Self)
        ensures
            r.known() == Seq::<(Seq<char>, u32)>::empty(),
            r.next_id() == 1,
            r.assigned_in_order(),
            r.well_formed(),
    {
        let r = StationRegistry { station_ids: Vec::new(), next_station_id: 1 };
        assert(r.station_ids@.map_values(|e: (String, u32)| (e.0@, e.1)) =~= Seq::<(Seq<char>, u32)>::empty());
        r
    }

    /// The station id of `vehicle_id`: the one it was given before, or else the next id, which
    /// is then recorded for it.
    pub fn station_id_for(&mut self, vehicle_id: &str) -> (id: u32)
        requires
            old(self).well_formed(),
        ensures
            final(self).well_formed(),
            final(self).assigned_in_order(),
            registered_id(final(self).known(), vehicle_id@) == Some(id),
            match registered_id(old(self).known(), vehicle_id@) {
                Some(known_id) => {
                    &&& id == known_id
                    &&& final(self).known() == old(self).known()
                    &&& final(self).next_id() == old(self).next_id()
                },
                None => {
                    &&& id == old(self).next_id()
                    &&& final(self).known() == old(self).known().push((vehicle_id@, id))
                    &&& final(self).next_id() == nth_station_id(old(self).known().len() + 1int)
                },
            },
    {
        let vehicle = String::from_str(vehicle_id);
        let mut i: usize = 0;
        while i < self.station_ids.len()
            invariant
                i <= self.station_ids@.len(),
                vehicle@ == vehicle_id@,
                self.well_formed(),
                forall|j: int| 0 <= j < i ==> self.station_ids@[j].0@ != vehicle_id@,
            decreases self.station_ids.len() - i,
        {
            if self.station_ids[i].0 == vehicle {
                let id = self.station_ids[i].1;
                proof {
                    assert(self.known()[i as int].0 == vehicle_id@);
                    let k = choose|k: int| 0 <= k < self.known().len() && #[trigger] self.known()[k].0 == vehicle_id@;
                    if k != i {
                        assert(self.station_ids@[k].0@ == self.station_ids@[i as int].0@);
                    }
                }
                proof {
                    self.lemma_assigned_in_order();
                }
                return id;
            }
            i = i + 1;
        }
        let id = self.next_station_id;
        let ghost old_known = self.known();
        proof {
            assert forall|k: int| 0 <= k < old_known.len() implies #[trigger] old_known[k].0 != vehicle_id@ by {
                assert(old_known[k].0 == self.station_ids@[k].0@);
            }
        }
        let next = self.next_station_id.wrapping_add(1);
        self.station_ids.push((vehicle, id));
        self.next_station_id = next;
        proof {
            assert(self.known() =~= old_known.push((vehicle_id@, id)));
            self.lemma_assigned_in_order();
            let last = old_known.len() as int;
            assert(self.known()[last].0 == vehicle_id@);
            let k = choose|k: int| 0 <= k < self.known().len() && #[trigger] self.known()[k].0 == vehicle_id@;
            if k != last {
                assert(self.known()[k].0 != self.known()[last].0);
            }
        }
        id
    }
}

/// Vehicles registered in turn get distinct ids, as long as no more than 2^32 of them are known.
pub proof fn law_station_ids_distinct(r: StationRegistry, i: int, j: int)
    requires
        r.assigned_in_order(),
        0 <= i < j < r.known().len(),
        r.known().len() <= 0x1_0000_0000,
    ensures
        r.known()[i].1 != r.known()[j].1,
{
    assert(r.known()[i].1 == nth_station_id(i));
    assert(r.known()[j].1 == nth_station_id(j));
}

} // verus!
