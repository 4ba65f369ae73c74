//! Collecting objects by their time of modification.
//!
//! A [`ResultSorter`] keeps one object for each time of modification, ordered
//! by that time in its direction. An object that is added under a time that is
//! taken replaces the object that held it. An object without a time is not
//! kept.

use crate::object_record::records_view;
use crate::object_record::sort_key;
use crate::object_record::ObjectModel;
use crate::object_record::ObjectRecord;
use crate::object_record::SortDirection;
use vstd::prelude::*;

verus! {

/// The records whose key lies below `key`.
pub open spec fn sorts_before(direction: SortDirection, key: int) -> spec_fn(ObjectModel) -> bool {
    |r: ObjectModel| sort_key(r, direction) < key
}

/// The records whose key lies above `key`.
pub open spec fn sorts_after(direction: SortDirection, key: int) -> spec_fn(ObjectModel) -> bool {
    |r: ObjectModel| sort_key(r, direction) > key
}

/// A store holds records that all have a time, in strictly increasing order
/// of their keys: no two of them share a time.
pub open spec fn is_store(store: Seq<ObjectModel>, direction: SortDirection) -> bool {
    &&& forall|i: int| 0 <= i < store.len() ==> (#[trigger] store[i]).last_modified is Some
    &&& forall|i: int, j: int|
        0 <= i < j < store.len() ==> sort_key(#[trigger] store[i], direction) < sort_key(
            #[trigger] store[j],
            direction,
        )
}

/// The store after `record` was added: the records that sort before it, then
/// the record, then the records that sort after it. A record that held the
/// same time is gone. A record without a time changes nothing.
pub open spec fn store_insert(
    store: Seq<ObjectModel>,
    record: ObjectModel,
    direction: SortDirection,
) -> Seq<ObjectModel> {
    if record.last_modified is None {
        store
    } else {
        let key = sort_key(record, direction);
        store.filter(sorts_before(direction, key)).push(record) + store.filter(
            sorts_after(direction, key),
        )
    }
}

/// The store after the records of `records` were added to an empty one, one
/// after the other.
pub open spec fn store_of(records: Seq<ObjectModel>, direction: SortDirection) -> Seq<ObjectModel>
    decreases records.len(),
{
    if records.len() == 0 {
        Seq::<ObjectModel>::empty()
    } else {
        store_insert(store_of(records.drop_last(), direction), records.last(), direction)
    }
}

/// A filter whose predicate holds of the first `i` items and of no later one
/// keeps exactly the first `i` items.
pub proof fn lemma_filter_keeps_prefix<A>(s: Seq<A>, pred: spec_fn(A) -> bool, i: int)
    requires
        0 <= i <= s.len(),
        forall|j: int| 0 <= j < i ==> pred(#[trigger] s[j]),
        forall|j: int| i <= j < s.len() ==> !pred(#[trigger] s[j]),
    ensures
        s.filter(pred) == s.take(i),
    decreases s.len(),
{
    reveal(Seq::filter);
    if s.len() > 0 {
        let shorter = s.drop_last();
        if i == s.len() {
            lemma_filter_keeps_prefix(shorter, pred, i - 1);
            assert(shorter.take(i - 1) =~= shorter);
            assert(shorter.push(s.last()) =~= s.take(i));
        } else {
            lemma_filter_keeps_prefix(shorter, pred, i);
            assert(shorter.take(i) =~= s.take(i));
        }
    } else {
        assert(s.take(i) =~= s);
    }
}

/// A filter whose predicate holds of no item among the first `i` and of every
/// later one keeps exactly the items from the `i`-th on.
pub proof fn lemma_filter_keeps_suffix<A>(s: Seq<A>, pred: spec_fn(A) -> bool, i: int)
    requires
        0 <= i <= s.len(),
        forall|j: int| 0 <= j < i ==> !pred(#[trigger] s[j]),
        forall|j: int| i <= j < s.len() ==> pred(#[trigger] s[j]),
    ensures
        s.filter(pred) == s.skip(i),
    decreases s.len(),
{
    reveal(Seq::filter);
    if s.len() > 0 {
        let shorter = s.drop_last();
        if i == s.len() {
            lemma_filter_keeps_suffix(shorter, pred, i - 1);
            assert(shorter.skip(i - 1) =~= s.skip(i));
        } else {
            lemma_filter_keeps_suffix(shorter, pred, i);
            assert(shorter.skip(i).push(s.last()) =~= s.skip(i));
        }
    } else {
        assert(s.skip(i) =~= s);
    }
}

/// The place in a store at which a key belongs: every record before it has a
/// smaller key, and no record from it on has one.
pub proof fn lemma_place_exists(store: Seq<ObjectModel>, direction: SortDirection, key: int) -> (i:
    int)
    requires
        is_store(store, direction),
    ensures
        0 <= i <= store.len(),
        forall|j: int| 0 <= j < i ==> sort_key(#[trigger] store[j], direction) < key,
        forall|j: int| i <= j < store.len() ==> sort_key(#[trigger] store[j], direction) >= key,
    decreases store.len(),
{
    if store.len() == 0 {
        0
    } else if sort_key(store.last(), direction) < key {
        store.len() as int
    } else {
        let shorter = store.drop_last();
        assert forall|j: int| 0 <= j < shorter.len() implies (
        #[trigger] shorter[j]).last_modified is Some by {
            assert(shorter[j] == store[j]);
        }
        assert forall|a: int, b: int| 0 <= a < b < shorter.len() implies sort_key(
            #[trigger] shorter[a],
            direction,
        ) < sort_key(#[trigger] shorter[b], direction) by {
            assert(shorter[a] == store[a]);
            assert(shorter[b] == store[b]);
        }
        let i = lemma_place_exists(shorter, direction, key);
        assert forall|j: int| 0 <= j < i implies sort_key(#[trigger] store[j], direction)
            < key by {
            assert(shorter[j] == store[j]);
        }
        assert forall|j: int| i <= j < store.len() implies sort_key(
            #[trigger] store[j],
            direction,
        ) >= key by {
            if j < shorter.len() {
                assert(shorter[j] == store[j]);
            }
        }
        i
    }
}

/// What adding a record with a time does to a store, given the place `i` at
/// which its key belongs: the record stands at `i`, the records before it
/// stay, and after it come the records that stood from `i` on, but for one at
/// `i` that held the same time. The result is a store again.
pub proof fn lemma_store_insert_at(
    store: Seq<ObjectModel>,
    record: ObjectModel,
    direction: SortDirection,
    i: int,
)
    requires
        is_store(store, direction),
        record.last_modified is Some,
        0 <= i <= store.len(),
        forall|j: int|
            0 <= j < i ==> sort_key(#[trigger] store[j], direction) < sort_key(record, direction),
        forall|j: int|
            i <= j < store.len() ==> sort_key(#[trigger] store[j], direction) >= sort_key(
                record,
                direction,
            ),
    ensures
        is_store(store_insert(store, record, direction), direction),
        i < store.len() && sort_key(store[i], direction) == sort_key(record, direction)
            ==> store_insert(store, record, direction) == store.update(i, record),
        !(i < store.len() && sort_key(store[i], direction) == sort_key(record, direction))
            ==> store_insert(store, record, direction) == store.insert(i, record),
{
    let key = sort_key(record, direction);
    let taken = i < store.len() && sort_key(store[i], direction) == key;
    let rest = if taken {
        i + 1
    } else {
        i
    };
    assert forall|j: int| rest <= j < store.len() implies sort_key(
        #[trigger] store[j],
        direction,
    ) > key by {
        if taken && j > i {
            assert(sort_key(store[i], direction) < sort_key(store[j], direction));
        }
    }
    lemma_filter_keeps_prefix(store, sorts_before(direction, key), i);
    lemma_filter_keeps_suffix(store, sorts_after(direction, key), rest);
    let result = store_insert(store, record, direction);
    assert(result == store.take(i).push(record) + store.skip(rest));
    if taken {
        assert(result =~= store.update(i, record));
    } else {
        assert(result =~= store.insert(i, record));
    }
    assert forall|a: int, b: int| 0 <= a < b < result.len() implies sort_key(
        #[trigger] result[a],
        direction,
    ) < sort_key(#[trigger] result[b], direction) by {
        let before_a = if a < i {
            a
        } else {
            a - (i + 1) + rest
        };
        let before_b = if b < i {
            b
        } else {
            b - (i + 1) + rest
        };
        if a != i {
            assert(result[a] == store[before_a]);
        }
        if b != i {
            assert(result[b] == store[before_b]);
        }
    }
    assert forall|a: int| 0 <= a < result.len() implies (
    #[trigger] result[a]).last_modified is Some by {
        let before_a = if a < i {
            a
        } else {
            a - (i + 1) + rest
        };
        if a != i {
            assert(result[a] == store[before_a]);
        }
    }
}

/// What a store holds after a record with a time was added: the record, and
/// every record that was there under another time. A record that held the
/// same time is gone.
pub proof fn lemma_store_insert_members(
    store: Seq<ObjectModel>,
    record: ObjectModel,
    direction: SortDirection,
    other: ObjectModel,
)
    requires
        is_store(store, direction),
        record.last_modified is Some,
    ensures
        store_insert(store, record, direction).contains(other) <==> (other == record || (
        store.contains(other) && sort_key(other, direction) != sort_key(record, direction))),
{
    let key = sort_key(record, direction);
    let place = lemma_place_exists(store, direction, key);
    lemma_store_insert_at(store, record, direction, place);
    let result = store_insert(store, record, direction);
    let taken = place < store.len() && sort_key(store[place], direction) == key;
    assert(result[place] == record);
    if result.contains(other) && other != record {
        let at = choose|at: int| 0 <= at < result.len() && result[at] == other;
        let before = if taken || at < place {
            at
        } else {
            at - 1
        };
        assert(store[before] == other);
        if before < place {
            assert(sort_key(store[before], direction) < key);
        } else if taken {
            assert(sort_key(store[place], direction) < sort_key(store[before], direction));
        } else if place < before {
            assert(sort_key(store[place], direction) < sort_key(store[before], direction));
        }
    }
    if store.contains(other) && sort_key(other, direction) != key {
        let before = choose|before: int| 0 <= before < store.len() && store[before] == other;
        let at = if taken || before < place {
            before
        } else {
            before + 1
        };
        assert(result[at] == other);
    }
}

/// Adding a record to a store gives a store.
pub proof fn lemma_store_insert_keeps_store(
    store: Seq<ObjectModel>,
    record: ObjectModel,
    direction: SortDirection,
)
    requires
        is_store(store, direction),
    ensures
        is_store(store_insert(store, record, direction), direction),
{
    if record.last_modified is Some {
        let i = lemma_place_exists(store, direction, sort_key(record, direction));
        lemma_store_insert_at(store, record, direction, i);
    }
}

/// Whatever is added, one after the other, the result is a store: its
/// records have a time and stand in strictly increasing order of their keys.
pub proof fn lemma_store_of_is_store(records: Seq<ObjectModel>, direction: SortDirection)
    ensures
        is_store(store_of(records, direction), direction),
    decreases records.len(),
{
    if records.len() > 0 {
        lemma_store_of_is_store(records.drop_last(), direction);
        lemma_store_insert_keeps_store(
            store_of(records.drop_last(), direction),
            records.last(),
            direction,
        );
    }
}

/// The time of modification of a record that has one.
pub open spec fn time_of(record: ObjectModel) -> int
    recommends
        record.last_modified is Some,
{
    record.last_modified->Some_0
}

/// Every record of `records` has a time of modification, and no two of them
/// have the same.
pub open spec fn has_distinct_times(records: Seq<ObjectModel>) -> bool {
    &&& forall|i: int| 0 <= i < records.len() ==> (#[trigger] records[i]).last_modified is Some
    &&& forall|i: int, j: int|
        0 <= i < j < records.len() ==> time_of(#[trigger] records[i]) != time_of(
            #[trigger] records[j],
        )
}

/// Records with distinct times of modification all come out, and in order of
/// time: ascending, each is older than the next; descending, each is newer
/// than the next.
pub proof fn lemma_distinct_times_come_out_in_order(
    records: Seq<ObjectModel>,
    direction: SortDirection,
)
    requires
        has_distinct_times(records),
    ensures
        store_of(records, direction).len() == records.len(),
        forall|i: int|
            0 <= i < records.len() ==> store_of(records, direction).contains(#[trigger] records[i]),
        forall|i: int|
            0 <= i < records.len() ==> records.contains(#[trigger] store_of(records, direction)[i]),
        direction == SortDirection::Ascending ==> forall|i: int, j: int|
            0 <= i < j < records.len() ==> time_of(#[trigger] store_of(records, direction)[i])
                < time_of(#[trigger] store_of(records, direction)[j]),
        direction == SortDirection::Descending ==> forall|i: int, j: int|
            0 <= i < j < records.len() ==> time_of(#[trigger] store_of(records, direction)[i])
                > time_of(#[trigger] store_of(records, direction)[j]),
    decreases records.len(),
{
    let out = store_of(records, direction);
    lemma_store_of_is_store(records, direction);
    if records.len() > 0 {
        let earlier = records.drop_last();
        let record = records.last();
        let kept = store_of(earlier, direction);
        assert forall|i: int| 0 <= i < earlier.len() implies (
        #[trigger] earlier[i]).last_modified is Some by {
            assert(earlier[i] == records[i]);
        }
        assert forall|i: int, j: int| 0 <= i < j < earlier.len() implies time_of(
            #[trigger] earlier[i],
        ) != time_of(#[trigger] earlier[j]) by {
            assert(earlier[i] == records[i]);
            assert(earlier[j] == records[j]);
        }
        lemma_distinct_times_come_out_in_order(earlier, direction);
        lemma_store_of_is_store(earlier, direction);
        let key = sort_key(record, direction);
        let place = lemma_place_exists(kept, direction, key);
        assert forall|k: int| 0 <= k < kept.len() implies sort_key(#[trigger] kept[k], direction)
            != key by {
            assert(earlier.contains(kept[k]));
            let source = choose|source: int| 0 <= source < earlier.len() && earlier[source] == kept[k];
            assert(earlier[source] == records[source]);
            assert(time_of(records[source]) != time_of(records[records.len() - 1]));
        }
        lemma_store_insert_at(kept, record, direction, place);
        assert(out == kept.insert(place, record));
        assert forall|i: int| 0 <= i < records.len() implies out.contains(
            #[trigger] records[i],
        ) by {
            if i == records.len() - 1 {
                assert(out[place] == records[i]);
            } else {
                assert(earlier[i] == records[i]);
                assert(kept.contains(earlier[i]));
                let at = choose|at: int| 0 <= at < kept.len() && kept[at] == earlier[i];
                if at < place {
                    assert(out[at] == records[i]);
                } else {
                    assert(out[at + 1] == records[i]);
                }
            }
        }
        assert forall|i: int| 0 <= i < records.len() implies records.contains(
            #[trigger] out[i],
        ) by {
            if i == place {
                assert(records[records.len() - 1] == out[i]);
            } else {
                let at = if i < place {
                    i
                } else {
                    i - 1
                };
                assert(out[i] == kept[at]);
                assert(earlier.contains(kept[at]));
                let source = choose|source: int|
                    0 <= source < earlier.len() && earlier[source] == kept[at];
                assert(records[source] == out[i]);
            }
        }
    }
    assert forall|i: int, j: int| 0 <= i < j < records.len() implies (direction
        == SortDirection::Ascending ==> time_of(#[trigger] out[i]) < time_of(#[trigger] out[j]))
        && (direction == SortDirection::Descending ==> time_of(out[i]) > time_of(out[j])) by {
        assert(sort_key(out[i], direction) < sort_key(out[j], direction));
    }
}

/// Collects objects and keeps them ordered by their time of modification.
pub struct ResultSorter {
    results: Vec<ObjectRecord>,
    direction: SortDirection,
}

impl View for ResultSorter {
    type V = Seq<ObjectModel>;

    /// The records that are kept, in the order in which they come out.
    closed spec fn view(&self) -> Seq<ObjectModel> {
        records_view(self.results@)
    }
}

impl ResultSorter {
    /// The direction in which the records are ordered.
    pub closed spec fn direction(&self) -> SortDirection {
        self.direction
    }

    /// What is kept is a store in the sorter's direction.
    pub open spec fn well_formed(&self) -> bool {
        is_store(self@, self.direction())
    }

    /// A sorter that holds nothing yet.
    pub fn new(direction: SortDirection) -> (sorter: ResultSorter)
        ensures
            sorter@ == Seq::<ObjectModel>::empty(),
            sorter.direction() == direction,
            sorter.well_formed(),
    {
        let sorter = ResultSorter { results: Vec::new(), direction };
        assert(sorter@ =~= Seq::<ObjectModel>::empty());
        sorter
    }

    /// Whether the record kept at `i` sorts strictly before the time
    /// `seconds`.
    fn kept_precedes(&self, i: usize, seconds: i64) -> (before: bool)
        requires
            self.well_formed(),
            i < self@.len(),
        ensures
            before == (sort_key(self@[i as int], self.direction()) < self.direction().signed(
                seconds as int,
            )),
    {
        assert(self@[i as int] == self.results@[i as int]@);
        match self.results[i].last_modified {
            Some(kept) => self.direction.precedes(kept, seconds),
            None => false,
        }
    }

    /// Whether the time `seconds` sorts strictly before the record kept at
    /// `i`.
    fn precedes_kept(&self, seconds: i64, i: usize) -> (before: bool)
        requires
            self.well_formed(),
            i < self@.len(),
        ensures
            before == (self.direction().signed(seconds as int) < sort_key(
                self@[i as int],
                self.direction(),
            )),
    {
        assert(self@[i as int] == self.results@[i as int]@);
        match self.results[i].last_modified {
            Some(kept) => self.direction.precedes(seconds, kept),
            None => false,
        }
    }

    /// Adds an object. One without a time of modification is dropped; one
    /// whose time is taken replaces the object that held it.
    pub fn sort_results(&mut self, obj: ObjectRecord)
        requires
            old(self).well_formed(),
        ensures
            final(self).well_formed(),
            final(self).direction() == old(self).direction(),
            final(self)@ == store_insert(old(self)@, obj@, old(self).direction()),
    {
        let seconds: i64 = match obj.last_modified {
            Some(seconds) => seconds,
            None => {
                return ;
            },
        };
        let ghost before = self@;
        let ghost key = sort_key(obj@, self.direction());
        let mut i: usize = 0;
        while i < self.results.len() && self.kept_precedes(i, seconds)
            invariant
                self.well_formed(),
                self@ == before,
                self.direction() == old(self).direction(),
                key == self.direction().signed(seconds as int),
                i <= self.results.len(),
                self.results.len() == before.len(),
                forall|j: int| 0 <= j < i ==> sort_key(#[trigger] before[j], self.direction()) < key,
            decreases self.results.len() - i,
        {
            i += 1;
        }
        let taken = i < self.results.len() && !self.precedes_kept(seconds, i);
        proof {
            assert forall|j: int| i <= j < before.len() implies sort_key(
                #[trigger] before[j],
                self.direction(),
            ) >= key by {
                if j > i {
                    assert(sort_key(before[i as int], self.direction()) < sort_key(
                        before[j],
                        self.direction(),
                    ));
                }
            }
            lemma_store_insert_at(before, obj@, self.direction(), i as int);
        }
        if taken {
            self.results.set(i, obj);
            assert(self@ =~= before.update(i as int, obj@));
        } else {
            self.results.insert(i, obj);
            assert(self@ =~= before.insert(i as int, obj@));
        }
    }

    /// The objects that are kept, ordered by their time of modification in
    /// the sorter's direction. The sorter keeps them.
    pub fn get_sorted(&mut self) -> (values: Vec<ObjectRecord>)
        requires
            old(self).well_formed(),
        ensures
            records_view(values@) == old(self)@,
            final(self)@ == old(self)@,
            final(self).direction() == old(self).direction(),
            final(self).well_formed(),
    {
        let mut values: Vec<ObjectRecord> = Vec::new();
        let mut i: usize = 0;
        while i < self.results.len()
            invariant
                self@ == old(self)@,
                self.direction() == old(self).direction(),
                i <= self.results.len(),
                values@.len() == i,
                forall|j: int| 0 <= j < i ==> (#[trigger] values@[j])@ == self.results@[j]@,
            decreases self.results.len() - i,
        {
            values.push(self.results[i].clone());
            i += 1;
        }
        assert(records_view(values@) =~= self@);
        values
    }
}

} // verus!
