//! The objects of a bucket listing and the order in which they are handled.

use vstd::prelude::*;

verus! {

/// One object of a bucket listing.
#[derive(Debug)]
pub struct ObjectRecord {
    /// The key under which the object is stored.
    pub key: String,
    /// The object's size in bytes.
    pub size: i64,
    /// When the object was last modified, in seconds since the epoch, where
    /// the listing says so.
    pub last_modified: Option<i64>,
}

/// What an [`ObjectRecord`] holds.
pub struct ObjectModel {
    pub key: Seq<char>,
    pub size: int,
    pub last_modified: Option<int>,
}

impl View for ObjectRecord {
    type V = ObjectModel;

    open spec fn view(&self) -> ObjectModel {
        ObjectModel {
            key: self.key@,
            size: self.size as int,
            last_modified: match self.last_modified {
                Some(t) => Some(t as int),
                None => None,
            },
        }
    }
}

/// What the records of a list hold, in the list's order.
pub open spec fn records_view(records: Seq<ObjectRecord>) -> Seq<ObjectModel> {
    records.map_values(|r: ObjectRecord| r@)
}

impl Clone for ObjectRecord {
    fn clone(&self) -> (copy: ObjectRecord)
        ensures
            copy@ == self@,
    {
        ObjectRecord { key: self.key.clone(), size: self.size, last_modified: self.last_modified }
    }
}

/// The direction in which objects are ordered by their time of modification.
#[derive(Clone, Copy, Debug, PartialEq, Eq, Structural)]
pub enum SortDirection {
    /// Oldest first.
    Ascending,
    /// Newest first.
    Descending,
}

impl SortDirection {
    /// The direction that a flag asks for: ascending unless the flag is
    /// given and false.
    pub open spec fn spec_from_flag(asc: Option<bool>) -> SortDirection {
        match asc {
            Some(false) => SortDirection::Descending,
            _ => SortDirection::Ascending,
        }
    }

    /// The direction that a flag asks for: ascending unless the flag is
    /// given and false.
    pub fn from_flag(asc: Option<bool>) -> (direction: SortDirection)
        ensures
            direction == Self::spec_from_flag(asc),
    {
        match asc {
            Some(false) => SortDirection::Descending,
            _ => SortDirection::Ascending,
        }
    }

    /// The factor by which a time is multiplied to give its place in the
    /// order: one for ascending, minus one for descending.
    pub open spec fn sign(self) -> int {
        match self {
            SortDirection::Ascending => 1,
            SortDirection::Descending => -1,
        }
    }

    /// The place of the time `seconds` in the order: the time itself when
    /// ascending, its negation when descending.
    pub open spec fn signed(self, seconds: int) -> int {
        self.sign() * seconds
    }

    /// Whether the time `first` comes strictly before the time `second` in
    /// this direction.
    pub fn precedes(self, first: i64, second: i64) -> (before: bool)
        ensures
            before == (self.signed(first as int) < self.signed(second as int)),
    {
        match self {
            SortDirection::Ascending => first < second,
            SortDirection::Descending => first > second,
        }
    }
}

/// The key by which a record is ordered: its time of modification, signed by
/// the direction. A record without a time has no place in the order; zero
/// stands in for it here.
pub open spec fn sort_key(record: ObjectModel, direction: SortDirection) -> int {
    match record.last_modified {
        Some(seconds) => direction.signed(seconds),
        None => 0,
    }
}

} // verus!
