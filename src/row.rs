//! Rows as the store hands them out: named columns of timestamps and numbers.

use vstd::prelude::*;

verus! {

/// Largest magnitude of a store timestamp's local seconds: well beyond any
/// date that the store can hold.
pub const MAX_STORE_SECS: i64 = 10_000_000_000_000;

/// Largest magnitude of a UTC offset, in seconds (exclusive).
pub const MAX_OFFSET_SECS: i32 = 86_400;

/// Sub-second nanoseconds stay under this bound; values from one billion on
/// stand for a leap second.
pub const MAX_NANOS: u32 = 2_000_000_000;

/// A timestamp as the store writes it: a wall-clock time in some UTC offset.
///
/// `local_secs` counts the seconds of the wall-clock time as if it were UTC;
/// the instant it names lies `offset_secs` seconds earlier.
#[derive(Debug, Clone, Copy, PartialEq, Eq)]
pub struct StoreTime {
    local_secs: i64,
    nanos: u32,
    offset_secs: i32,
}

/// Milliseconds since the epoch of a wall-clock time in a UTC offset.
pub open spec fn epoch_ms_of(local_secs: int, nanos: int, offset_secs: int) -> int {
    (local_secs - offset_secs) * 1000 + nanos / 1_000_000
}

/// Whether the parts of a timestamp are within what a store timestamp holds.
pub open spec fn store_time_parts_ok(local_secs: int, nanos: int, offset_secs: int) -> bool {
    -MAX_STORE_SECS <= local_secs <= MAX_STORE_SECS
        && 0 <= nanos < MAX_NANOS
        && -MAX_OFFSET_SECS < offset_secs < MAX_OFFSET_SECS
}

impl StoreTime {
    #[verifier::type_invariant]
    spec fn parts_ok(self) -> bool {
        store_time_parts_ok(self.local_secs as int, self.nanos as int, self.offset_secs as int)
    }

    /// Milliseconds since the epoch of the instant that this timestamp names.
    pub closed spec fn epoch_ms(self) -> int {
        epoch_ms_of(self.local_secs as int, self.nanos as int, self.offset_secs as int)
    }

    /// The timestamp with these parts, if they are in range.
    pub fn new(local_secs: i64, nanos: u32, offset_secs: i32) -> (r: Option<StoreTime>)
        ensures
            r is Some <==> store_time_parts_ok(local_secs as int, nanos as int, offset_secs as int),
            r matches Some(t) ==> t.epoch_ms() == epoch_ms_of(
                local_secs as int,
                nanos as int,
                offset_secs as int,
            ),
    {
        if -MAX_STORE_SECS <= local_secs && local_secs <= MAX_STORE_SECS && nanos < MAX_NANOS
            && -MAX_OFFSET_SECS < offset_secs && offset_secs < MAX_OFFSET_SECS {
            Some(StoreTime { local_secs, nanos, offset_secs })
        } else {
            None
        }
    }

    /// Milliseconds since the epoch, whatever the offset.
    pub fn timestamp_millis(&self) -> (r: i64)
        ensures
            r == self.epoch_ms(),
    {
        proof {
            use_type_invariant(self);
        }
        (self.local_secs - self.offset_secs as i64) * 1000 + (self.nanos / 1_000_000) as i64
    }
}

/// One column value of a row.
#[derive(Debug, Clone, Copy, PartialEq, Eq)]
pub enum FieldValue {
    /// A timestamp.
    Time(StoreTime),
    /// A measured number, in hundredths of its unit.
    Number(i64),
    /// A value of any other kind, which no reading is taken from.
    Other,
}

/// The value of the last entry named `name`, if any.
pub open spec fn lookup(entries: Seq<(Seq<char>, FieldValue)>, name: Seq<char>) -> Option<FieldValue>
    decreases entries.len(),
{
    if entries.len() == 0 {
        None
    } else if entries.last().0 == name {
        Some(entries.last().1)
    } else {
        lookup(entries.drop_last(), name)
    }
}

/// The value of column `name` of a row, if it has one.
pub open spec fn column(row: Map<Seq<char>, FieldValue>, name: Seq<char>) -> Option<FieldValue> {
    if row.contains_key(name) {
        Some(row[name])
    } else {
        None
    }
}

/// One row of a query result: column values by name.
pub struct Row {
    entries: Vec<(String, FieldValue)>,
}

impl Row {
    /// The entries as names and values.
    pub closed spec fn named(self) -> Seq<(Seq<char>, FieldValue)> {
        self.entries@.map_values(|e: (String, FieldValue)| (e.0@, e.1))
    }
}

impl View for Row {
    type V = Map<Seq<char>, FieldValue>;

    closed spec fn view(&self) -> Map<Seq<char>, FieldValue> {
        Map::new(
            |k: Seq<char>| lookup(self.named(), k) is Some,
            |k: Seq<char>| lookup(self.named(), k)->Some_0,
        )
    }
}

impl Row {
    /// A row with no columns.
    pub fn new() -> (r: Row)
        ensures
            r@ == Map::<Seq<char>, FieldValue>::empty(),
    {
        let r = Row { entries: Vec::new() };
        assert(r@ =~= Map::<Seq<char>, FieldValue>::empty());
        r
    }

    /// Sets the column `name` to `value`, replacing what it held.
    pub fn insert(&mut self, name: String, value: FieldValue)
        ensures
            final(self)@ == old(self)@.insert(name@, value),
    {
        let ghost k = name@;
        self.entries.push((name, value));
        assert(self.named().drop_last() =~= old(self).named());
        assert(self@ =~= old(self)@.insert(k, value));
    }

    /// The value of the column `name`, if the row has one.
    pub fn get(&self, name: &str) -> (r: Option<FieldValue>)
        ensures
            r == column(self@, name@),
    {
        let key = String::from_str(name);
        let ghost named = self.named();
        let mut i: usize = self.entries.len();
        assert(named.take(i as int) =~= named);
        while i > 0
            invariant
                i <= self.entries.len(),
                named == self.named(),
                key@ == name@,
                lookup(named, name@) == lookup(named.take(i as int), name@),
            decreases i,
        {
            assert(named.take(i as int).drop_last() =~= named.take(i - 1));
            if self.entries[i - 1].0 == key {
                return Some(self.entries[i - 1].1);
            }
            i -= 1;
        }
        None
    }
}

} // verus!
