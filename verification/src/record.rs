//! The records of the table and the store that holds them.

use vstd::prelude::*;

verus! {

/// One data row: an identifier, a label and a numeric value. A record is
/// known by its position in the store, not by `id`, so two records may share
/// an `id`.
#[derive(Debug)]
pub struct Record {
    pub id: i32,
    pub name: String,
    pub value: i64,
}

/// What a record holds, as plain values.
pub struct RecordView {
    pub id: int,
    pub name: Seq<char>,
    pub value: int,
}

impl View for Record {
    type V = RecordView;

    open spec fn view(&self) -> RecordView {
        RecordView { id: self.id as int, name: self.name@, value: self.value as int }
    }
}

impl Record {
    pub fn new(id: i32, name: String, value: i64) -> (record: Record)
        ensures
            record@ == (RecordView { id: id as int, name: name@, value: value as int }),
    {
        Record { id, name, value }
    }
}

impl Clone for Record {
    fn clone(&self) -> (copy: Self)
        ensures
            copy == *self,
    {
        Record { id: self.id, name: self.name.clone(), value: self.value }
    }
}

/// The views of a sequence of records, position by position.
pub open spec fn record_views(records: Seq<Record>) -> Seq<RecordView> {
    records.map_values(|r: Record| r@)
}

/// The ordered, read-only list of records of a session. Nothing changes it
/// once it is made, so a position in it names the same record for ever.
#[derive(Debug)]
pub struct RecordStore {
    records: Vec<Record>,
}

impl View for RecordStore {
    type V = Seq<RecordView>;

    closed spec fn view(&self) -> Seq<RecordView> {
        record_views(self.records@)
    }
}

impl Clone for RecordStore {
    fn clone(&self) -> (copy: Self)
        ensures
            copy@ == self@,
    {
        let mut records: Vec<Record> = Vec::new();
        let mut index: usize = 0;
        while index < self.records.len()
            invariant
                index <= self.records.len(),
                records.len() == index,
                forall|i: int| 0 <= i < index ==> #[trigger] records[i] == self.records[i],
            decreases self.records.len() - index,
        {
            records.push(self.records[index].clone());
            index += 1;
        }
        RecordStore { records }
    }
}

impl RecordStore {
    /// A store that holds `records` in the order given.
    pub fn new(records: Vec<Record>) -> (store: RecordStore)
        ensures
            store@ == record_views(records@),
    {
        RecordStore { records }
    }

    /// The number of records.
    pub fn len(&self) -> (n: usize)
        ensures
            n == self@.len(),
    {
        self.records.len()
    }

    /// Whether the store holds no record.
    pub fn is_empty(&self) -> (empty: bool)
        ensures
            empty == (self@.len() == 0),
    {
        self.records.len() == 0
    }

    /// The record at `index`, if there is one.
    pub fn get(&self, index: usize) -> (record: Option<&Record>)
        ensures
            index < self@.len() ==> record.is_some() && record.unwrap()@ == self@[index as int],
            index >= self@.len() ==> record.is_none(),
    {
        if index < self.records.len() {
            Some(&self.records[index])
        } else {
            None
        }
    }

    /// All records, in order.
    pub fn records(&self) -> (all: &Vec<Record>)
        ensures
            record_views(all@) == self@,
    {
        &self.records
    }
}

} // verus!
