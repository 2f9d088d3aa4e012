use vstd::prelude::*;

use crate::text::text_eq;

verus! {

/// A record that a run has handled.
#[derive(Debug)]
pub struct ProcessedRecord {
    pub key: String,
    pub timestamp: String,
    /// What was done: `skipped` or `updated`.
    pub action: String,
}

pub open spec fn record_view(r: ProcessedRecord) -> (Seq<char>, Seq<char>, Seq<char>) {
    (r.key@, r.timestamp@, r.action@)
}

/// The records handled so far, without repeats.
#[derive(Debug)]
pub struct ProcessedRecords {
    pub processed: Vec<ProcessedRecord>,
}

impl View for ProcessedRecords {
    type V = Seq<(Seq<char>, Seq<char>, Seq<char>)>;

    open spec fn view(&self) -> Seq<(Seq<char>, Seq<char>, Seq<char>)> {
        self.processed@.map_values(|r: ProcessedRecord| record_view(r))
    }
}

/// Index of the first record with key `key`, or the length when none has it.
pub open spec fn first_with_key(s: Seq<(Seq<char>, Seq<char>, Seq<char>)>, key: Seq<char>, i: int) -> int
    decreases s.len() - i,
{
    if i < 0 || i >= s.len() {
        s.len() as int
    } else if s[i].0 == key {
        i
    } else {
        first_with_key(s, key, i + 1)
    }
}

impl ProcessedRecords {
    pub fn new() -> (r: ProcessedRecords)
        ensures
            r@ == Seq::<(Seq<char>, Seq<char>, Seq<char>)>::empty(),
    {
        let r = ProcessedRecords { processed: Vec::new() };
        assert(r@ =~= Seq::<(Seq<char>, Seq<char>, Seq<char>)>::empty());
        r
    }

    /// Adds a record unless an identical one is there already.
    pub fn add(&mut self, key: String, timestamp: String, action: String)
        ensures
            old(self)@.contains((key@, timestamp@, action@)) ==> final(self)@ == old(self)@,
            !old(self)@.contains((key@, timestamp@, action@)) ==> final(self)@ == old(self)@.push(
                (key@, timestamp@, action@),
            ),
    {
        let ghost item = (key@, timestamp@, action@);
        let mut i: usize = 0;
        while i < self.processed.len()
            invariant
                i <= self@.len(),
                self@ == old(self)@,
                item == (key@, timestamp@, action@),
                forall|j: int| 0 <= j < i ==> #[trigger] self@[j] != item,
            decreases self@.len() - i,
        {
            let r = &self.processed[i];
            if r.key == key && r.timestamp == timestamp && r.action == action {
                assert(self@[i as int] == item);
                return;
            }
            i = i + 1;
        }
        let ghost before = self@;
        self.processed.push(ProcessedRecord { key, timestamp, action });
        assert(self@ =~= before.push(item));
    }

    /// Whether some record has key `key`.
    pub fn is_processed(&self, key: &str) -> (r: bool)
        ensures
            r == exists|j: int| 0 <= j < self@.len() && #[trigger] self@[j].0 == key@,
    {
        let mut i: usize = 0;
        while i < self.processed.len()
            invariant
                i <= self@.len(),
                forall|j: int| 0 <= j < i ==> #[trigger] self@[j].0 != key@,
            decreases self@.len() - i,
        {
            if text_eq(self.processed[i].key.as_str(), key) {
                assert(self@[i as int].0 == key@);
                return true;
            }
            i = i + 1;
        }
        false
    }

    /// The action of the first record with key `key`.
    pub fn get_action(&self, key: &str) -> (r: Option<String>)
        ensures
            ({
                let k = first_with_key(self@, key@, 0);
                if k < self@.len() {
                    r matches Some(a) && a@ == self@[k].2
                } else {
                    r is None
                }
            }),
    {
        let mut i: usize = 0;
        while i < self.processed.len()
            invariant
                i <= self@.len(),
                first_with_key(self@, key@, 0) == first_with_key(self@, key@, i as int),
            decreases self@.len() - i,
        {
            if text_eq(self.processed[i].key.as_str(), key) {
                return Some(self.processed[i].action.clone());
            }
            i = i + 1;
        }
        None
    }
}

} // verus!
