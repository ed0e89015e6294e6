//! The ordered collection of captured records.

use crate::record::{Data, DataView};
use std::collections::VecDeque;
use vstd::prelude::*;

verus! {

/// Captured records in the order of their capture: appended at the tail,
/// taken from the head or removed at any position.
#[derive(Debug)]
pub struct ClipboardQueue {
    items: VecDeque<Data>,
}

/// Whether every record of `q` is well formed.
pub open spec fn all_wf(q: Seq<DataView>) -> bool {
    forall|i: int| 0 <= i < q.len() ==> (#[trigger] q[i]).wf()
}

/// The queue `q` after `record` was appended to it.
pub open spec fn after_push(q: Seq<DataView>, record: DataView) -> Seq<DataView> {
    q.push(record)
}

/// The record that taking from the head of `q` yields, if there is one.
pub open spec fn head_of(q: Seq<DataView>) -> Option<DataView> {
    if q.len() == 0 {
        None
    } else {
        Some(q.first())
    }
}

/// The queue `q` after its head was taken. An empty queue stays empty.
pub open spec fn after_pop(q: Seq<DataView>) -> Seq<DataView> {
    if q.len() == 0 {
        q
    } else {
        q.drop_first()
    }
}

/// The queue `q` after the record at `index` was removed. An index that no
/// record has leaves the queue as it is.
pub open spec fn after_remove(q: Seq<DataView>, index: int) -> Seq<DataView> {
    if 0 <= index < q.len() {
        q.remove(index)
    } else {
        q
    }
}

/// The queue `q` after the records of `records` were appended one by one.
pub open spec fn after_push_all(q: Seq<DataView>, records: Seq<DataView>) -> Seq<DataView>
    decreases records.len(),
{
    if records.len() == 0 {
        q
    } else {
        after_push_all(after_push(q, records.first()), records.drop_first())
    }
}

/// The records that taking from the head of `q` `n` times yields, in the
/// order in which they come. Taking from an empty queue yields nothing.
pub open spec fn taken(q: Seq<DataView>, n: nat) -> Seq<DataView>
    decreases n,
{
    if n == 0 {
        Seq::empty()
    } else {
        match head_of(q) {
            Some(record) => seq![record] + taken(after_pop(q), (n - 1) as nat),
            None => taken(after_pop(q), (n - 1) as nat),
        }
    }
}

/// The queue `q` after its head was taken `n` times.
pub open spec fn after_pops(q: Seq<DataView>, n: nat) -> Seq<DataView>
    decreases n,
{
    if n == 0 {
        q
    } else {
        after_pops(after_pop(q), (n - 1) as nat)
    }
}

/// Appending records one by one puts them behind what the queue held, in
/// the order in which they came.
pub proof fn lemma_push_all_appends(q: Seq<DataView>, records: Seq<DataView>)
    ensures
        after_push_all(q, records) == q + records,
    decreases records.len(),
{
    if records.len() == 0 {
        assert(q + records =~= q);
    } else {
        lemma_push_all_appends(after_push(q, records.first()), records.drop_first());
        assert(q.push(records.first()) + records.drop_first() =~= q + records);
    }
}

/// Taking `n` records from a queue that holds at least as many yields its
/// first `n` records in their order and leaves the rest.
pub proof fn lemma_pops_take_prefix(q: Seq<DataView>, n: nat)
    requires
        n <= q.len(),
    ensures
        taken(q, n) == q.take(n as int),
        after_pops(q, n) == q.skip(n as int),
    decreases n,
{
    if n == 0 {
        assert(q.take(0) =~= Seq::<DataView>::empty());
        assert(q.skip(0) =~= q);
    } else {
        lemma_pops_take_prefix(q.drop_first(), (n - 1) as nat);
        assert(seq![q.first()] + q.drop_first().take(n - 1) =~= q.take(n as int));
        assert(q.drop_first().skip(n - 1) =~= q.skip(n as int));
    }
}

/// First in, first out: records appended to an empty queue and then taken,
/// as many times as there are records, come back in the order in which they
/// were appended, and the queue is empty again.
pub proof fn law_fifo(records: Seq<DataView>)
    ensures
        taken(after_push_all(Seq::empty(), records), records.len()) == records,
        after_pops(after_push_all(Seq::empty(), records), records.len()) == Seq::<
            DataView,
        >::empty(),
{
    lemma_push_all_appends(Seq::empty(), records);
    assert(Seq::<DataView>::empty() + records =~= records);
    lemma_pops_take_prefix(records, records.len());
    assert(records.take(records.len() as int) =~= records);
    assert(records.skip(records.len() as int) =~= Seq::<DataView>::empty());
}

/// First in, first out, for a queue that already holds records: what is
/// appended comes out after what was there, each part in its own order.
pub proof fn law_fifo_behind_earlier(q: Seq<DataView>, records: Seq<DataView>)
    ensures
        taken(after_push_all(q, records), q.len() + records.len()) == q + records,
        after_pops(after_push_all(q, records), q.len() + records.len()) == Seq::<
            DataView,
        >::empty(),
{
    lemma_push_all_appends(q, records);
    let all = q + records;
    lemma_pops_take_prefix(all, all.len());
    assert(all.take(all.len() as int) =~= all);
    assert(all.skip(all.len() as int) =~= Seq::<DataView>::empty());
}

/// Taking from an empty queue yields nothing and leaves it empty, however
/// often it is tried.
pub proof fn law_empty_stays_empty(n: nat)
    ensures
        head_of(Seq::<DataView>::empty()) is None,
        after_pop(Seq::<DataView>::empty()) == Seq::<DataView>::empty(),
        taken(Seq::<DataView>::empty(), n) == Seq::<DataView>::empty(),
        after_pops(Seq::<DataView>::empty(), n) == Seq::<DataView>::empty(),
    decreases n,
{
    if n > 0 {
        law_empty_stays_empty((n - 1) as nat);
    }
}

impl View for ClipboardQueue {
    type V = Seq<DataView>;

    closed spec fn view(&self) -> Seq<DataView> {
        self.items@.map_values(|d: Data| d@)
    }
}

impl ClipboardQueue {
    /// The empty queue.
    pub fn new() -> (queue: ClipboardQueue)
        ensures
            queue@ == Seq::<DataView>::empty(),
    {
        let queue = ClipboardQueue { items: VecDeque::new() };
        assert(queue@ =~= Seq::<DataView>::empty());
        queue
    }

    /// Number of records in the queue.
    pub fn len(&self) -> (n: usize)
        ensures
            n == self@.len(),
    {
        self.items.len()
    }

    /// Whether the queue holds no record.
    pub fn is_empty(&self) -> (empty: bool)
        ensures
            empty == (self@.len() == 0),
    {
        self.items.len() == 0
    }

    /// Appends `record` at the tail. Nothing is compared: whether a record
    /// is new is decided before it gets here.
    pub fn push_back(&mut self, record: Data)
        ensures
            final(self)@ == after_push(old(self)@, record@),
    {
        let ghost before = self.items@;
        self.items.push_back(record);
        assert(self.items@.map_values(|d: Data| d@) =~= before.map_values(|d: Data| d@).push(
            record@,
        ));
    }

    /// Takes the oldest record, or nothing from an empty queue, which stays
    /// empty.
    pub fn pop_front(&mut self) -> (head: Option<Data>)
        ensures
            final(self)@ == after_pop(old(self)@),
            match head {
                Some(record) => head_of(old(self)@) == Some(record@) && record.wf(),
                None => head_of(old(self)@) is None,
            },
    {
        let ghost before = self.items@;
        let head = self.items.pop_front();
        proof {
            if before.len() > 0 {
                assert(self.items@.map_values(|d: Data| d@) =~= before.map_values(
                    |d: Data| d@,
                ).drop_first());
            }
            match &head {
                Some(record) => {
                    use_type_invariant(record);
                },
                None => {},
            }
        }
        head
    }

    /// Removes the record at `index`. Does nothing where the queue has no
    /// such position, as when it shrank since the index was read.
    pub fn remove_at(&mut self, index: usize)
        ensures
            final(self)@ == after_remove(old(self)@, index as int),
    {
        let ghost before = self.items@;
        let removed = self.items.remove(index);
        proof {
            if index < before.len() {
                assert(self.items@.map_values(|d: Data| d@) =~= before.map_values(
                    |d: Data| d@,
                ).remove(index as int));
            }
        }
    }

    /// Removes every record.
    pub fn clear(&mut self)
        ensures
            final(self)@ == Seq::<DataView>::empty(),
    {
        self.items.clear();
        assert(self.items@.map_values(|d: Data| d@) =~= Seq::<DataView>::empty());
    }

    /// A copy of the record at `index`, if the queue has that position.
    pub fn get(&self, index: usize) -> (record: Option<Data>)
        ensures
            match record {
                Some(r) => index < self@.len() && r@ == self@[index as int] && r.wf(),
                None => index >= self@.len(),
            },
    {
        if index < self.items.len() {
            Some(self.items[index].duplicate())
        } else {
            None
        }
    }

    /// Copies of all records, oldest first, for display.
    pub fn snapshot(&self) -> (records: Vec<Data>)
        ensures
            records@.map_values(|d: Data| d@) == self@,
            all_wf(self@),
    {
        let mut records: Vec<Data> = Vec::new();
        let n = self.items.len();
        let mut i: usize = 0;
        while i < n
            invariant
                n == self.items@.len(),
                i <= n,
                records@.len() == i,
                forall|k: int| 0 <= k < i ==> (#[trigger] records@[k])@ == self.items@[k]@,
                forall|k: int| 0 <= k < i ==> (#[trigger] self.items@[k])@.wf(),
            decreases n - i,
        {
            records.push(self.items[i].duplicate());
            i += 1;
        }
        assert(records@.map_values(|d: Data| d@) =~= self@);
        records
    }
}

} // verus!
