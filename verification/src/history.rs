//! Fixed-capacity ring of formatted sample records.
//!
//! A buffer keeps the most recent records, as many as its capacity. Once it
//! is full each new record takes the slot of the oldest one. Reading hands
//! the records out slot by slot, which after the first wrap is not the order
//! in which they arrived: the oldest record then sits at the slot that the
//! next write goes to.

use vstd::prelude::*;
use vstd::arithmetic::div_mod::{
    lemma_add_mod_noop,
    lemma_mod_bound,
    lemma_mod_sub_multiples_vanish,
    lemma_small_mod,
    lemma_sub_mod_noop,
};
use crate::text::texts;

verus! {

/// Number of records a buffer made by [`StateBuffer::new`] retains: one day
/// of samples taken every five minutes.
pub const MAX_ENTRIES: usize = 288;

/// What a buffer holds: the retained records in slot order, the slot the
/// next overwrite goes to, and the fixed capacity.
pub struct Ring {
    pub entries: Seq<Seq<char>>,
    pub next: nat,
    pub capacity: nat,
}

impl Ring {
    /// The ring with nothing in it.
    pub open spec fn empty(capacity: nat) -> Ring {
        Ring { entries: Seq::empty(), next: 0, capacity }
    }

    /// The ring after one more record: appended while below capacity,
    /// otherwise written over slot `next`. `next` advances modulo the
    /// capacity either way.
    pub open spec fn add(self, entry: Seq<char>) -> Ring {
        Ring {
            entries: if self.entries.len() < self.capacity {
                self.entries.push(entry)
            } else {
                self.entries.update(self.next as int, entry)
            },
            next: ((self.next + 1) % self.capacity) as nat,
            capacity: self.capacity,
        }
    }

    /// The retained records, oldest first: the slots from `next` to the end,
    /// then those before `next`, once the ring is full; the slots as they are
    /// until then.
    pub open spec fn in_order(self) -> Seq<Seq<char>> {
        if self.entries.len() < self.capacity {
            self.entries
        } else {
            self.entries.subrange(self.next as int, self.entries.len() as int)
                + self.entries.subrange(0, self.next as int)
        }
    }

    /// The ring that results from adding `records`, first to last, to an
    /// empty ring.
    pub open spec fn filled(capacity: nat, records: Seq<Seq<char>>) -> Ring
        decreases records.len(),
    {
        if records.len() == 0 {
            Ring::empty(capacity)
        } else {
            Ring::filled(capacity, records.drop_last()).add(records.last())
        }
    }
}

/// Two positions less than a capacity apart never share a slot.
proof fn lemma_distinct_slots(i: int, n: int, capacity: int)
    requires
        0 < capacity,
        0 <= i < n,
        n - i < capacity,
    ensures
        i % capacity != n % capacity,
{
    lemma_sub_mod_noop(n, i, capacity);
    lemma_small_mod((n - i) as nat, capacity as nat);
    lemma_small_mod(0, capacity as nat);
}

/// A ring filled from empty holds exactly the latest records, as many as fit,
/// each in the slot given by its position modulo the capacity.
///
/// After `n` adds the ring holds `min(n, capacity)` records, the next write
/// goes to slot `n % capacity`, and the record added at position `i` is
/// found at slot `i % capacity` as long as fewer than `capacity` adds came
/// after it. Every slot is accounted for that way, so an older record is
/// gone: its slot holds the one added `capacity` positions later.
pub proof fn lemma_ring_keeps_latest(capacity: nat, records: Seq<Seq<char>>)
    requires
        capacity > 0,
    ensures
        Ring::filled(capacity, records).capacity == capacity,
        Ring::filled(capacity, records).entries.len() == if records.len() <= capacity {
            records.len()
        } else {
            capacity
        },
        Ring::filled(capacity, records).next == records.len() % capacity,
        forall|i: int|
            0 <= i < records.len() && records.len() - i <= capacity ==> Ring::filled(
                capacity,
                records,
            ).entries[i % (capacity as int)] == #[trigger] records[i],
    decreases records.len(),
{
    let cap = capacity as int;
    if records.len() == 0 {
        lemma_small_mod(0, capacity);
    } else {
        let earlier = records.drop_last();
        let n = earlier.len() as int;
        let before = Ring::filled(capacity, earlier);
        let after = Ring::filled(capacity, records);
        lemma_ring_keeps_latest(capacity, earlier);
        assert(after == before.add(records.last()));
        assert(after.next == (n + 1) % cap) by {
            lemma_add_mod_noop(n, 1, cap);
            if cap > 1 {
                lemma_small_mod(1, capacity);
            }
        }
        assert forall|i: int| 0 <= i < records.len() && records.len() - i <= capacity implies
            after.entries[i % cap] == #[trigger] records[i] by {
            if n < cap {
                lemma_small_mod(i as nat, capacity);
            }
            if i < n {
                assert(records[i] == earlier[i]);
                lemma_distinct_slots(i, n, cap);
            }
        }
    }
}

/// Once a ring filled from empty is full, the next write goes to the slot of
/// the oldest record it holds, and an add changes that slot and no other.
pub proof fn lemma_add_evicts_oldest(capacity: nat, records: Seq<Seq<char>>, entry: Seq<char>)
    requires
        capacity > 0,
        records.len() >= capacity,
    ensures
        Ring::filled(capacity, records).next < capacity,
        Ring::filled(capacity, records).entries[Ring::filled(capacity, records).next as int]
            == records[records.len() - capacity],
        Ring::filled(capacity, records).add(entry).entries == Ring::filled(
            capacity,
            records,
        ).entries.update(Ring::filled(capacity, records).next as int, entry),
{
    let cap = capacity as int;
    let n = records.len() as int;
    lemma_ring_keeps_latest(capacity, records);
    lemma_mod_bound(n, cap);
    assert((n - cap) % cap == n % cap) by {
        lemma_mod_sub_multiples_vanish(n, cap);
    }
    assert(Ring::filled(capacity, records).entries[(n - cap) % cap] == records[n - cap]);
}

/// Read oldest first, a ring filled from empty gives the latest records in
/// the order in which they were added: all of them while they fit, the last
/// `capacity` of them after that.
pub proof fn lemma_in_order_is_the_tail(capacity: nat, records: Seq<Seq<char>>)
    requires
        capacity > 0,
    ensures
        Ring::filled(capacity, records).in_order() == if records.len() <= capacity {
            records
        } else {
            records.skip(records.len() - capacity)
        },
{
    let cap = capacity as int;
    let n = records.len() as int;
    let ring = Ring::filled(capacity, records);
    let start = if n <= cap {
        0
    } else {
        n - cap
    };
    let tail = records.skip(start);
    lemma_ring_keeps_latest(capacity, records);
    lemma_mod_bound(n, cap);
    assert forall|k: int| 0 <= k < tail.len() implies ring.in_order()[k] == tail[k] by {
        let i = start + k;
        assert(ring.entries[i % cap] == records[i]);
        if n < cap {
            lemma_small_mod(i as nat, capacity);
        } else {
            lemma_add_mod_noop(n, k, cap);
            lemma_mod_sub_multiples_vanish(n + k, cap);
            if k < cap {
                lemma_small_mod(k as nat, capacity);
            }
            if ring.next + k < cap {
                lemma_small_mod((ring.next + k) as nat, capacity);
            } else {
                lemma_mod_sub_multiples_vanish(ring.next + k, cap);
                lemma_small_mod((ring.next + k - cap) as nat, capacity);
            }
        }
    }
    assert(ring.in_order() =~= tail);
    assert(records.skip(0) =~= records);
}

/// Rolling store of the most recent sample records.
pub struct StateBuffer {
    buffer: Vec<String>,
    index: usize,
    capacity: usize,
}

impl View for StateBuffer {
    type V = Ring;

    closed spec fn view(&self) -> Ring {
        Ring {
            entries: texts(self.buffer@),
            next: self.index as nat,
            capacity: self.capacity as nat,
        }
    }
}

impl StateBuffer {
    #[verifier::type_invariant]
    spec fn well_formed(self) -> bool {
        &&& self.capacity > 0
        &&& self.buffer.len() <= self.capacity
        &&& self.index < self.capacity
    }

    /// An empty buffer for [`MAX_ENTRIES`] records.
    pub fn new() -> (r: Self)
        ensures
            r@ == Ring::empty(MAX_ENTRIES as nat),
    {
        let r = StateBuffer {
            buffer: Vec::with_capacity(MAX_ENTRIES),
            index: 0,
            capacity: MAX_ENTRIES,
        };
        assert(r@.entries =~= Seq::<Seq<char>>::empty());
        r
    }

    /// An empty buffer for `capacity` records. A buffer needs room for at
    /// least one record, so there is none for a capacity of zero.
    pub fn with_capacity(capacity: usize) -> (r: Option<Self>)
        ensures
            capacity == 0 <==> r is None,
            r matches Some(b) ==> b@ == Ring::empty(capacity as nat),
    {
        if capacity == 0 {
            return None;
        }
        let b = StateBuffer { buffer: Vec::new(), index: 0, capacity };
        assert(b@.entries =~= Seq::<Seq<char>>::empty());
        Some(b)
    }

    /// Stores `entry`, over the oldest record once the buffer is full.
    pub fn add(&mut self, entry: String)
        ensures
            final(self)@ == old(self)@.add(entry@),
    {
        proof {
            use_type_invariant(&*self);
        }
        let mut buffer: Vec<String> = Vec::new();
        std::mem::swap(&mut buffer, &mut self.buffer);
        if buffer.len() < self.capacity {
            buffer.push(entry);
        } else {
            buffer.set(self.index, entry);
        }
        std::mem::swap(&mut buffer, &mut self.buffer);
        self.index = (self.index + 1) % self.capacity;
        assert(self@.entries =~= old(self)@.add(entry@).entries);
    }

    /// Every retained record, slot by slot.
    pub fn get_all(&self) -> (r: &[String])
        ensures
            texts(r@) == self@.entries,
    {
        self.buffer.as_slice()
    }

    /// A copy of every retained record, oldest first.
    pub fn chronological(&self) -> (r: Vec<String>)
        ensures
            texts(r@) == self@.in_order(),
    {
        proof {
            use_type_invariant(self);
        }
        let count = self.buffer.len();
        let start: usize = if count < self.capacity {
            0
        } else {
            self.index
        };
        let mut out: Vec<String> = Vec::new();
        let mut i: usize = start;
        while i < count
            invariant
                start <= i <= count,
                count == self.buffer.len(),
                out.len() == i - start,
                forall|k: int| 0 <= k < out.len() ==> out@[k]@ == self.buffer@[start + k]@,
            decreases count - i,
        {
            out.push(self.buffer[i].clone());
            i += 1;
        }
        let mut j: usize = 0;
        while j < start
            invariant
                j <= start <= count,
                count == self.buffer.len(),
                out.len() == count - start + j,
                forall|k: int| 0 <= k < count - start ==> out@[k]@ == self.buffer@[start + k]@,
                forall|k: int| 0 <= k < j ==> out@[count - start + k]@ == self.buffer@[k]@,
            decreases start - j,
        {
            out.push(self.buffer[j].clone());
            j += 1;
        }
        assert(texts(out@) =~= texts(self.buffer@).subrange(start as int, count as int) + texts(
            self.buffer@,
        ).subrange(0, start as int));
        assert(texts(self.buffer@).subrange(0, count as int) =~= texts(self.buffer@));
        out
    }

    /// The slot that the next overwrite goes to.
    pub fn next_index(&self) -> (r: usize)
        ensures
            r == self@.next,
            r < self@.capacity,
    {
        proof {
            use_type_invariant(self);
        }
        self.index
    }

    /// How many records are retained.
    pub fn len(&self) -> (r: usize)
        ensures
            r == self@.entries.len(),
            r <= self@.capacity,
    {
        proof {
            use_type_invariant(self);
        }
        self.buffer.len()
    }

    /// How many records the buffer retains at most.
    pub fn capacity(&self) -> (r: usize)
        ensures
            r == self@.capacity,
            r > 0,
    {
        proof {
            use_type_invariant(self);
        }
        self.capacity
    }
}

impl Default for StateBuffer {
    fn default() -> (r: Self)
        ensures
            r@ == Ring::empty(MAX_ENTRIES as nat),
    {
        Self::new()
    }
}

} // verus!
