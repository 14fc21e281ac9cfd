//! Bounded FIFO hand-off buffer for accepted connections.
//!
//! A fixed-capacity circular slot array with a write index, a read index
//! and a live count.  The module verifies the sequential core: strict
//! FIFO order, strict capacity enforcement, and the one-owner-per-slot
//! invariant.  Blocking — a producer stalling on a full buffer, a
//! consumer on an empty one — is layered on top by the surrounding
//! program with its concurrency primitives, which retry `put` and `get`
//! under permits; here a full buffer refuses the descriptor and an empty
//! one yields nothing.

use vstd::pervasive::VecAdditionalExecFns;
use vstd::prelude::*;

verus! {

/// Number of slots in the hand-off buffer.
pub const RING_CAPACITY: usize = 1024;

/// The slot that the `i`-th live item after the read index occupies,
/// wrapping at the capacity.
pub open spec fn spec_slot_index(tail: int, i: int) -> int
    recommends
        0 <= tail < RING_CAPACITY,
        0 <= i < RING_CAPACITY,
{
    if tail + i < RING_CAPACITY {
        tail + i
    } else {
        tail + i - RING_CAPACITY
    }
}

/// Whether slot `j` lies in the live window of `count` items starting at
/// the read index `tail`.
pub open spec fn spec_in_window(tail: int, count: int, j: int) -> bool {
    if tail + count <= RING_CAPACITY {
        tail <= j < tail + count
    } else {
        j >= tail || j < tail + count - RING_CAPACITY
    }
}

/// Bounded circular buffer of connection descriptors.
///
/// `head` is the next write index, `tail` the next read index, both
/// wrapped at the capacity; `count` is the number of live items.  Every
/// slot holds at most one live descriptor at a time.
pub struct FdRingBuffer {
    buf: Vec<Option<i32>>,
    head: usize,
    tail: usize,
    count: usize,
}

impl View for FdRingBuffer {
    type V = Seq<i32>;

    /// The live descriptors in arrival order, oldest first.
    closed spec fn view(&self) -> Seq<i32> {
        Seq::new(
            self.count as nat,
            |i: int| self.buf@[spec_slot_index(self.tail as int, i)]->0,
        )
    }
}

impl FdRingBuffer {
    /// Well-formed: the slot array is full-sized, the indices lie inside
    /// it, the write index sits one past the live window, and a slot is
    /// occupied exactly when it lies in the live window.
    pub closed spec fn wf(&self) -> bool {
        &&& self.buf@.len() == RING_CAPACITY
        &&& self.tail < RING_CAPACITY
        &&& self.head < RING_CAPACITY
        &&& self.count <= RING_CAPACITY
        &&& self.head == spec_slot_index(self.tail as int, self.count as int)
        &&& forall|j: int|
            0 <= j < RING_CAPACITY ==> ((#[trigger] self.buf@[j]) is Some <==> spec_in_window(
                self.tail as int,
                self.count as int,
                j,
            ))
    }

    /// Creates an empty buffer with every slot free.
    pub fn init() -> (r: FdRingBuffer)
        ensures
            r.wf(),
            r@ == Seq::<i32>::empty(),
    {
        let mut buf: Vec<Option<i32>> = Vec::new();
        while buf.len() < RING_CAPACITY
            invariant
                buf@.len() <= RING_CAPACITY,
                forall|j: int| 0 <= j < buf@.len() ==> (#[trigger] buf@[j]) is None,
            decreases RING_CAPACITY - buf@.len(),
        {
            buf.push(None);
        }
        let r = FdRingBuffer { buf, head: 0, tail: 0, count: 0 };
        proof {
            assert(r@ =~= Seq::<i32>::empty());
        }
        r
    }

    /// Inserts a descriptor at the write index and advances it.  On a
    /// full buffer the descriptor is handed back unchanged; capacity is
    /// never exceeded.
    pub fn put(&mut self, fd: i32) -> (r: Result<(), i32>)
        requires
            old(self).wf(),
        ensures
            final(self).wf(),
            old(self)@.len() < RING_CAPACITY ==> (r matches Ok(u) && final(self)@ == old(
                self,
            )@.push(fd)),
            old(self)@.len() == RING_CAPACITY ==> (r matches Err(f) && f == fd && final(self)@
                == old(self)@),
    {
        if self.count == RING_CAPACITY {
            return Err(fd);
        }
        let idx = self.head;
        self.buf.set(idx, Some(fd));
        self.head = if self.head + 1 == RING_CAPACITY {
            0
        } else {
            self.head + 1
        };
        self.count = self.count + 1;
        proof {
            assert(final(self)@ =~= old(self)@.push(fd));
        }
        Ok(())
    }

    /// Removes the oldest descriptor from the read index and advances it;
    /// yields nothing when the buffer is empty.
    pub fn get(&mut self) -> (r: Option<i32>)
        requires
            old(self).wf(),
        ensures
            final(self).wf(),
            old(self)@.len() > 0 ==> (r matches Some(fd) && fd == old(self)@[0] && final(self)@
                == old(self)@.drop_first()),
            old(self)@.len() == 0 ==> (r is None && final(self)@ == old(self)@),
    {
        if self.count == 0 {
            return None;
        }
        let idx = self.tail;
        let slot: Option<i32> = self.buf[idx];
        match slot {
            Some(fd) => {
                self.buf.set(idx, None);
                self.tail = if self.tail + 1 == RING_CAPACITY {
                    0
                } else {
                    self.tail + 1
                };
                self.count = self.count - 1;
                proof {
                    assert(final(self)@ =~= old(self)@.drop_first());
                }
                Some(fd)
            },
            None => {
                proof {
                    assert(false);
                }
                None
            },
        }
    }
}

/// Occupancy bound: a well-formed buffer never holds more live
/// descriptors than its capacity; `put` refuses the descriptor that
/// would exceed it.
pub proof fn lemma_occupancy_bounded(q: &FdRingBuffer)
    requires
        q.wf(),
    ensures
        q@.len() <= RING_CAPACITY,
{
}

/// First-in, first-out hand-off.  `put` appends to the live sequence and
/// `get` removes its front, so after inserting `c1` and then `c2` into a
/// buffer holding `s`, successive removals drain `s` in order first, then
/// yield `c1`, then `c2`.
pub proof fn lemma_fifo_order(s: Seq<i32>, c1: i32, c2: i32)
    ensures
        forall|i: int| 0 <= i < s.len() ==> #[trigger] s.push(c1).push(c2).skip(i)[0] == s[i],
        s.push(c1).push(c2).skip(s.len() as int)[0] == c1,
        s.push(c1).push(c2).skip(s.len() as int + 1)[0] == c2,
{
}

} // verus!
