//! The sliding window of the most recent samples.
//!
//! The samples live in a ring buffer of fixed capacity: once it is full, every
//! new sample pushes the oldest one out. The ring buffer numbers its writes with
//! a `usize` and must not be asked for one more than that can hold, so the
//! window counts its writes and moves to a fresh buffer before they run out.

use ringbuffer::AllocRingBuffer;
use ringbuffer::RingBuffer;
use vstd::prelude::*;

verus! {

/// `ringbuffer::AllocRingBuffer`, a ring buffer on the heap. Nothing inside it
/// is visible here; what it holds goes by the three names below.
#[verifier::external_type_specification]
#[verifier::external_body]
#[verifier::reject_recursive_types(T)]
pub struct ExAllocRingBuffer<T>(ringbuffer::AllocRingBuffer<T>);

/// The items that a ring buffer holds, the one enqueued longest ago first.
pub uninterp spec fn ring_contents(ring: AllocRingBuffer<u64>) -> Seq<u64>;

/// The number of items that a ring buffer was made to hold.
pub uninterp spec fn ring_capacity(ring: AllocRingBuffer<u64>) -> nat;

/// The number of items enqueued since a ring buffer was made (its write
/// position).
pub uninterp spec fn ring_writes(ring: AllocRingBuffer<u64>) -> nat;

/// The largest capacity a window can be given: the ring buffer allocates the
/// next power of two of 8-byte slots, which has to stay addressable.
pub open spec fn capacity_supported(capacity: usize) -> bool {
    0 < capacity <= usize::MAX / 32
}

/// What a full or partly filled buffer of `capacity` slots holds after one more
/// item: the item is appended, and the oldest item leaves if the buffer was
/// full.
pub open spec fn enqueued(items: Seq<u64>, capacity: nat, value: u64) -> Seq<u64> {
    if items.len() == capacity {
        items.drop_first().push(value)
    } else {
        items.push(value)
    }
}

/// The last `n` items of `items`, or all of them if there are fewer.
pub open spec fn newest(items: Seq<u64>, n: nat) -> Seq<u64> {
    if items.len() <= n {
        items
    } else {
        items.subrange(items.len() - n, items.len() as int)
    }
}

/// `AllocRingBuffer::new`. Claimed: for a capacity that is not zero and whose
/// next power of two of 8-byte slots can be laid out, it returns an empty
/// buffer of exactly that capacity with its write position at zero.
#[verifier::external_body]
fn ring_new(capacity: usize) -> (ring: AllocRingBuffer<u64>)
    requires
        capacity_supported(capacity),
    ensures
        ring_contents(ring) == Seq::<u64>::empty(),
        ring_capacity(ring) == capacity,
        ring_writes(ring) == 0,
{
    AllocRingBuffer::new(capacity)
}

/// `RingBuffer::enqueue` on an `AllocRingBuffer`. Claimed: while the write
/// position can still advance, the value is appended as the newest item, the
/// oldest item is dropped exactly when the buffer was full, the capacity stays
/// and the write position advances by one.
#[verifier::external_body]
fn ring_enqueue(ring: &mut AllocRingBuffer<u64>, value: u64)
    requires
        ring_writes(*old(ring)) < usize::MAX,
    ensures
        ring_contents(*final(ring)) == enqueued(
            ring_contents(*old(ring)),
            ring_capacity(*old(ring)),
            value,
        ),
        ring_capacity(*final(ring)) == ring_capacity(*old(ring)),
        ring_writes(*final(ring)) == ring_writes(*old(ring)) + 1,
{
    let _ = ring.enqueue(value);
}

/// `RingBuffer::len` on an `AllocRingBuffer`. Claimed: it returns the number of
/// items held.
#[verifier::external_body]
fn ring_len(ring: &AllocRingBuffer<u64>) -> (n: usize)
    ensures
        n == ring_contents(*ring).len(),
{
    ring.len()
}

/// `RingBuffer::capacity` on an `AllocRingBuffer`. Claimed: it returns the
/// capacity the buffer was made with.
#[verifier::external_body]
fn ring_capacity_of(ring: &AllocRingBuffer<u64>) -> (n: usize)
    ensures
        n == ring_capacity(*ring),
{
    ring.capacity()
}

/// `RingBuffer::get` on an `AllocRingBuffer`. Claimed: for an index below the
/// length it returns the item at that place, counted from the oldest.
#[verifier::external_body]
fn ring_get(ring: &AllocRingBuffer<u64>, index: usize) -> (item: Option<u64>)
    requires
        index < ring_contents(*ring).len(),
    ensures
        item == Some(ring_contents(*ring)[index as int]),
{
    ring.get(index).copied()
}

/// Appending to what was kept and keeping again is the same as appending to
/// everything and keeping once.
pub proof fn lemma_newest_push(items: Seq<u64>, n: nat, value: u64)
    requires
        n > 0,
    ensures
        newest(newest(items, n).push(value), n) == newest(items.push(value), n),
{
}

/// A sliding window over a stream of samples.
pub struct Window {
    ring: AllocRingBuffer<u64>,
    writes: usize,
}

/// What a window is, to its users.
pub struct WindowView {
    /// The samples held, oldest first.
    pub samples: Seq<u64>,
    /// How many samples the window holds at most.
    pub capacity: nat,
}

impl View for Window {
    type V = WindowView;

    closed spec fn view(&self) -> WindowView {
        WindowView { samples: ring_contents(self.ring), capacity: ring_capacity(self.ring) }
    }
}

impl Window {
    /// The window's invariant: its size is one that a buffer can be made with,
    /// it holds no more than that, and its count of writes is the buffer's.
    pub closed spec fn wf(&self) -> bool {
        &&& self.writes == ring_writes(self.ring)
        &&& 0 < ring_capacity(self.ring) <= usize::MAX / 32
        &&& ring_contents(self.ring).len() <= ring_capacity(self.ring)
    }

    /// A window never holds more than its size, which is not zero.
    pub proof fn lemma_within_capacity(&self)
        requires
            self.wf(),
        ensures
            0 < self@.capacity <= usize::MAX / 32,
            self@.samples.len() <= self@.capacity,
    {
    }

    /// An empty window for `capacity` samples.
    pub fn new(capacity: usize) -> (window: Window)
        requires
            capacity_supported(capacity),
        ensures
            window.wf(),
            window@ == (WindowView { samples: Seq::<u64>::empty(), capacity: capacity as nat }),
    {
        Window { ring: ring_new(capacity), writes: 0 }
    }

    /// Whether `new` accepts `capacity`.
    pub fn supports(capacity: usize) -> (r: bool)
        ensures
            r == capacity_supported(capacity),
    {
        0 < capacity && capacity <= usize::MAX / 32
    }

    pub fn capacity(&self) -> (n: usize)
        ensures
            n == self@.capacity,
    {
        ring_capacity_of(&self.ring)
    }

    pub fn len(&self) -> (n: usize)
        ensures
            n == self@.samples.len(),
    {
        ring_len(&self.ring)
    }

    /// The sample at place `index`, counted from the oldest.
    pub fn get(&self, index: usize) -> (sample: u64)
        requires
            index < self@.samples.len(),
        ensures
            sample == self@.samples[index as int],
    {
        match ring_get(&self.ring, index) {
            Some(sample) => sample,
            None => 0,
        }
    }

    /// Moves the samples to a fresh buffer of the same size, whose count of
    /// writes starts over at the number of samples held.
    fn renew(&mut self)
        requires
            old(self).wf(),
        ensures
            final(self).wf(),
            final(self)@ == old(self)@,
            final(self).writes < usize::MAX,
    {
        let capacity: usize = ring_capacity_of(&self.ring);
        let n: usize = ring_len(&self.ring);
        let mut fresh: AllocRingBuffer<u64> = ring_new(capacity);
        let mut i: usize = 0;
        while i < n
            invariant
                i <= n <= capacity <= usize::MAX / 32,
                n == ring_contents(self.ring).len(),
                ring_capacity(fresh) == capacity,
                ring_writes(fresh) == i,
                ring_contents(fresh) == ring_contents(self.ring).take(i as int),
            decreases n - i,
        {
            let sample: u64 = self.get(i);
            ring_enqueue(&mut fresh, sample);
            i = i + 1;
        }
        proof {
            let held = ring_contents(self.ring);
            assert(held.take(n as int) =~= held);
        }
        self.ring = fresh;
        self.writes = n;
    }

    /// Takes one sample in; the oldest one leaves if the window was full.
    pub fn push(&mut self, sample: u64)
        requires
            old(self).wf(),
        ensures
            final(self).wf(),
            final(self)@ == (WindowView {
                samples: newest(old(self)@.samples.push(sample), old(self)@.capacity),
                capacity: old(self)@.capacity,
            }),
    {
        if self.writes == usize::MAX {
            self.renew();
        }
        ring_enqueue(&mut self.ring, sample);
        self.writes = self.writes + 1;
        proof {
            let before = old(self)@.samples;
            let capacity = old(self)@.capacity;
            assert(enqueued(before, capacity, sample) =~= newest(before.push(sample), capacity));
        }
    }

    /// Takes a run of samples in, in order.
    pub fn extend(&mut self, samples: &[u64])
        requires
            old(self).wf(),
        ensures
            final(self).wf(),
            final(self)@ == (WindowView {
                samples: newest(old(self)@.samples + samples@, old(self)@.capacity),
                capacity: old(self)@.capacity,
            }),
    {
        let ghost before = self@.samples;
        let ghost capacity = self@.capacity;
        let n: usize = samples.len();
        let mut i: usize = 0;
        while i < n
            invariant
                n == samples@.len(),
                i <= n,
                self.wf(),
                0 < capacity,
                self@ == (WindowView {
                    samples: newest(before + samples@.take(i as int), capacity),
                    capacity: capacity,
                }),
            decreases n - i,
        {
            let sample: u64 = samples[i];
            self.push(sample);
            proof {
                let taken = before + samples@.take(i as int);
                lemma_newest_push(taken, capacity, sample);
                assert(before + samples@.take(i + 1) =~= taken.push(sample));
            }
            i = i + 1;
        }
        proof {
            assert(samples@.take(n as int) =~= samples@);
        }
    }

    /// A copy of the samples held, oldest first.
    pub fn to_vec(&self) -> (samples: Vec<u64>)
        ensures
            samples@ == self@.samples,
    {
        let n: usize = self.len();
        let mut samples: Vec<u64> = Vec::new();
        let mut i: usize = 0;
        while i < n
            invariant
                n == self@.samples.len(),
                i <= n,
                samples@ == self@.samples.take(i as int),
            decreases n - i,
        {
            let sample: u64 = self.get(i);
            samples.push(sample);
            i = i + 1;
        }
        samples
    }
}

} // verus!
