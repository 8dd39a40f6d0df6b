//! The sliding window of the most recent samples, kept in a heap-allocated
//! ring buffer.

use ringbuffer::{RingBuffer, RingBufferExt, RingBufferWrite};
use vstd::arithmetic::power2::lemma2_to64;
use vstd::arithmetic::power2::lemma_pow2_pos;
use vstd::arithmetic::power2::lemma_pow2_unfold;
use vstd::arithmetic::power2::pow2;
use vstd::prelude::*;

verus! {

/// `ringbuffer::AllocRingBuffer`, the ring on the heap. Nothing of its
/// inside is known here; what it holds goes by the three names below.
#[verifier::external_type_specification]
#[verifier::external_body]
#[verifier::reject_recursive_types(T)]
pub struct ExAllocRingBuffer<T>(ringbuffer::AllocRingBuffer<T>);

/// The samples a ring holds, oldest first.
pub uninterp spec fn ring_items(ring: ringbuffer::AllocRingBuffer<i32>) -> Seq<i32>;

/// The capacity a ring was made with.
pub uninterp spec fn ring_capacity(ring: ringbuffer::AllocRingBuffer<i32>) -> nat;

/// The number of pushes a ring has taken since it was made.
pub uninterp spec fn ring_cursor(ring: ringbuffer::AllocRingBuffer<i32>) -> nat;

/// `n` is one of 1, 2, 4, 8, ...
pub open spec fn is_power_of_two(n: nat) -> bool
    decreases n,
{
    n == 1 || (n >= 2 && n % 2 == 0 && is_power_of_two(n / 2))
}

/// A capacity that a ring can be made with: a power of two whose samples
/// fit in the address space.
pub open spec fn valid_capacity(capacity: nat) -> bool {
    is_power_of_two(capacity) && capacity * 4 <= isize::MAX
}

/// The last `capacity` items of `samples`, in their order; all of them
/// where there are no more than that.
pub open spec fn window(samples: Seq<i32>, capacity: nat) -> Seq<i32> {
    if samples.len() <= capacity {
        samples
    } else {
        samples.skip(samples.len() - capacity)
    }
}

/// What a ring of the given capacity holds after it has taken `frames` one
/// after the other, starting from `held`.
pub open spec fn extend_all(held: Seq<i32>, frames: Seq<Seq<i32>>, capacity: nat) -> Seq<i32>
    decreases frames.len(),
{
    if frames.len() == 0 {
        held
    } else {
        window(extend_all(held, frames.drop_last(), capacity) + frames.last(), capacity)
    }
}

/// All samples of `frames`, in the order in which they were pushed.
pub open spec fn concat(frames: Seq<Seq<i32>>) -> Seq<i32>
    decreases frames.len(),
{
    if frames.len() == 0 {
        Seq::<i32>::empty()
    } else {
        concat(frames.drop_last()) + frames.last()
    }
}

/// `AllocRingBuffer::with_capacity`: an empty ring of the given capacity. The
/// call panics on a capacity that is zero or no power of two, and the
/// allocation behind it on one whose bytes pass `isize::MAX`.
#[verifier::external_body]
fn ring_with_capacity(capacity: usize) -> (ring: ringbuffer::AllocRingBuffer<i32>)
    requires
        valid_capacity(capacity as nat),
    ensures
        ring_items(ring) == Seq::<i32>::empty(),
        ring_capacity(ring) == capacity,
        ring_cursor(ring) == 0,
{
    ringbuffer::AllocRingBuffer::with_capacity(capacity)
}

/// `RingBufferWrite::push`: appends the sample; a full ring first lets go
/// of its oldest one. Both of the ring's positions only ever count up, so
/// the call is kept away from the end of their range.
#[verifier::external_body]
fn ring_push(ring: &mut ringbuffer::AllocRingBuffer<i32>, sample: i32)
    requires
        ring_cursor(*old(ring)) < isize::MAX,
    ensures
        ring_capacity(*final(ring)) == ring_capacity(*old(ring)),
        ring_cursor(*final(ring)) == ring_cursor(*old(ring)) + 1,
        ring_items(*final(ring)) == if ring_items(*old(ring)).len() == ring_capacity(*old(ring)) {
            ring_items(*old(ring)).skip(1).push(sample)
        } else {
            ring_items(*old(ring)).push(sample)
        },
{
    ring.push(sample)
}

/// `RingBuffer::len`: the number of samples held.
#[verifier::external_body]
fn ring_len(ring: &ringbuffer::AllocRingBuffer<i32>) -> (len: usize)
    ensures
        len == ring_items(*ring).len(),
{
    ring.len()
}

/// `RingBuffer::is_full`: whether the ring holds as many samples as its
/// capacity.
#[verifier::external_body]
fn ring_is_full(ring: &ringbuffer::AllocRingBuffer<i32>) -> (full: bool)
    ensures
        full == (ring_items(*ring).len() == ring_capacity(*ring)),
{
    ring.is_full()
}

/// `RingBufferExt::to_vec`: a copy of the samples held, oldest first. The
/// index arithmetic behind it is signed, so the ring's positions must not
/// have passed `isize::MAX`.
#[verifier::external_body]
fn ring_to_vec(ring: &ringbuffer::AllocRingBuffer<i32>) -> (items: Vec<i32>)
    requires
        ring_cursor(*ring) <= isize::MAX,
    ensures
        items@ == ring_items(*ring),
{
    ring.to_vec()
}

/// Whether `n` is a power of two.
pub fn power_of_two(n: usize) -> (yes: bool)
    ensures
        yes == is_power_of_two(n as nat),
{
    if n == 0 {
        return false;
    }
    let mut m: usize = n;
    while m % 2 == 0
        invariant
            m >= 1,
            is_power_of_two(m as nat) == is_power_of_two(n as nat),
        decreases m,
    {
        m = m / 2;
    }
    m == 1
}

/// Whether a ring can be made with this capacity.
pub fn capacity_is_valid(capacity: usize) -> (yes: bool)
    ensures
        yes == valid_capacity(capacity as nat),
{
    power_of_two(capacity) && capacity <= (isize::MAX as usize) / 4
}

/// A fixed-capacity window over a stream of samples: it always holds the
/// most recent `capacity` samples pushed, oldest first.
pub struct SampleRing {
    ring: ringbuffer::AllocRingBuffer<i32>,
    capacity: usize,
    cursor: usize,
}

impl View for SampleRing {
    type V = Seq<i32>;

    closed spec fn view(&self) -> Seq<i32> {
        ring_items(self.ring)
    }
}

impl SampleRing {
    /// The capacity the window was made with.
    pub closed spec fn cap(&self) -> nat {
        self.capacity as nat
    }

    /// The invariant of the window: it never holds more than its capacity,
    /// and the ring behind it stays clear of the end of its counters.
    pub closed spec fn wf(&self) -> bool {
        &&& valid_capacity(self.capacity as nat)
        &&& ring_capacity(self.ring) == self.capacity
        &&& ring_cursor(self.ring) == self.cursor
        &&& self.cursor <= isize::MAX
        &&& ring_items(self.ring).len() <= self.capacity
    }

    /// A well-formed window holds at most `cap()` samples, and `cap()` is a
    /// valid capacity.
    pub proof fn lemma_bounded(&self)
        requires
            self.wf(),
        ensures
            self@.len() <= self.cap(),
            valid_capacity(self.cap()),
    {
    }

    /// An empty window of the given capacity; `None` where the capacity is
    /// no power of two or too large to allocate.
    pub fn with_capacity(capacity: usize) -> (made: Option<SampleRing>)
        ensures
            made is Some <==> valid_capacity(capacity as nat),
            made matches Some(ring) ==> ring.wf() && ring.cap() == capacity && ring@
                == Seq::<i32>::empty(),
    {
        if capacity_is_valid(capacity) {
            Some(SampleRing::make(capacity))
        } else {
            None
        }
    }

    /// An empty window of a capacity known to be valid.
    pub fn make(capacity: usize) -> (ring: SampleRing)
        requires
            valid_capacity(capacity as nat),
        ensures
            ring.wf(),
            ring.cap() == capacity,
            ring@ == Seq::<i32>::empty(),
    {
        SampleRing { ring: ring_with_capacity(capacity), capacity, cursor: 0 }
    }

    /// The capacity the window was made with.
    pub fn capacity(&self) -> (capacity: usize)
        ensures
            capacity == self.cap(),
    {
        self.capacity
    }

    /// The number of samples held.
    pub fn len(&self) -> (len: usize)
        ensures
            len == self@.len(),
    {
        ring_len(&self.ring)
    }

    /// Whether the window holds `capacity` samples.
    pub fn is_full(&self) -> (full: bool)
        requires
            self.wf(),
        ensures
            full == (self@.len() == self.cap()),
    {
        ring_is_full(&self.ring)
    }

    /// A copy of the samples held, oldest first. The window is left as it
    /// was.
    pub fn snapshot(&self) -> (samples: Vec<i32>)
        requires
            self.wf(),
        ensures
            samples@ == self@,
    {
        ring_to_vec(&self.ring)
    }

    /// Moves the samples into a fresh ring, whose counters start again.
    fn renew(&mut self)
        requires
            old(self).wf(),
        ensures
            final(self).wf(),
            final(self).cap() == old(self).cap(),
            final(self)@ == old(self)@,
            final(self).cursor <= final(self).capacity,
    {
        let kept = ring_to_vec(&self.ring);
        let mut fresh = ring_with_capacity(self.capacity);
        let mut i: usize = 0;
        while i < kept.len()
            invariant
                i <= kept.len(),
                kept.len() <= self.capacity,
                self.capacity * 4 <= isize::MAX,
                ring_capacity(fresh) == self.capacity,
                ring_cursor(fresh) == i,
                ring_items(fresh) == kept@.take(i as int),
            decreases kept.len() - i,
        {
            ring_push(&mut fresh, kept[i]);
            assert(kept@.take(i as int).push(kept@[i as int]) == kept@.take(i + 1));
            i = i + 1;
        }
        assert(kept@.take(kept.len() as int) == kept@);
        self.ring = fresh;
        self.cursor = i;
    }

    /// Appends one sample; a full window lets go of its oldest one.
    pub fn push(&mut self, sample: i32)
        requires
            old(self).wf(),
        ensures
            final(self).wf(),
            final(self).cap() == old(self).cap(),
            final(self)@ == window(old(self)@.push(sample), old(self).cap()),
    {
        if self.cursor >= isize::MAX as usize {
            self.renew();
        }
        ring_push(&mut self.ring, sample);
        self.cursor = self.cursor + 1;
    }

    /// Appends the samples in order. Afterwards the window holds the most
    /// recent `capacity` samples of all that were ever pushed.
    pub fn extend(&mut self, samples: &Vec<i32>)
        requires
            old(self).wf(),
        ensures
            final(self).wf(),
            final(self).cap() == old(self).cap(),
            final(self)@ == window(old(self)@ + samples@, old(self).cap()),
    {
        let mut i: usize = 0;
        while i < samples.len()
            invariant
                i <= samples.len(),
                self.wf(),
                self.cap() == old(self).cap(),
                self@ == window(old(self)@ + samples@.take(i as int), old(self).cap()),
            decreases samples.len() - i,
        {
            proof {
                let fed = old(self)@ + samples@.take(i as int);
                lemma_window_push(fed, samples@[i as int], self.cap());
                assert(fed.push(samples@[i as int]) == old(self)@ + samples@.take(i + 1));
            }
            self.push(samples[i]);
            i = i + 1;
        }
        assert(samples@.take(samples.len() as int) == samples@);
    }
}

/// `2^k` is a power of two.
pub proof fn lemma_pow2_is_power_of_two(k: nat)
    ensures
        is_power_of_two(pow2(k)),
    decreases k,
{
    if k == 0 {
        lemma2_to64();
    } else {
        lemma_pow2_unfold(k);
        lemma_pow2_pos((k - 1) as nat);
        lemma_pow2_is_power_of_two((k - 1) as nat);
        assert(pow2(k) / 2 == pow2((k - 1) as nat));
    }
}

/// A power of two is `2^k` for some `k`.
pub proof fn lemma_power_of_two_is_pow2(n: nat)
    requires
        is_power_of_two(n),
    ensures
        exists|k: nat| n == pow2(k),
    decreases n,
{
    if n == 1 {
        lemma2_to64();
        assert(n == pow2(0));
    } else {
        lemma_power_of_two_is_pow2(n / 2);
        let k = choose|k: nat| n / 2 == pow2(k);
        lemma_pow2_unfold(k + 1);
        assert(n == pow2(k + 1));
    }
}

/// Pushing onto the window of a stream gives the window of the longer
/// stream.
pub proof fn lemma_window_push(samples: Seq<i32>, sample: i32, capacity: nat)
    requires
        capacity >= 1,
    ensures
        window(window(samples, capacity).push(sample), capacity) == window(
            samples.push(sample),
            capacity,
        ),
{
}

/// Appending to the window of a stream gives the window of the longer
/// stream.
pub proof fn lemma_window_append(samples: Seq<i32>, more: Seq<i32>, capacity: nat)
    ensures
        window(window(samples, capacity) + more, capacity) == window(samples + more, capacity),
{
}

/// After any number of `extend` calls on an empty window, it holds the last
/// `capacity` samples of all that were pushed, in push order, and so
/// `min(total, capacity)` of them.
pub proof fn lemma_extend_all(frames: Seq<Seq<i32>>, capacity: nat)
    ensures
        extend_all(Seq::<i32>::empty(), frames, capacity) == window(concat(frames), capacity),
        extend_all(Seq::<i32>::empty(), frames, capacity).len() == if concat(frames).len()
            <= capacity {
            concat(frames).len()
        } else {
            capacity
        },
    decreases frames.len(),
{
    if frames.len() > 0 {
        lemma_extend_all(frames.drop_last(), capacity);
        lemma_window_append(concat(frames.drop_last()), frames.last(), capacity);
    }
}

} // verus!
