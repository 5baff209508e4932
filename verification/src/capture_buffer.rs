use vstd::prelude::*;

verus! {

/// A bounded FIFO of raw 32-bit sample words, backed by a heap-allocated ring
/// buffer of the `ringbuf` crate. The queue is owned exclusively through
/// [`CaptureBuffer`], so its length and contents are exact, not approximate.
#[verifier::external_body]
pub struct SampleQueue {
    rb: ringbuf::HeapRb<u32>,
}

/// The sample words currently queued, oldest first.
pub uninterp spec fn queue_contents(q: SampleQueue) -> Seq<u32>;

/// The fixed capacity the queue was created with.
pub uninterp spec fn queue_capacity(q: SampleQueue) -> nat;

/// Relies on ringbuf's `HeapRb::new`: an empty ring buffer with exactly the
/// requested capacity. It panics on a capacity of zero, which the
/// precondition rules out.
#[verifier::external_body]
fn queue_new(capacity: usize) -> (q: SampleQueue)
    requires
        1 <= capacity,
    ensures
        queue_contents(q) == Seq::<u32>::empty(),
        queue_capacity(q) == capacity,
{
    SampleQueue { rb: ringbuf::HeapRb::new(capacity) }
}

/// Relies on ringbuf's `Producer::push_slice`: appends items from the slice in
/// order until the buffer is full and returns how many were appended.
#[verifier::external_body]
fn queue_push_slice(q: &mut SampleQueue, samples: &[u32]) -> (count: usize)
    ensures
        count as int == vstd::math::min(
            samples@.len() as int,
            queue_capacity(*old(q)) - queue_contents(*old(q)).len(),
        ),
        queue_contents(*final(q)) == queue_contents(*old(q)) + samples@.take(count as int),
        queue_capacity(*final(q)) == queue_capacity(*old(q)),
{
    ringbuf::traits::Producer::push_slice(&mut q.rb, samples)
}

/// Relies on ringbuf's `Consumer::pop_slice`: removes up to the given number
/// of the oldest items, in the order they were pushed, and returns how many
/// were moved.
#[verifier::external_body]
fn queue_pop(q: &mut SampleQueue, max: usize) -> (samples: Vec<u32>)
    ensures
        samples@ == queue_contents(*old(q)).take(
            vstd::math::min(max as int, queue_contents(*old(q)).len() as int),
        ),
        queue_contents(*final(q)) == queue_contents(*old(q)).skip(samples@.len() as int),
        queue_capacity(*final(q)) == queue_capacity(*old(q)),
{
    let mut buf = vec![0u32; max];
    let n = ringbuf::traits::Consumer::pop_slice(&mut q.rb, buf.as_mut_slice());
    buf.truncate(n);
    buf
}

/// Relies on ringbuf's `Observer::occupied_len`: the number of items stored.
#[verifier::external_body]
fn queue_len(q: &SampleQueue) -> (n: usize)
    ensures
        n == queue_contents(*q).len(),
{
    ringbuf::traits::Observer::occupied_len(&q.rb)
}

/// Relies on ringbuf's `Observer::capacity`.
#[verifier::external_body]
fn queue_capacity_exec(q: &SampleQueue) -> (n: usize)
    ensures
        n == queue_capacity(*q),
{
    ringbuf::traits::Observer::capacity(&q.rb).get()
}

/// How many of `write`'s samples a buffer holding `contents` accepts: all of
/// them if they fit, otherwise exactly the remaining capacity.
pub open spec fn accepted_count(contents: Seq<u32>, capacity: nat, write: Seq<u32>) -> int {
    vstd::math::min(write.len() as int, capacity - contents.len())
}

/// The queue contents after offering `write` to a buffer holding `contents`:
/// the accepted prefix is appended, the excess is dropped.
pub open spec fn after_write(contents: Seq<u32>, capacity: nat, write: Seq<u32>) -> Seq<u32> {
    contents + write.take(accepted_count(contents, capacity, write))
}

/// The bounded sample queue bridging the capture side and the consumer side
/// of the audio pipeline: non-blocking bounded writes, non-blocking FIFO
/// reads.
pub struct CaptureBuffer {
    q: SampleQueue,
}

impl View for CaptureBuffer {
    type V = Seq<u32>;

    closed spec fn view(&self) -> Seq<u32> {
        queue_contents(self.q)
    }
}

impl CaptureBuffer {
    /// The fixed capacity in samples.
    pub closed spec fn capacity(&self) -> nat {
        queue_capacity(self.q)
    }

    /// The buffer never holds more samples than its capacity.
    pub open spec fn wf(&self) -> bool {
        self@.len() <= self.capacity()
    }

    /// An empty buffer of the given capacity.
    pub fn new(capacity: usize) -> (b: Self)
        requires
            1 <= capacity,
        ensures
            b@ == Seq::<u32>::empty(),
            b.capacity() == capacity,
            b.wf(),
    {
        CaptureBuffer { q: queue_new(capacity) }
    }

    /// The number of samples currently queued.
    pub fn len(&self) -> (n: usize)
        ensures
            n == self@.len(),
    {
        queue_len(&self.q)
    }

    /// The fixed capacity in samples.
    pub fn capacity_samples(&self) -> (n: usize)
        ensures
            n == self.capacity(),
    {
        queue_capacity_exec(&self.q)
    }

    /// Non-blocking bounded write: appends as many of the offered samples as
    /// fit, in order, and returns how many were accepted. Never exceeds the
    /// remaining capacity; excess samples are dropped, never queued partially.
    pub fn write(&mut self, samples: &[u32]) -> (accepted: usize)
        ensures
            accepted as int == accepted_count(old(self)@, old(self).capacity(), samples@),
            final(self)@ == after_write(old(self)@, old(self).capacity(), samples@),
            final(self).capacity() == old(self).capacity(),
            old(self).wf() ==> final(self).wf(),
    {
        queue_push_slice(&mut self.q, samples)
    }

    /// Non-blocking read: removes and returns up to `max` of the oldest
    /// samples, in the order they were written, possibly fewer, possibly none.
    pub fn read(&mut self, max: usize) -> (samples: Vec<u32>)
        ensures
            samples@ == old(self)@.take(
                vstd::math::min(max as int, old(self)@.len() as int),
            ),
            final(self)@ == old(self)@.skip(samples@.len() as int),
            final(self).capacity() == old(self).capacity(),
            old(self).wf() ==> final(self).wf(),
    {
        queue_pop(&mut self.q, max)
    }
}

/// The queue contents after a sequence of writes is offered in order.
pub open spec fn after_writes(contents: Seq<u32>, capacity: nat, writes: Seq<Seq<u32>>) -> Seq<u32>
    decreases writes.len(),
{
    if writes.len() == 0 {
        contents
    } else {
        after_writes(after_write(contents, capacity, writes[0]), capacity, writes.drop_first())
    }
}

/// Every write of the sequence fits in the space remaining when it is applied.
pub open spec fn writes_fit(contents: Seq<u32>, capacity: nat, writes: Seq<Seq<u32>>) -> bool
    decreases writes.len(),
{
    writes.len() == 0 || (contents.len() + writes[0].len() <= capacity && writes_fit(
        contents + writes[0],
        capacity,
        writes.drop_first(),
    ))
}

/// The concatenation of a sequence of writes, in order.
pub open spec fn concat_all(writes: Seq<Seq<u32>>) -> Seq<u32>
    decreases writes.len(),
{
    if writes.len() == 0 {
        Seq::<u32>::empty()
    } else {
        writes[0] + concat_all(writes.drop_first())
    }
}

/// FIFO law: a sequence of writes, each fitting in the space remaining when it
/// is applied, leaves the buffer holding the prior contents followed by the
/// writes' concatenation, in write order and unaltered.
pub proof fn lemma_buffer_fifo(contents: Seq<u32>, capacity: nat, writes: Seq<Seq<u32>>)
    requires
        writes_fit(contents, capacity, writes),
    ensures
        after_writes(contents, capacity, writes) == contents + concat_all(writes),
    decreases writes.len(),
{
    if writes.len() == 0 {
        assert(after_writes(contents, capacity, writes) =~= contents + concat_all(writes));
    } else {
        let w = writes[0];
        assert(w.take(w.len() as int) =~= w);
        assert(after_write(contents, capacity, w) =~= contents + w);
        lemma_buffer_fifo(contents + w, capacity, writes.drop_first());
        assert((contents + w) + concat_all(writes.drop_first()) =~= contents + concat_all(
            writes,
        ));
    }
}

/// FIFO law, read side: after such a sequence of writes into an initially
/// empty buffer, reading any prefix length up to the total returns exactly
/// that prefix of the writes' concatenation.
pub proof fn lemma_buffer_fifo_read(capacity: nat, writes: Seq<Seq<u32>>, m: int)
    requires
        writes_fit(Seq::<u32>::empty(), capacity, writes),
        0 <= m <= concat_all(writes).len(),
    ensures
        after_writes(Seq::<u32>::empty(), capacity, writes).take(m) == concat_all(writes).take(m),
{
    lemma_buffer_fifo(Seq::<u32>::empty(), capacity, writes);
    assert(Seq::<u32>::empty() + concat_all(writes) =~= concat_all(writes));
}

} // verus!
