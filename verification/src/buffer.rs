//! The sample buffer between the capture callback and the chunk scheduler.

use vstd::prelude::*;

verus! {

/// Ordered, growable buffer of mono samples of type `T`.
///
/// The capture side appends blocks in the order in which the audio subsystem
/// delivers them; the scheduler takes everything that has accumulated in one
/// step. The view is the sequence of buffered samples, oldest first.
pub struct SampleBuffer<T> {
    samples: Vec<T>,
}

impl<T> View for SampleBuffer<T> {
    type V = Seq<T>;

    closed spec fn view(&self) -> Seq<T> {
        self.samples@
    }
}

/// What the buffer holds after a block was delivered: the block is kept only
/// when the recording flag was set at the time of delivery.
pub open spec fn after_block<T>(pending: Seq<T>, recording: bool, block: Seq<T>) -> Seq<T> {
    if recording {
        pending + block
    } else {
        pending
    }
}

impl<T: Copy> SampleBuffer<T> {
    /// An empty buffer.
    pub fn new() -> (buffer: Self)
        ensures
            buffer@ == Seq::<T>::empty(),
    {
        SampleBuffer { samples: Vec::new() }
    }

    /// Number of buffered samples.
    pub fn len(&self) -> (n: usize)
        ensures
            n == self@.len(),
    {
        self.samples.len()
    }

    /// Whether no sample is buffered.
    pub fn is_empty(&self) -> (empty: bool)
        ensures
            empty == (self@.len() == 0),
    {
        self.samples.len() == 0
    }

    /// Appends `block` behind the samples already buffered, keeping its order.
    pub fn append(&mut self, block: &[T])
        ensures
            final(self)@ == old(self)@ + block@,
    {
        let n: usize = block.len();
        let mut i: usize = 0;
        while i < n
            invariant
                n == block@.len(),
                i <= n,
                self@ == old(self)@ + block@.subrange(0, i as int),
            decreases n - i,
        {
            self.samples.push(block[i]);
            i = i + 1;
        }
    }

    /// The capture callback: keeps `block` if `recording` is set, drops it
    /// otherwise, so that nothing is buffered once recording has stopped.
    pub fn on_block(&mut self, recording: bool, block: &[T])
        ensures
            final(self)@ == after_block(old(self)@, recording, block@),
    {
        if recording {
            self.append(block);
        }
    }

    /// Takes everything that is buffered and leaves the buffer empty, by
    /// swapping the whole contents out rather than copying sample by sample.
    pub fn drain(&mut self) -> (chunk: Vec<T>)
        ensures
            chunk@ == old(self)@,
            final(self)@ == Seq::<T>::empty(),
    {
        let mut chunk: Vec<T> = Vec::new();
        core::mem::swap(&mut self.samples, &mut chunk);
        chunk
    }
}

/// One event in the life of a buffer, as the round-trip law sees it.
pub enum BufferEvent<T> {
    /// The audio subsystem delivered `samples` while the recording flag had
    /// the value `recording`.
    Block { recording: bool, samples: Seq<T> },
    /// The scheduler drained the buffer.
    Drain,
}

/// The chunks that the drains of a run handed out, in order, and what was
/// still buffered at its end.
pub struct BufferRun<T> {
    pub chunks: Seq<Seq<T>>,
    pub pending: Seq<T>,
}

/// Replays `events` on an empty buffer.
pub open spec fn replay<T>(events: Seq<BufferEvent<T>>) -> BufferRun<T>
    decreases events.len(),
{
    if events.len() == 0 {
        BufferRun { chunks: Seq::empty(), pending: Seq::empty() }
    } else {
        let before = replay(events.drop_last());
        match events.last() {
            BufferEvent::Block { recording, samples } => BufferRun {
                chunks: before.chunks,
                pending: after_block(before.pending, recording, samples),
            },
            BufferEvent::Drain => BufferRun {
                chunks: before.chunks.push(before.pending),
                pending: Seq::empty(),
            },
        }
    }
}

/// The samples that were delivered while recording, in delivery order.
pub open spec fn recorded<T>(events: Seq<BufferEvent<T>>) -> Seq<T>
    decreases events.len(),
{
    if events.len() == 0 {
        Seq::empty()
    } else {
        match events.last() {
            BufferEvent::Block { recording, samples } => after_block(
                recorded(events.drop_last()),
                recording,
                samples,
            ),
            BufferEvent::Drain => recorded(events.drop_last()),
        }
    }
}

/// Round trip of appending and draining: whatever the interleaving of
/// deliveries and drains, the drained chunks laid end to end, followed by what
/// is still buffered, are exactly the samples delivered while recording, with
/// nothing lost, doubled or moved.
pub proof fn lemma_append_drain_round_trip<T>(events: Seq<BufferEvent<T>>)
    ensures
        replay(events).chunks.flatten() + replay(events).pending == recorded(events),
    decreases events.len(),
{
    broadcast use Seq::lemma_flatten_push;

    if events.len() > 0 {
        lemma_append_drain_round_trip(events.drop_last());
    }
}

/// A run that ends with a drain leaves nothing behind: the chunks alone
/// reproduce the recorded samples.
pub proof fn lemma_final_drain_returns_everything<T>(events: Seq<BufferEvent<T>>)
    requires
        events.len() > 0,
        events.last() is Drain,
    ensures
        replay(events).chunks.flatten() == recorded(events),
        replay(events).pending == Seq::<T>::empty(),
{
    lemma_append_drain_round_trip(events);
}

} // verus!
