//! The periodic chunk scheduler.
//!
//! While a recording is active, a background task polls the scheduler every
//! `POLL_INTERVAL_MS` milliseconds. The scheduler answers whether the task
//! should end, wait, or process what has been buffered, and lets a chunk be
//! processed once per `CHUNK_DURATION_MS` milliseconds. Time is a count of
//! milliseconds on a clock that never runs backwards.

use vstd::prelude::*;

verus! {

/// How much audio goes into one chunk, in milliseconds.
pub const CHUNK_DURATION_MS: u64 = 3000;

/// How long the background task sleeps between two polls, in milliseconds.
pub const POLL_INTERVAL_MS: u64 = 100;

/// What the background task does after a poll.
#[derive(Clone, Copy, Debug, PartialEq, Eq, Structural)]
pub enum SchedulerAction {
    /// Recording has ended: leave the loop.
    Exit,
    /// Not enough time has passed: sleep and poll again.
    Wait,
    /// A chunk is due: process the buffer, then sleep and poll again.
    Process,
}

/// Remembers when a chunk was last processed.
pub struct ChunkScheduler {
    last_process_ms: u64,
}

/// Milliseconds from `earlier` to `now`; zero where `now` is not later.
pub open spec fn elapsed_ms(now: u64, earlier: u64) -> int {
    if now >= earlier {
        now - earlier
    } else {
        0
    }
}

/// Whether a chunk is due at `now`, given when the last one was processed.
pub open spec fn chunk_due(now: u64, last: u64) -> bool {
    elapsed_ms(now, last) >= CHUNK_DURATION_MS
}

/// The decision of a poll.
pub open spec fn decision(recording: bool, now: u64, last: u64) -> SchedulerAction {
    if !recording {
        SchedulerAction::Exit
    } else if chunk_due(now, last) {
        SchedulerAction::Process
    } else {
        SchedulerAction::Wait
    }
}

/// The time of the last processing after a poll: `now` if the poll decided to
/// process, unchanged otherwise.
pub open spec fn last_after(recording: bool, now: u64, last: u64) -> u64 {
    if decision(recording, now, last) == SchedulerAction::Process {
        now
    } else {
        last
    }
}

impl View for ChunkScheduler {
    type V = u64;

    /// The time at which a chunk was last processed.
    closed spec fn view(&self) -> u64 {
        self.last_process_ms
    }
}

impl ChunkScheduler {
    /// A scheduler that counts from `now_ms`.
    pub fn new(now_ms: u64) -> (scheduler: Self)
        ensures
            scheduler@ == now_ms,
    {
        ChunkScheduler { last_process_ms: now_ms }
    }

    /// The time at which a chunk was last processed.
    pub fn last_process_ms(&self) -> (last: u64)
        ensures
            last == self@,
    {
        self.last_process_ms
    }

    /// One poll of the background task at time `now_ms`.
    ///
    /// Without a recording the task ends. With one, a chunk is due once
    /// `CHUNK_DURATION_MS` have passed since the last; the scheduler then
    /// counts from `now_ms` again.
    pub fn poll(&mut self, recording: bool, now_ms: u64) -> (action: SchedulerAction)
        ensures
            action == decision(recording, now_ms, old(self)@),
            final(self)@ == last_after(recording, now_ms, old(self)@),
    {
        if !recording {
            SchedulerAction::Exit
        } else if now_ms >= self.last_process_ms && now_ms - self.last_process_ms
            >= CHUNK_DURATION_MS {
            self.last_process_ms = now_ms;
            SchedulerAction::Process
        } else {
            SchedulerAction::Wait
        }
    }
}

/// Polling keeps pace with capture: after a poll during a recording, less
/// than one chunk duration has passed since a chunk was last processed, and a
/// poll decides to process exactly if a whole chunk duration has passed.
pub proof fn lemma_poll_keeps_pace(now: u64, last: u64)
    ensures
        elapsed_ms(now, last_after(true, now, last)) < CHUNK_DURATION_MS,
        decision(true, now, last) == SchedulerAction::Process <==> elapsed_ms(now, last)
            >= CHUNK_DURATION_MS,
{
}

/// The times at which a run of polls decided to process, given the polling
/// times in order and that recording was active throughout.
pub open spec fn processed_at(start: u64, polls: Seq<u64>) -> Seq<u64>
    decreases polls.len(),
{
    if polls.len() == 0 {
        Seq::empty()
    } else {
        let before = processed_at(start, polls.drop_last());
        if chunk_due(polls.last(), last_of(start, polls.drop_last())) {
            before.push(polls.last())
        } else {
            before
        }
    }
}

/// The scheduler's time of last processing after a run of polls.
pub open spec fn last_of(start: u64, polls: Seq<u64>) -> u64
    decreases polls.len(),
{
    if polls.len() == 0 {
        start
    } else {
        last_after(true, polls.last(), last_of(start, polls.drop_last()))
    }
}

/// The scheduler keeps its cadence: the first chunk is processed no sooner
/// than one chunk duration after the start, and any two chunks are at least
/// one chunk duration apart.
pub proof fn lemma_chunks_keep_their_distance(start: u64, polls: Seq<u64>)
    ensures
        processed_at(start, polls).len() == 0 ==> last_of(start, polls) == start,
        processed_at(start, polls).len() > 0 ==> last_of(start, polls) == processed_at(
            start,
            polls,
        ).last(),
        forall|i: int|
            0 <= i < processed_at(start, polls).len() ==> #[trigger] processed_at(start, polls)[i]
                - (if i == 0 {
                start
            } else {
                processed_at(start, polls)[i - 1]
            }) >= CHUNK_DURATION_MS,
    decreases polls.len(),
{
    if polls.len() > 0 {
        lemma_chunks_keep_their_distance(start, polls.drop_last());
    }
}

} // verus!
