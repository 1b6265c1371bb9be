//! The recording session: the recording that is active, the sample buffer and
//! the chunk scheduler, and the commands that start and stop a recording.
//!
//! A session is idle until a recording starts, records until it is stopped,
//! and is idle again afterwards. The program keeps the session behind a lock
//! and calls into it for each event: a command, a block of samples from the
//! audio callback, a poll of the scheduler task. No call waits for inference
//! or for the network; a chunk that is due is handed out and the lock can be
//! released before the acoustic model runs.

use crate::buffer::{after_block, SampleBuffer};
use crate::capture::{outcome, planned, CaptureError, CaptureFault, CapturePlan, DeviceProbe};
use crate::resample::{resample, resampled, TARGET_SAMPLE_RATE};
use crate::scheduler::{decision, last_after, ChunkScheduler, SchedulerAction};
use vstd::prelude::*;

verus! {

/// The state shared by the capture callback, the scheduler task and the
/// commands, for samples of type `T`.
pub struct WhisperAppState<T> {
    capture: Option<CapturePlan>,
    samples: SampleBuffer<T>,
    scheduler: ChunkScheduler,
}

/// A session as a value.
pub struct SessionView<T> {
    /// The plan of the recording that is active, if one is.
    pub capture: Option<CapturePlan>,
    /// The samples that wait to be processed, oldest first.
    pub samples: Seq<T>,
    /// When a chunk was last processed.
    pub last_process_ms: u64,
}

impl<T> SessionView<T> {
    /// Whether a recording is active.
    pub open spec fn recording(self) -> bool {
        self.capture is Some
    }

    /// The rate at which what is buffered is processed once the recording
    /// stops: the rate of the device that is recorded from. Without a
    /// recording nothing was captured; what may be left in the buffer is then
    /// taken to be at the model's rate.
    pub open spec fn flush_rate(self) -> u32 {
        match self.capture {
            Some(plan) => plan.sample_rate,
            None => TARGET_SAMPLE_RATE,
        }
    }
}

impl<T> View for WhisperAppState<T> {
    type V = SessionView<T>;

    closed spec fn view(&self) -> SessionView<T> {
        SessionView {
            capture: self.capture,
            samples: self.samples@,
            last_process_ms: self.scheduler@,
        }
    }
}

/// The session after a request to start recording, and the answer to it.
///
/// A request during a recording is rejected. Otherwise the probe decides: with
/// a usable device the recording is active from now on, under the plan that
/// is handed out; without one the session stays as it was.
pub open spec fn started<T>(session: SessionView<T>, probe: DeviceProbe) -> (
    SessionView<T>,
    Result<CapturePlan, CaptureFault>,
) {
    if session.recording() {
        (session, Err(CaptureFault::AlreadyRecording))
    } else {
        match planned(probe) {
            Ok(plan) => (SessionView { capture: Some(plan), ..session }, Ok(plan)),
            Err(fault) => (session, Err(fault)),
        }
    }
}

/// The chunk that a pass hands to inference: nothing where nothing is
/// buffered, else all that is buffered, brought to the model's rate.
pub open spec fn chunk_of<T>(samples: Seq<T>, sample_rate: u32) -> Option<Seq<T>> {
    if samples.len() == 0 {
        None
    } else {
        Some(resampled(samples, sample_rate))
    }
}

/// What can happen to a session: each event stands for one call of the
/// session's functions.
pub enum SessionEvent<T> {
    /// A request to start recording, with what the probe of the device found.
    Start(DeviceProbe),
    /// The stream could not be built or played after a start.
    AbortStart,
    /// The audio callback delivered a block.
    Block(Seq<T>),
    /// The scheduler task polled at this time.
    Tick(u64),
    /// A pass took what was buffered.
    TakeChunk,
    /// A request to stop recording.
    Stop,
}

/// The session after an event.
pub open spec fn after_event<T>(session: SessionView<T>, event: SessionEvent<T>) -> SessionView<T> {
    match event {
        SessionEvent::Start(probe) => started(session, probe).0,
        SessionEvent::AbortStart => SessionView { capture: None, ..session },
        SessionEvent::Block(block) => SessionView {
            samples: after_block(session.samples, session.recording(), block),
            ..session
        },
        SessionEvent::Tick(now_ms) => SessionView {
            last_process_ms: last_after(session.recording(), now_ms, session.last_process_ms),
            ..session
        },
        SessionEvent::TakeChunk => SessionView { samples: Seq::empty(), ..session },
        SessionEvent::Stop => SessionView { capture: None, ..session },
    }
}

/// The session after a run of events.
pub open spec fn after_events<T>(session: SessionView<T>, events: Seq<SessionEvent<T>>) -> SessionView<
    T,
>
    decreases events.len(),
{
    if events.len() == 0 {
        session
    } else {
        after_event(after_events(session, events.drop_last()), events.last())
    }
}

/// What the passes of a run took out of the buffer, pass by pass.
pub open spec fn taken<T>(session: SessionView<T>, events: Seq<SessionEvent<T>>) -> Seq<Seq<T>>
    decreases events.len(),
{
    if events.len() == 0 {
        Seq::empty()
    } else {
        let before = taken(session, events.drop_last());
        match events.last() {
            SessionEvent::TakeChunk => before.push(
                after_events(session, events.drop_last()).samples,
            ),
            _ => before,
        }
    }
}

/// The samples of the blocks that arrived while a recording was active, in
/// the order of their arrival.
pub open spec fn heard<T>(session: SessionView<T>, events: Seq<SessionEvent<T>>) -> Seq<T>
    decreases events.len(),
{
    if events.len() == 0 {
        Seq::empty()
    } else {
        let before = heard(session, events.drop_last());
        match events.last() {
            SessionEvent::Block(block) => after_block(
                before,
                after_events(session, events.drop_last()).recording(),
                block,
            ),
            _ => before,
        }
    }
}

/// Nothing is lost, doubled or moved between capture and processing: in any
/// run of starts, stops, blocks, polls and passes, what the passes took, laid
/// end to end and followed by what is still buffered, is what was buffered at
/// the outset followed by the samples that arrived while a recording was
/// active.
pub proof fn lemma_session_round_trip<T>(session: SessionView<T>, events: Seq<SessionEvent<T>>)
    ensures
        taken(session, events).flatten() + after_events(session, events).samples
            == session.samples + heard(session, events),
    decreases events.len(),
{
    broadcast use Seq::lemma_flatten_push;

    if events.len() > 0 {
        let earlier = events.drop_last();
        lemma_session_round_trip(session, earlier);
        match events.last() {
            SessionEvent::Block(block) => {
                // Appending the block to what was heard appends it to the whole.
                assert(session.samples + (heard(session, earlier) + block) =~= (session.samples
                    + heard(session, earlier)) + block);
            },
            _ => {},
        }
    }
}

/// While no recording is active, the buffer does not grow: a block that
/// arrives after a stop, or before a start, is dropped.
pub proof fn lemma_idle_session_buffers_nothing<T>(session: SessionView<T>, block: Seq<T>)
    requires
        !session.recording(),
    ensures
        after_event(session, SessionEvent::Block(block)) == session,
        after_event(after_event(session, SessionEvent::Stop), SessionEvent::Block(block))
            == session,
{
}

/// A start that is taken back leaves the session as it was before the start.
pub proof fn lemma_aborted_start_changes_nothing<T>(session: SessionView<T>, probe: DeviceProbe)
    requires
        !session.recording(),
    ensures
        after_event(after_event(session, SessionEvent::Start(probe)), SessionEvent::AbortStart)
            == session,
        started(session, probe).1 is Err ==> after_event(session, SessionEvent::Start(probe))
            == session,
{
}

/// The last pass takes what is buffered at the rate at which it was captured:
/// a stop answers the rate of the plan that the start handed out, whatever
/// blocks, polls and passes came between. After the stop no recording is
/// active.
pub proof fn lemma_stop_answers_the_rate_of_the_start<T>(
    session: SessionView<T>,
    probe: DeviceProbe,
    events: Seq<SessionEvent<T>>,
)
    requires
        started(session, probe).1 is Ok,
        forall|i: int|
            0 <= i < events.len() ==> (#[trigger] events[i]) is Block || events[i] is Tick
                || events[i] is TakeChunk,
    ensures
        after_events(after_event(session, SessionEvent::Start(probe)), events).flush_rate()
            == started(session, probe).1->Ok_0.sample_rate,
        !after_event(
            after_events(after_event(session, SessionEvent::Start(probe)), events),
            SessionEvent::Stop,
        ).recording(),
    decreases events.len(),
{
    if events.len() > 0 {
        lemma_stop_answers_the_rate_of_the_start(session, probe, events.drop_last());
    }
}

impl<T: Copy> WhisperAppState<T> {
    /// An idle session with an empty buffer, whose scheduler counts from
    /// `now_ms`. Never fails.
    pub fn new(now_ms: u64) -> (state: Result<Self, String>)
        ensures
            state is Ok,
            state->Ok_0@ == (SessionView {
                capture: None,
                samples: Seq::<T>::empty(),
                last_process_ms: now_ms,
            }),
    {
        Ok(
            WhisperAppState {
                capture: None,
                samples: SampleBuffer::new(),
                scheduler: ChunkScheduler::new(now_ms),
            },
        )
    }

    /// Whether a recording is active.
    pub fn is_recording(&self) -> (recording: bool)
        ensures
            recording == self@.recording(),
    {
        self.capture.is_some()
    }

    /// How many samples wait to be processed.
    pub fn buffered(&self) -> (n: usize)
        ensures
            n == self@.samples.len(),
    {
        self.samples.len()
    }

    /// Starts a recording on the device that `probe` describes.
    ///
    /// On success the recording is active and the plan says at which rate and
    /// in which format to capture. On failure the session is left as it was.
    pub fn start_recording(&mut self, probe: &DeviceProbe) -> (result: Result<
        CapturePlan,
        CaptureError,
    >)
        ensures
            final(self)@ == after_event(old(self)@, SessionEvent::Start(*probe)),
            outcome(result) == started(old(self)@, *probe).1,
    {
        if self.capture.is_some() {
            return Err(CaptureError::AlreadyRecording);
        }
        match probe.plan() {
            Ok(plan) => {
                self.capture = Some(plan);
                Ok(plan)
            },
            Err(error) => Err(error),
        }
    }

    /// Takes a start back after the stream could not be built or played: the
    /// recording is no longer active, so that the failed start leaves the
    /// session as it was before.
    pub fn abort_start(&mut self)
        ensures
            final(self)@ == after_event(old(self)@, SessionEvent::AbortStart),
    {
        self.capture = None;
    }

    /// The capture callback: appends `block` if a recording is active and
    /// drops it otherwise.
    pub fn on_block(&mut self, block: &[T])
        ensures
            final(self)@ == after_event(old(self)@, SessionEvent::Block(block@)),
    {
        self.samples.on_block(self.capture.is_some(), block);
    }

    /// One poll of the scheduler task at time `now_ms`.
    pub fn tick(&mut self, now_ms: u64) -> (action: SchedulerAction)
        ensures
            action == decision(old(self)@.recording(), now_ms, old(self)@.last_process_ms),
            final(self)@ == after_event(old(self)@, SessionEvent::Tick(now_ms)),
    {
        self.scheduler.poll(self.capture.is_some(), now_ms)
    }

    /// Begins a pass: takes all that is buffered, leaving the buffer empty for
    /// the capture callback, and brings it to the model's rate.
    ///
    /// With an empty buffer there is no chunk: the pass is over, no inference
    /// runs and nothing is emitted.
    pub fn take_chunk(&mut self, sample_rate: u32) -> (chunk: Option<Vec<T>>)
        ensures
            final(self)@ == after_event(old(self)@, SessionEvent::TakeChunk),
            match chunk {
                Some(samples) => chunk_of(old(self)@.samples, sample_rate) == Some(samples@),
                None => chunk_of(old(self)@.samples, sample_rate) is None,
            },
    {
        let taken: Vec<T> = self.samples.drain();
        if taken.len() == 0 {
            None
        } else {
            Some(resample(taken, sample_rate))
        }
    }

    /// Stops the recording: it is no longer active, so that no block is
    /// buffered from now on. What is buffered stays for the last pass, and the
    /// answer is the rate at which that pass is to take it: the rate of the
    /// device that was recorded from. This never fails, so that nothing stands
    /// in the way of the last pass and of the terminal fragment.
    pub fn stop_recording(&mut self) -> (sample_rate: u32)
        ensures
            final(self)@ == after_event(old(self)@, SessionEvent::Stop),
            sample_rate == old(self)@.flush_rate(),
    {
        let sample_rate: u32 = match self.capture {
            Some(plan) => plan.sample_rate,
            None => TARGET_SAMPLE_RATE,
        };
        self.capture = None;
        sample_rate
    }
}

} // verus!
