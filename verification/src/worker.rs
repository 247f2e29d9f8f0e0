//! The worker that feeds an output stream.
//!
//! The worker is a loop around a device. It waits until the stream is told to
//! play, and until the device has room, then has the data callback fill a buffer
//! of the size of that room and writes it to the device. [`OutputWorker`] makes
//! the decisions: it says what to do next, and is told what came of it.
use vstd::pervasive::unreached;
use vstd::prelude::*;

use crate::config::SampleFormat;
use crate::error::{BackendSpecificError, StreamError};
use crate::stream::StreamInner;
use crate::text::failure_text;
use crate::time::{OutputCallbackInfo, OutputStreamTimestamp, StreamInstant, NANOS_PER_SEC};

verus! {

/// How long the worker sleeps before it looks again, in milliseconds.
pub const SLEEP_MILLIS: u64 = 10;

/// The buffer of a worker.
#[derive(Debug)]
pub struct StreamWorkerContext {
    pub buffer: Vec<u8>,
}

/// `bytes` cut or filled up with zeros to the length `n`.
pub open spec fn resized(bytes: Seq<u8>, n: nat) -> Seq<u8> {
    Seq::new(n, |i: int| if i < bytes.len() { bytes[i] } else { 0u8 })
}

impl StreamWorkerContext {
    /// A context with an empty buffer.
    pub fn new() -> (ctxt: StreamWorkerContext)
        ensures
            ctxt.buffer@ == Seq::<u8>::empty(),
    {
        StreamWorkerContext { buffer: Vec::new() }
    }

    /// Gives the buffer the length `n`: the bytes that still fit stay, and new
    /// ones are zero.
    fn resize(&mut self, n: usize)
        ensures
            final(self).buffer@ == resized(old(self).buffer@, n as nat),
    {
        let ghost before = self.buffer@;
        self.buffer.resize(n, 0u8);
        proof {
            if n <= before.len() {
                assert(self.buffer@ =~= resized(before, n as nat));
            } else {
                assert forall|i: int| 0 <= i < before.len() implies self.buffer@[i] == before[i] by {
                    assert(self.buffer@.subrange(0, before.len() as int)[i] == before[i]);
                }
                assert(self.buffer@ =~= resized(before, n as nat));
            }
        }
    }
}

/// Where the worker stands. `sleeps` says whether it waits for a minimal amount
/// of room in the device's buffer.
#[derive(Clone, Copy, Debug, PartialEq, Eq, Structural)]
pub enum WorkerState {
    /// The room before any data is sent has been asked for.
    Starting,
    /// It has been asked whether the stream is told to play.
    Checking { sleeps: bool },
    /// The worker sleeps.
    Resting { sleeps: bool },
    /// The room has been asked for.
    Measuring { sleeps: bool },
    /// The output delay has been asked for, with room for `bytes` bytes.
    Delaying { sleeps: bool, bytes: u32 },
    /// The time has been asked for. The buffer holds `samples` samples, and will
    /// be heard in `delay` nanoseconds.
    Timing { sleeps: bool, samples: usize, delay: u64 },
    /// The data callback has been given `samples` samples and `info`.
    Filling { sleeps: bool, samples: usize, info: OutputCallbackInfo },
    /// The buffer is being written to the device.
    Writing { sleeps: bool },
}

/// What the worker is told: the outcome of the action that it named last. A
/// failed call on the device comes with the text of its error.
#[derive(Debug, PartialEq, Eq)]
pub enum WorkerEvent {
    /// The bytes for which the device has room.
    Space(Result<u32, String>),
    /// Whether the stream is told to play.
    Playing(bool),
    /// The sleep is over.
    Slept,
    /// The bytes to be played before any new ones.
    Delay(Result<u32, String>),
    /// The nanoseconds since the worker started.
    Now(u128),
    /// The data callback has returned.
    Filled,
    /// The buffer was written, or not.
    Played(Result<(), String>),
}

/// What the worker wants done.
#[derive(Clone, Copy, Debug, PartialEq, Eq, Structural)]
pub enum WorkerAction {
    /// Ask the device for how many bytes it has room.
    SpaceOutput,
    /// See whether the stream is told to play.
    LoadPlaying,
    /// Sleep.
    Sleep { millis: u64 },
    /// Ask the device how many bytes it has yet to play.
    Delay,
    /// Look at the clock.
    Now,
    /// Call the data callback on the first `samples` samples of the buffer.
    Fill { samples: usize, info: OutputCallbackInfo },
    /// Write the buffer to the device.
    Play,
}

/// The worker of an output stream.
#[derive(Clone, Copy, Debug, PartialEq, Eq)]
pub struct OutputWorker {
    pub sample_format: SampleFormat,
    pub channels: u16,
    pub sample_rate: u32,
    pub state: WorkerState,
}

/// The number that a call on the device gave, or zero where it failed.
pub open spec fn value_or_zero(r: Result<u32, String>) -> u32 {
    match r {
        Ok(n) => n,
        Err(_) => 0,
    }
}

/// What is said of a failed call on the device.
pub open spec fn complaint<T>(what: Seq<char>, r: Result<T, String>) -> Option<Seq<char>> {
    match r {
        Ok(_) => None,
        Err(e) => Some(crate::text::failure(what, e@)),
    }
}

/// What the error callback is told of `event`.
pub open spec fn complaint_of(event: WorkerEvent) -> Option<Seq<char>> {
    match event {
        WorkerEvent::Space(r) => complaint("output space error"@, r),
        WorkerEvent::Delay(r) => complaint("delay error"@, r),
        WorkerEvent::Played(r) => complaint("play errror"@, r),
        _ => None,
    }
}

impl OutputWorker {
    /// The bytes that one sample of all channels takes.
    pub open spec fn frame_size(self) -> nat {
        self.sample_format.size() * self.channels as nat
    }

    /// The bytes that are played while the worker sleeps.
    pub open spec fn sleep_size(self) -> nat {
        self.sample_rate as nat * self.frame_size() * SLEEP_MILLIS as nat / 1000
    }

    /// Whether a device whose buffer has room for `bytes` bytes before any data is
    /// sent is one to wait for: its buffer holds what two sleeps take.
    pub open spec fn worth_sleeping(self, bytes: u32) -> bool {
        bytes >= 2 * self.sleep_size()
    }

    /// Whether room for `bytes` bytes is too little to be filled.
    pub open spec fn too_little(self, sleeps: bool, bytes: u32) -> bool {
        bytes == 0 || (sleeps && bytes < 2 * self.sleep_size())
    }

    /// The nanoseconds that `bytes` bytes take to be played.
    pub open spec fn delay_nanos(self, bytes: u32) -> nat {
        bytes as nat * NANOS_PER_SEC as nat / self.frame_size() / self.sample_rate as nat
    }

    /// The samples that a buffer of `bytes` bytes holds.
    pub open spec fn samples_in(self, bytes: u32) -> nat {
        bytes as nat / self.sample_format.size()
    }

    /// What the data callback is told `elapsed` nanoseconds after the start, with
    /// `delay` nanoseconds to be played first.
    pub open spec fn callback_info(elapsed: int, delay: int) -> OutputCallbackInfo {
        OutputCallbackInfo {
            timestamp: OutputStreamTimestamp {
                callback: StreamInstant::at(elapsed),
                playback: StreamInstant::at(elapsed + delay),
            },
        }
    }

    /// Whether `event` is the outcome of what the worker asked for, and one that
    /// it can compute with: a delay takes a configuration with channels and a
    /// sample rate, and the time of playback must be an instant.
    pub open spec fn awaits(self, event: WorkerEvent) -> bool {
        match (self.state, event) {
            (WorkerState::Starting, WorkerEvent::Space(_)) => true,
            (WorkerState::Checking { .. }, WorkerEvent::Playing(_)) => true,
            (WorkerState::Resting { .. }, WorkerEvent::Slept) => true,
            (WorkerState::Measuring { .. }, WorkerEvent::Space(_)) => true,
            (WorkerState::Delaying { .. }, WorkerEvent::Delay(_)) => {
                self.channels > 0 && self.sample_rate > 0
            },
            (WorkerState::Timing { delay, .. }, WorkerEvent::Now(elapsed)) => {
                StreamInstant::representable(elapsed + delay)
            },
            (WorkerState::Filling { .. }, WorkerEvent::Filled) => true,
            (WorkerState::Writing { .. }, WorkerEvent::Played(_)) => true,
            _ => false,
        }
    }

    /// Where the worker stands after `event`.
    pub open spec fn next_state(self, event: WorkerEvent) -> WorkerState {
        match (self.state, event) {
            (WorkerState::Starting, WorkerEvent::Space(r)) => {
                WorkerState::Checking { sleeps: self.worth_sleeping(value_or_zero(r)) }
            },
            (WorkerState::Checking { sleeps }, WorkerEvent::Playing(playing)) => {
                if playing {
                    WorkerState::Measuring { sleeps }
                } else {
                    WorkerState::Resting { sleeps }
                }
            },
            (WorkerState::Resting { sleeps }, WorkerEvent::Slept) => {
                WorkerState::Checking { sleeps }
            },
            (WorkerState::Measuring { sleeps }, WorkerEvent::Space(r)) => {
                let bytes = value_or_zero(r);
                if self.too_little(sleeps, bytes) {
                    WorkerState::Resting { sleeps }
                } else {
                    WorkerState::Delaying { sleeps, bytes }
                }
            },
            (WorkerState::Delaying { sleeps, bytes }, WorkerEvent::Delay(r)) => {
                WorkerState::Timing {
                    sleeps,
                    samples: self.samples_in(bytes) as usize,
                    delay: self.delay_nanos(value_or_zero(r)) as u64,
                }
            },
            (WorkerState::Timing { sleeps, samples, delay }, WorkerEvent::Now(elapsed)) => {
                WorkerState::Filling {
                    sleeps,
                    samples,
                    info: Self::callback_info(elapsed as int, delay as int),
                }
            },
            (WorkerState::Filling { sleeps, .. }, WorkerEvent::Filled) => {
                WorkerState::Writing { sleeps }
            },
            (WorkerState::Writing { sleeps }, WorkerEvent::Played(_)) => {
                WorkerState::Checking { sleeps }
            },
            (state, _) => state,
        }
    }

    /// The worker after `event`.
    pub open spec fn next(self, event: WorkerEvent) -> OutputWorker {
        OutputWorker { state: self.next_state(event), ..self }
    }

    /// What the worker wants done: what its state says has been asked for.
    pub open spec fn pending(self) -> WorkerAction {
        match self.state {
            WorkerState::Starting => WorkerAction::SpaceOutput,
            WorkerState::Checking { .. } => WorkerAction::LoadPlaying,
            WorkerState::Resting { .. } => WorkerAction::Sleep { millis: SLEEP_MILLIS },
            WorkerState::Measuring { .. } => WorkerAction::SpaceOutput,
            WorkerState::Delaying { .. } => WorkerAction::Delay,
            WorkerState::Timing { .. } => WorkerAction::Now,
            WorkerState::Filling { samples, info, .. } => WorkerAction::Fill { samples, info },
            WorkerState::Writing { .. } => WorkerAction::Play,
        }
    }

    /// The worker's buffer after `event`: it gets the size of the device's room
    /// once the output delay is known, and is left alone otherwise.
    pub open spec fn next_buffer(self, buffer: Seq<u8>, event: WorkerEvent) -> Seq<u8> {
        match (self.state, event) {
            (WorkerState::Delaying { bytes, .. }, WorkerEvent::Delay(_)) => {
                resized(buffer, bytes as nat)
            },
            _ => buffer,
        }
    }

    /// The bytes that one sample of all channels takes.
    fn frame_bytes(&self) -> (n: u64)
        ensures
            n == self.frame_size(),
            n <= 8 * 0xffff,
    {
        let size: u64 = self.sample_format.sample_size() as u64;
        assert(size * self.channels <= 8 * 0xffff) by (nonlinear_arith)
            requires
                size <= 8,
                self.channels <= 0xffff,
        ;
        size * (self.channels as u64)
    }

    /// The bytes that are played while the worker sleeps.
    fn sleep_bytes(&self) -> (n: u64)
        ensures
            n == self.sleep_size(),
            n < 0x1_0000_0000_0000,
    {
        let frame: u64 = self.frame_bytes();
        let rate: u64 = self.sample_rate as u64;
        assert(0 <= rate * frame <= 0xffff_ffff * (8 * 0xffff)) by (nonlinear_arith)
            requires
                rate <= 0xffff_ffff,
                frame <= 8 * 0xffff,
        ;
        rate * frame * SLEEP_MILLIS / 1000
    }

    /// The nanoseconds that `bytes` bytes take to be played.
    fn delay_of(&self, bytes: u32) -> (n: u64)
        requires
            self.channels > 0,
            self.sample_rate > 0,
        ensures
            n == self.delay_nanos(bytes),
    {
        let frame: u64 = self.frame_bytes();
        assert(frame > 0) by (nonlinear_arith)
            requires
                frame == self.sample_format.size() * self.channels as nat,
                self.sample_format.size() > 0,
                self.channels > 0,
        ;
        assert(0 <= bytes * NANOS_PER_SEC <= u64::MAX) by (nonlinear_arith)
            requires
                bytes <= 0xffff_ffff,
                NANOS_PER_SEC == 1_000_000_000,
        ;
        (bytes as u64) * (NANOS_PER_SEC as u64) / frame / (self.sample_rate as u64)
    }

    /// Whether `event` is one that the worker awaits.
    pub fn accepts(&self, event: &WorkerEvent) -> (b: bool)
        ensures
            b == self.awaits(*event),
    {
        match (&self.state, event) {
            (WorkerState::Starting, WorkerEvent::Space(_)) => true,
            (WorkerState::Checking { .. }, WorkerEvent::Playing(_)) => true,
            (WorkerState::Resting { .. }, WorkerEvent::Slept) => true,
            (WorkerState::Measuring { .. }, WorkerEvent::Space(_)) => true,
            (WorkerState::Delaying { .. }, WorkerEvent::Delay(_)) => {
                self.channels > 0 && self.sample_rate > 0
            },
            (WorkerState::Timing { delay, .. }, WorkerEvent::Now(elapsed)) => {
                match elapsed.checked_add(*delay as u128) {
                    Some(total) => total / (NANOS_PER_SEC as u128) <= i64::MAX as u128,
                    None => false,
                }
            },
            (WorkerState::Filling { .. }, WorkerEvent::Filled) => true,
            (WorkerState::Writing { .. }, WorkerEvent::Played(_)) => true,
            _ => false,
        }
    }

    /// What the worker wants done.
    pub fn action(&self) -> (action: WorkerAction)
        ensures
            action == self.pending(),
    {
        match self.state {
            WorkerState::Starting => WorkerAction::SpaceOutput,
            WorkerState::Checking { .. } => WorkerAction::LoadPlaying,
            WorkerState::Resting { .. } => WorkerAction::Sleep { millis: SLEEP_MILLIS },
            WorkerState::Measuring { .. } => WorkerAction::SpaceOutput,
            WorkerState::Delaying { .. } => WorkerAction::Delay,
            WorkerState::Timing { .. } => WorkerAction::Now,
            WorkerState::Filling { samples, info, .. } => WorkerAction::Fill { samples, info },
            WorkerState::Writing { .. } => WorkerAction::Play,
        }
    }

    /// Takes the outcome of the last action. What to do next is then in
    /// [`OutputWorker::action`]; before that, an error that is returned is to be
    /// handed to the error callback.
    ///
    /// A failed call on the device stops nothing: a failed request for the room or
    /// for the delay counts as zero bytes.
    pub fn step(&mut self, ctxt: &mut StreamWorkerContext, event: WorkerEvent) -> (report: Option<
        StreamError,
    >)
        requires
            old(self).awaits(event),
        ensures
            *final(self) == old(self).next(event),
            final(ctxt).buffer@ == old(self).next_buffer(old(ctxt).buffer@, event),
            match report {
                Some(error) => complaint_of(event) == Some(error.description()),
                None => complaint_of(event) is None,
            },
            report matches Some(StreamError::BackendSpecific { err }) ==> complaint_of(event)
                == Some(err.description@),
    {
        match (self.state, event) {
            (WorkerState::Starting, WorkerEvent::Space(r)) => {
                let (bytes, report) = settle("output space error", r);
                let sleeps = bytes as u64 >= 2 * self.sleep_bytes();
                self.state = WorkerState::Checking { sleeps };
                report
            },
            (WorkerState::Checking { sleeps }, WorkerEvent::Playing(playing)) => {
                self.state = if playing {
                    WorkerState::Measuring { sleeps }
                } else {
                    WorkerState::Resting { sleeps }
                };
                None
            },
            (WorkerState::Resting { sleeps }, WorkerEvent::Slept) => {
                self.state = WorkerState::Checking { sleeps };
                None
            },
            (WorkerState::Measuring { sleeps }, WorkerEvent::Space(r)) => {
                let (bytes, report) = settle("output space error", r);
                self.state = if bytes == 0 || sleeps && (bytes as u64) < 2 * self.sleep_bytes() {
                    WorkerState::Resting { sleeps }
                } else {
                    WorkerState::Delaying { sleeps, bytes }
                };
                report
            },
            (WorkerState::Delaying { sleeps, bytes }, WorkerEvent::Delay(r)) => {
                let (ahead, report) = settle("delay error", r);
                let delay: u64 = self.delay_of(ahead);
                ctxt.resize(bytes as usize);
                let samples: usize = ctxt.buffer.len() / self.sample_format.sample_size();
                self.state = WorkerState::Timing { sleeps, samples, delay };
                report
            },
            (WorkerState::Timing { sleeps, samples, delay }, WorkerEvent::Now(elapsed)) => {
                let info = callback_info_at(elapsed, delay);
                self.state = WorkerState::Filling { sleeps, samples, info };
                None
            },
            (WorkerState::Filling { sleeps, .. }, WorkerEvent::Filled) => {
                self.state = WorkerState::Writing { sleeps };
                None
            },
            (WorkerState::Writing { sleeps }, WorkerEvent::Played(r)) => {
                self.state = WorkerState::Checking { sleeps };
                match r {
                    Ok(()) => None,
                    Err(e) => Some(stream_error("play errror", e.as_str())),
                }
            },
            _ => unreached(),
        }
    }
}

/// The error that the error callback is given for a failed call on the device.
fn stream_error(what: &str, cause: &str) -> (error: StreamError)
    ensures
        error.description() == crate::text::failure(what@, cause@),
{
    StreamError::BackendSpecific {
        err: BackendSpecificError { description: failure_text(what, cause) },
    }
}

/// The number that a call on the device gave, with an error to be reported and
/// zero in its place where the call failed.
fn settle(what: &str, r: Result<u32, String>) -> (settled: (u32, Option<StreamError>))
    ensures
        settled.0 == value_or_zero(r),
        match settled.1 {
            Some(error) => complaint(what@, r) == Some(error.description()),
            None => complaint(what@, r) is None,
        },
{
    match r {
        Ok(n) => (n, None),
        Err(e) => (0, Some(stream_error(what, e.as_str()))),
    }
}

/// What the data callback is told `elapsed` nanoseconds after the start, with
/// `delay` nanoseconds to be played first.
fn callback_info_at(elapsed: u128, delay: u64) -> (info: OutputCallbackInfo)
    requires
        StreamInstant::representable(elapsed + delay),
    ensures
        info == OutputWorker::callback_info(elapsed as int, delay as int),
{
    let callback = StreamInstant::from_nanos_i128(elapsed as i128).unwrap();
    let playback = callback.add(delay).unwrap();
    OutputCallbackInfo { timestamp: OutputStreamTimestamp { callback, playback } }
}

/// Starts the worker of a stream. Its first action is
/// [`WorkerAction::SpaceOutput`], for the room before any data is sent.
pub fn output_stream_worker(inner: &StreamInner) -> (worker: OutputWorker)
    ensures
        worker == (OutputWorker {
            sample_format: inner.sample_format,
            channels: inner.config.channels,
            sample_rate: inner.config.sample_rate.0,
            state: WorkerState::Starting,
        }),
{
    OutputWorker {
        sample_format: inner.sample_format,
        channels: inner.config.channels,
        sample_rate: inner.config.sample_rate.0,
        state: WorkerState::Starting,
    }
}

/// What holds of a worker over all that it is told.
impl OutputWorker {
    /// The worker after `events`, in turn.
    pub open spec fn after(self, events: Seq<WorkerEvent>) -> OutputWorker
        decreases events.len(),
    {
        if events.len() == 0 {
            self
        } else {
            self.after(events.drop_last()).next(events.last())
        }
    }

    /// Whether each of `events` is awaited when it comes.
    pub open spec fn follows(self, events: Seq<WorkerEvent>) -> bool
        decreases events.len(),
    {
        events.len() == 0 || {
            &&& self.follows(events.drop_last())
            &&& self.after(events.drop_last()).awaits(events.last())
        }
    }

    /// Whether the worker waits for a minimal amount of room, once that is decided.
    pub open spec fn sleeps(self) -> Option<bool> {
        match self.state {
            WorkerState::Starting => None,
            WorkerState::Checking { sleeps } => Some(sleeps),
            WorkerState::Resting { sleeps } => Some(sleeps),
            WorkerState::Measuring { sleeps } => Some(sleeps),
            WorkerState::Delaying { sleeps, .. } => Some(sleeps),
            WorkerState::Timing { sleeps, .. } => Some(sleeps),
            WorkerState::Filling { sleeps, .. } => Some(sleeps),
            WorkerState::Writing { sleeps } => Some(sleeps),
        }
    }

    /// The room that the device has before any data is sent decides, once and for
    /// all, whether the worker waits for a minimal amount of room. Nothing that
    /// the worker is told changes its configuration.
    pub proof fn law_sleeps_is_decided_once(self, events: Seq<WorkerEvent>)
        requires
            self.state is Starting,
            self.follows(events),
        ensures
            events.len() == 0 <==> self.after(events).state is Starting,
            events.len() > 0 ==> {
                &&& events[0] matches WorkerEvent::Space(r)
                &&& self.after(events).sleeps() == Some(self.worth_sleeping(value_or_zero(r)))
            },
            self.after(events) == (OutputWorker { state: self.after(events).state, ..self }),
        decreases events.len(),
    {
        if events.len() > 0 {
            let front = events.drop_last();
            self.law_sleeps_is_decided_once(front);
            if front.len() > 0 {
                assert(front[0] == events[0]);
            }
        }
    }

    /// As long as the stream is not told to play, the worker only looks again and
    /// sleeps: it neither calls the data callback nor writes to the device, nor
    /// asks it for anything but the room at the start. That holds from the start,
    /// and from every point at which it looks or sleeps.
    pub proof fn law_silent_until_told_to_play(self, events: Seq<WorkerEvent>)
        requires
            self.state is Starting || self.state is Checking || self.state is Resting,
            self.follows(events),
            forall|i: int| 0 <= i < events.len() ==> events[i] != WorkerEvent::Playing(true),
        ensures
            events.len() > 0 ==> {
                ||| self.after(events).pending() == WorkerAction::LoadPlaying
                ||| self.after(events).pending() == (WorkerAction::Sleep { millis: 10 })
            },
            self.after(events).state is Starting || self.after(events).state is Checking
                || self.after(events).state is Resting,
        decreases events.len(),
    {
        if events.len() > 0 {
            let front = events.drop_last();
            assert forall|i: int| 0 <= i < front.len() implies front[i] != WorkerEvent::Playing(
                true,
            ) by {
                assert(front[i] == events[i]);
            }
            self.law_silent_until_told_to_play(front);
            assert(events.last() == events[events.len() - 1]);
        }
    }

    /// Each write to the device comes at the end of a whole round: the stream was
    /// told to play, the device then gave room for some bytes, and for what two
    /// sleeps take if its whole buffer holds that much, then gave its output
    /// delay, and then the data callback was called and returned.
    pub proof fn law_each_write_ends_a_round(self, events: Seq<WorkerEvent>)
        requires
            self.state is Starting,
            self.follows(events),
            self.after(events).pending() == WorkerAction::Play,
        ensures
            events.len() >= 6,
            ({
                let n = events.len() as int;
                &&& events[n - 5] == WorkerEvent::Playing(true)
                &&& events[n - 4] matches WorkerEvent::Space(Ok(room))
                &&& room > 0
                &&& events[0] matches WorkerEvent::Space(first)
                &&& self.worth_sleeping(value_or_zero(first)) ==> room >= 2 * self.sleep_size()
                &&& self.after(events.take(n - 3)).state matches WorkerState::Delaying { bytes, .. }
                &&& bytes == room
                &&& events[n - 3] matches WorkerEvent::Delay(ahead)
                &&& events[n - 2] matches WorkerEvent::Now(elapsed)
                &&& self.after(events.take(n - 1)).pending() matches WorkerAction::Fill {
                    samples,
                    info,
                }
                &&& samples == self.samples_in(room)
                &&& info == Self::callback_info(
                    elapsed as int,
                    self.delay_nanos(value_or_zero(ahead)) as int,
                )
                &&& events[n - 1] == WorkerEvent::Filled
            }),
    {
        reveal_with_fuel(OutputWorker::follows, 6);
        reveal_with_fuel(OutputWorker::after, 6);
        let n = events.len() as int;
        let filling = events.drop_last();
        let timing = filling.drop_last();
        let delaying = timing.drop_last();
        let measuring = delaying.drop_last();
        let checking = measuring.drop_last();
        self.law_sleeps_is_decided_once(filling);
        self.law_sleeps_is_decided_once(timing);
        self.law_sleeps_is_decided_once(delaying);
        self.law_sleeps_is_decided_once(measuring);
        self.law_sleeps_is_decided_once(checking);
        assert(filling =~= events.take(n - 1));
        assert(delaying =~= events.take(n - 3));
        self.law_delay_is_rounded_down(value_or_zero(events[n - 3]->Delay_0));
        self.law_samples_lie_in_the_buffer(events[n - 4]->Space_0->Ok_0);
    }

    /// The delay is the time that the bytes take to be played, rounded down to a
    /// whole nanosecond, and can be counted in 64 bits.
    pub proof fn law_delay_is_rounded_down(self, bytes: u32)
        requires
            self.channels > 0,
            self.sample_rate > 0,
        ensures
            ({
                let bytes_per_sec = self.sample_format.size() * self.channels as nat
                    * self.sample_rate as nat;
                &&& self.delay_nanos(bytes) * bytes_per_sec <= bytes * 1_000_000_000
                &&& bytes * 1_000_000_000 < (self.delay_nanos(bytes) + 1) * bytes_per_sec
            }),
            self.delay_nanos(bytes) <= u64::MAX,
    {
        let frame = self.frame_size() as int;
        let rate = self.sample_rate as int;
        let total = bytes as int * NANOS_PER_SEC as int;
        let delay = self.delay_nanos(bytes) as int;
        assert(frame > 0) by (nonlinear_arith)
            requires
                frame == self.sample_format.size() * self.channels as nat,
                self.sample_format.size() > 0,
                self.channels > 0,
        ;
        assert(frame * rate > 0) by (nonlinear_arith)
            requires
                frame > 0,
                rate > 0,
        ;
        vstd::arithmetic::div_mod::lemma_div_denominator(total, frame, rate);
        vstd::arithmetic::div_mod::lemma_fundamental_div_mod(total, frame * rate);
        assert(delay == total / (frame * rate));
        assert(delay * (frame * rate) <= total < (delay + 1) * (frame * rate))
            by (nonlinear_arith)
            requires
                total == (frame * rate) * delay + total % (frame * rate),
                0 <= total % (frame * rate) < frame * rate,
        ;
        assert(delay <= total) by (nonlinear_arith)
            requires
                delay >= 0,
                frame * rate > 0,
                delay * (frame * rate) <= total,
        ;
    }

    /// The samples of a buffer are whole, and no whole sample is left out.
    pub proof fn law_samples_lie_in_the_buffer(self, bytes: u32)
        ensures
            self.samples_in(bytes) * self.sample_format.size() <= bytes,
            bytes < (self.samples_in(bytes) + 1) * self.sample_format.size(),
            self.samples_in(bytes) <= bytes,
    {
        let size = self.sample_format.size() as int;
        let n = bytes as int;
        vstd::arithmetic::div_mod::lemma_fundamental_div_mod(n, size);
        assert((n / size) * size <= n < (n / size + 1) * size && n / size <= n)
            by (nonlinear_arith)
            requires
                n == size * (n / size) + n % size,
                0 <= n % size < size,
                size >= 1,
                n >= 0,
        ;
    }

    /// The worker's buffer after `events`, where the data callback that the event
    /// at `i` ends left `left(i)` in it, and `buffer` was in it at first.
    pub open spec fn buffer_after(
        self,
        events: Seq<WorkerEvent>,
        left: spec_fn(int) -> Seq<u8>,
        buffer: Seq<u8>,
    ) -> Seq<u8>
        decreases events.len(),
    {
        if events.len() == 0 {
            buffer
        } else {
            let before = self.buffer_after(events.drop_last(), left, buffer);
            let found = if events.last() is Filled {
                left(events.len() - 1)
            } else {
                before
            };
            self.after(events.drop_last()).next_buffer(found, events.last())
        }
    }

    /// The data callback gets a buffer of the size of the room that the device
    /// gave, with the samples that it may touch inside it, and what is written to
    /// the device is what the data callback left there.
    pub proof fn law_written_is_what_the_callback_left(
        self,
        events: Seq<WorkerEvent>,
        left: spec_fn(int) -> Seq<u8>,
        buffer: Seq<u8>,
    )
        requires
            self.state is Starting,
            self.follows(events),
            self.after(events).pending() == WorkerAction::Play,
        ensures
            ({
                let n = events.len() as int;
                let given = self.buffer_after(events.drop_last(), left, buffer);
                &&& n >= 6
                &&& events[n - 4] matches WorkerEvent::Space(Ok(room))
                &&& given.len() == room
                &&& self.after(events.drop_last()).pending() matches WorkerAction::Fill {
                    samples,
                    ..
                }
                &&& samples * self.sample_format.size() <= given.len()
                &&& self.buffer_after(events, left, buffer) == left(n - 1)
            }),
    {
        reveal_with_fuel(OutputWorker::follows, 6);
        reveal_with_fuel(OutputWorker::after, 6);
        reveal_with_fuel(OutputWorker::buffer_after, 6);
        self.law_each_write_ends_a_round(events);
        let n = events.len() as int;
        let filling = events.drop_last();
        let delaying = filling.drop_last().drop_last();
        assert(filling =~= events.take(n - 1));
        assert(delaying =~= events.take(n - 3));
        self.law_samples_lie_in_the_buffer(events[n - 4]->Space_0->Ok_0);
    }

    /// What the data callback writes is heard after the delay: the time of playback
    /// lies that many nanoseconds after the time of the callback, which is the time
    /// since the worker started.
    pub proof fn law_playback_comes_after_the_delay(elapsed: int, delay: int)
        requires
            0 <= elapsed,
            0 <= delay,
            StreamInstant::representable(elapsed + delay),
        ensures
            ({
                let timestamp = Self::callback_info(elapsed, delay).timestamp;
                &&& timestamp.callback.valid()
                &&& timestamp.playback.valid()
                &&& timestamp.callback.nanos_total() == elapsed
                &&& timestamp.playback.nanos_total() == timestamp.callback.nanos_total() + delay
            }),
    {
        StreamInstant::law_at(elapsed);
        StreamInstant::law_at(elapsed + delay);
    }

    /// No failed call on the device stops the worker. A round of a playing stream
    /// leads back to its start, whether or not the delay and the write fail, and
    /// a failed request for the room leads there after a sleep.
    pub proof fn law_failures_stop_nothing(
        self,
        room: u32,
        ahead: Result<u32, String>,
        elapsed: u128,
        written: Result<(), String>,
        cause: String,
    )
        requires
            self.state is Checking,
            self.channels > 0,
            self.sample_rate > 0,
            !self.too_little(self.state->Checking_sleeps, room),
            StreamInstant::representable(elapsed + self.delay_nanos(value_or_zero(ahead))),
        ensures
            ({
                let round = seq![
                    WorkerEvent::Playing(true),
                    WorkerEvent::Space(Ok(room)),
                    WorkerEvent::Delay(ahead),
                    WorkerEvent::Now(elapsed),
                    WorkerEvent::Filled,
                    WorkerEvent::Played(written),
                ];
                self.follows(round) && self.after(round) == self
            }),
            ({
                let round = seq![
                    WorkerEvent::Playing(true),
                    WorkerEvent::Space(Err(cause)),
                    WorkerEvent::Slept,
                ];
                self.follows(round) && self.after(round) == self
            }),
    {
        reveal_with_fuel(OutputWorker::follows, 7);
        reveal_with_fuel(OutputWorker::after, 7);
        self.law_delay_is_rounded_down(value_or_zero(ahead));
        let e1 = seq![WorkerEvent::Playing(true)];
        let e2 = e1.push(WorkerEvent::Space(Ok(room)));
        let e3 = e2.push(WorkerEvent::Delay(ahead));
        let e4 = e3.push(WorkerEvent::Now(elapsed));
        let e5 = e4.push(WorkerEvent::Filled);
        let e6 = e5.push(WorkerEvent::Played(written));
        assert(e1.drop_last() =~= Seq::<WorkerEvent>::empty());
        assert(e2.drop_last() =~= e1);
        assert(e3.drop_last() =~= e2);
        assert(e4.drop_last() =~= e3);
        assert(e5.drop_last() =~= e4);
        assert(e6.drop_last() =~= e5);
        let f2 = e1.push(WorkerEvent::Space(Err(cause)));
        let f3 = f2.push(WorkerEvent::Slept);
        assert(f2.drop_last() =~= e1);
        assert(f3.drop_last() =~= f2);
    }
}

} // verus!
