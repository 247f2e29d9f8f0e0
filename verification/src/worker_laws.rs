//! What the worker of an output stream does, in terms of what it is told, of what
//! it then wants done, and of the sample format, the channels and the sample rate
//! of the stream.
use vstd::prelude::*;

use crate::time::StreamInstant;
use crate::worker::{OutputWorker, WorkerAction, WorkerEvent, WorkerState};

verus! {

/// Where the bytes that ten milliseconds of sound take, rounded down, are `ten`, the
/// worker reckons with that number.
proof fn lemma_sleep_size(worker: OutputWorker, ten: nat)
    requires
        ten * 1000 <= worker.sample_format.size() * worker.channels as nat
            * worker.sample_rate as nat * 10 < (ten + 1) * 1000,
    ensures
        worker.sleep_size() == ten,
{
    let size = worker.sample_format.size();
    let channels = worker.channels as nat;
    let rate = worker.sample_rate as nat;
    assert(size * channels * rate == rate * (size * channels)) by (nonlinear_arith);
}

/// Where the nanoseconds that `bytes` bytes take, rounded down, are `nanos`, the
/// worker reckons with that number.
proof fn lemma_delay(worker: OutputWorker, bytes: u32, nanos: nat)
    requires
        worker.channels > 0,
        worker.sample_rate > 0,
        nanos * (worker.sample_format.size() * worker.channels as nat
            * worker.sample_rate as nat) <= bytes * 1_000_000_000,
        bytes * 1_000_000_000 < (nanos + 1) * (worker.sample_format.size()
            * worker.channels as nat * worker.sample_rate as nat),
    ensures
        worker.delay_nanos(bytes) == nanos,
        nanos <= u64::MAX,
{
    worker.law_delay_is_rounded_down(bytes);
    let per_sec = worker.sample_format.size() * worker.channels as nat
        * worker.sample_rate as nat;
    let delay = worker.delay_nanos(bytes);
    let total = bytes as nat * 1_000_000_000;
    assert(delay == nanos) by (nonlinear_arith)
        requires
            nanos * per_sec <= total < (nanos + 1) * per_sec,
            delay * per_sec <= total < (delay + 1) * per_sec,
    ;
}

/// One more event is one more step.
proof fn lemma_push(worker: OutputWorker, events: Seq<WorkerEvent>, event: WorkerEvent)
    ensures
        worker.after(events.push(event)) == worker.after(events).next(event),
        worker.follows(events.push(event)) <==> worker.follows(events) && worker.after(
            events,
        ).awaits(event),
{
    assert(events.push(event).drop_last() =~= events);
}

/// The worker takes the answer to what it wants done, whatever the answer is, and
/// nothing else. The exceptions are a delay for a stream without channels or without
/// a sample rate, and a time whose playback has more seconds than can be counted.
pub proof fn law_takes_every_answer(worker: OutputWorker, event: WorkerEvent)
    ensures
        worker.awaits(event) <==> match worker.pending() {
            WorkerAction::SpaceOutput => event is Space,
            WorkerAction::LoadPlaying => event is Playing,
            WorkerAction::Sleep { .. } => event is Slept,
            WorkerAction::Delay => event is Delay && worker.channels > 0 && worker.sample_rate
                > 0,
            WorkerAction::Now => event is Now && (event->Now_0 + worker.state->Timing_delay)
                < (0x7fff_ffff_ffff_ffff + 1) * 1_000_000_000,
            WorkerAction::Fill { .. } => event is Filled,
            WorkerAction::Play => event is Played,
        },
{
    match (worker.state, event) {
        (WorkerState::Timing { delay, .. }, WorkerEvent::Now(elapsed)) => {
            StreamInstant::law_representable(elapsed + delay);
        },
        _ => {},
    }
}

/// At first the worker asks for the room before any data is sent. Whatever the
/// answer, it then looks whether the stream is told to play.
pub proof fn law_first_asks_for_the_room(worker: OutputWorker, answer: Result<u32, String>)
    requires
        worker.state is Starting,
    ensures
        worker.pending() == WorkerAction::SpaceOutput,
        worker.awaits(WorkerEvent::Space(answer)),
        worker.next(WorkerEvent::Space(answer)).pending() == WorkerAction::LoadPlaying,
{
}

/// When the worker looks whether the stream is told to play, and it is, the room is
/// asked for; if it is not, the worker sleeps for ten milliseconds, and then looks
/// again, having forgotten nothing.
pub proof fn law_looks_until_told_to_play(worker: OutputWorker)
    requires
        worker.pending() == WorkerAction::LoadPlaying,
    ensures
        worker.awaits(WorkerEvent::Playing(true)),
        worker.next(WorkerEvent::Playing(true)).pending() == WorkerAction::SpaceOutput,
        worker.awaits(WorkerEvent::Playing(false)),
        worker.next(WorkerEvent::Playing(false)).pending() == (WorkerAction::Sleep { millis: 10 }),
        worker.next(WorkerEvent::Playing(false)).awaits(WorkerEvent::Slept),
        worker.next(WorkerEvent::Playing(false)).next(WorkerEvent::Slept) == worker,
{
}

/// After a sleep the worker looks whether the stream is told to play, still knowing
/// whether it waits for a minimal amount of room.
pub proof fn law_looks_again_after_a_sleep(worker: OutputWorker)
    requires
        worker.pending() is Sleep,
    ensures
        worker.pending() == (WorkerAction::Sleep { millis: 10 }),
        worker.awaits(WorkerEvent::Slept),
        worker.next(WorkerEvent::Slept).pending() == WorkerAction::LoadPlaying,
        worker.next(WorkerEvent::Slept).sleeps() == worker.sleeps(),
        worker.next(WorkerEvent::Slept).next(WorkerEvent::Playing(false)) == worker,
{
}

/// A playing worker that is told of room for `room` bytes goes on to fill and write
/// them if and only if there is room at all, and either `room` is at least twice
/// what ten milliseconds of sound take, or the room before any data was less than
/// that. Only otherwise, or where the request for the room fails, does it sleep, for
/// ten milliseconds. In particular it goes on where the device has as much room as
/// before any data, and that is some.
pub proof fn law_room_decides_between_writing_and_sleeping(
    worker: OutputWorker,
    events: Seq<WorkerEvent>,
    ten: nat,
    room: u32,
    cause: String,
)
    requires
        worker.state is Starting,
        worker.follows(events),
        events.len() > 0,
        events.last() == WorkerEvent::Playing(true),
        ten * 1000 <= worker.sample_format.size() * worker.channels as nat
            * worker.sample_rate as nat * 10 < (ten + 1) * 1000,
    ensures
        ({
            let first = match events[0] {
                WorkerEvent::Space(Ok(n)) => n,
                _ => 0,
            };
            let told = events.push(WorkerEvent::Space(Ok(room)));
            let failed = events.push(WorkerEvent::Space(Err(cause)));
            let enough = room > 0 && (room >= 2 * ten || first < 2 * ten);
            &&& worker.follows(told)
            &&& enough ==> worker.after(told).pending() == WorkerAction::Delay
            &&& !enough ==> worker.after(told).pending() == (WorkerAction::Sleep { millis: 10 })
            &&& room > 0 && room == first ==> worker.after(told).pending() == WorkerAction::Delay
            &&& worker.follows(failed)
            &&& worker.after(failed).pending() == (WorkerAction::Sleep { millis: 10 })
        }),
{
    lemma_sleep_size(worker, ten);
    worker.law_sleeps_is_decided_once(events);
    worker.law_sleeps_is_decided_once(events.drop_last());
    lemma_push(worker, events, WorkerEvent::Space(Ok(room)));
    lemma_push(worker, events, WorkerEvent::Space(Err(cause)));
}

/// Where a playing worker is told of enough room (see
/// [`law_room_decides_between_writing_and_sleeping`]), the round is carried through,
/// whatever the device answers to the rest: the delay and the time are asked for,
/// the data callback is called on all whole samples of the room, the buffer is
/// written, and the worker looks again whether the stream is told to play.
///
/// The data callback is told the time since the start, and, as the time of playback,
/// the time that lies `nanos` nanoseconds later: what the `bytes` bytes ahead take to
/// be played, rounded down, where `size * channels * sample_rate` bytes take a second.
/// Where the delay cannot be had, no bytes are ahead.
pub proof fn law_enough_room_is_filled_and_written(
    worker: OutputWorker,
    events: Seq<WorkerEvent>,
    ten: nat,
    room: u32,
    ahead: Result<u32, String>,
    bytes: u32,
    nanos: nat,
    elapsed: u128,
    written: Result<(), String>,
)
    requires
        worker.state is Starting,
        worker.channels > 0,
        worker.sample_rate > 0,
        worker.follows(events),
        events.len() > 0,
        events.last() == WorkerEvent::Playing(true),
        ten * 1000 <= worker.sample_format.size() * worker.channels as nat
            * worker.sample_rate as nat * 10 < (ten + 1) * 1000,
        room > 0,
        room >= 2 * ten || !(events[0] matches WorkerEvent::Space(Ok(first)) && first >= 2 * ten),
        ahead matches Ok(n) ==> bytes == n,
        ahead is Err ==> bytes == 0,
        nanos * (worker.sample_format.size() * worker.channels as nat
            * worker.sample_rate as nat) <= bytes * 1_000_000_000,
        bytes * 1_000_000_000 < (nanos + 1) * (worker.sample_format.size()
            * worker.channels as nat * worker.sample_rate as nat),
        elapsed + nanos < (0x7fff_ffff_ffff_ffff + 1) * 1_000_000_000,
    ensures
        ({
            let told = events.push(WorkerEvent::Space(Ok(room)));
            let delayed = told.push(WorkerEvent::Delay(ahead));
            let timed = delayed.push(WorkerEvent::Now(elapsed));
            let filled = timed.push(WorkerEvent::Filled);
            let done = filled.push(WorkerEvent::Played(written));
            &&& worker.follows(done)
            &&& worker.after(told).pending() == WorkerAction::Delay
            &&& worker.after(delayed).pending() == WorkerAction::Now
            &&& worker.after(timed).pending() matches WorkerAction::Fill { samples, info }
            &&& samples * worker.sample_format.size() <= room
            &&& room < (samples + 1) * worker.sample_format.size()
            &&& {
                let callback = info.timestamp.callback;
                &&& 0 <= callback.nanos_part() < 1_000_000_000
                &&& callback.secs_part() * 1_000_000_000 + callback.nanos_part() == elapsed
            }
            &&& {
                let playback = info.timestamp.playback;
                &&& 0 <= playback.nanos_part() < 1_000_000_000
                &&& playback.secs_part() * 1_000_000_000 + playback.nanos_part() == elapsed
                    + nanos
            }
            &&& worker.after(filled).pending() == WorkerAction::Play
            &&& worker.after(done).pending() == WorkerAction::LoadPlaying
            &&& worker.after(done).next(WorkerEvent::Playing(true)) == worker.after(events)
        }),
{
    let told = events.push(WorkerEvent::Space(Ok(room)));
    let delayed = told.push(WorkerEvent::Delay(ahead));
    let timed = delayed.push(WorkerEvent::Now(elapsed));
    let filled = timed.push(WorkerEvent::Filled);
    lemma_sleep_size(worker, ten);
    lemma_delay(worker, bytes, nanos);
    worker.law_sleeps_is_decided_once(events);
    worker.law_sleeps_is_decided_once(events.drop_last());
    lemma_push(worker, events, WorkerEvent::Space(Ok(room)));
    lemma_push(worker, told, WorkerEvent::Delay(ahead));
    lemma_push(worker, delayed, WorkerEvent::Now(elapsed));
    lemma_push(worker, timed, WorkerEvent::Filled);
    lemma_push(worker, filled, WorkerEvent::Played(written));
    worker.law_samples_lie_in_the_buffer(room);
    StreamInstant::law_representable(elapsed as int);
    StreamInstant::law_representable(elapsed + nanos);
    StreamInstant::law_at(elapsed as int);
    StreamInstant::law_at(elapsed + nanos);
}

/// The buffer gets the size of the room when the delay has been told: bytes that were
/// there and still fit stay, and what is new is zero. No other event changes the
/// buffer.
pub proof fn law_buffer_is_sized_for_the_room(
    worker: OutputWorker,
    buffer: Seq<u8>,
    event: WorkerEvent,
)
    requires
        worker.awaits(event),
    ensures
        event !is Delay ==> worker.next_buffer(buffer, event) == buffer,
        event is Delay ==> {
            let sized = worker.next_buffer(buffer, event);
            &&& worker.state matches WorkerState::Delaying { bytes, .. }
            &&& sized.len() == bytes
            &&& forall|i: int| 0 <= i < bytes && i < buffer.len() ==> sized[i] == buffer[i]
            &&& forall|i: int| buffer.len() <= i < bytes ==> sized[i] == 0
        },
{
}

/// Each failed call on the device is put to the error callback with its cause, and
/// nothing else is.
pub proof fn law_failures_are_described(event: WorkerEvent)
    ensures
        match event {
            WorkerEvent::Space(Err(e)) => crate::worker::complaint_of(event) == Some(
                "output space error: "@ + e@,
            ),
            WorkerEvent::Delay(Err(e)) => crate::worker::complaint_of(event) == Some(
                "delay error: "@ + e@,
            ),
            WorkerEvent::Played(Err(e)) => crate::worker::complaint_of(event) == Some(
                "play errror: "@ + e@,
            ),
            _ => crate::worker::complaint_of(event) is None,
        },
{
    reveal_strlit(": ");
    reveal_strlit("output space error");
    reveal_strlit("output space error: ");
    reveal_strlit("delay error");
    reveal_strlit("delay error: ");
    reveal_strlit("play errror");
    reveal_strlit("play errror: ");
    match event {
        WorkerEvent::Space(Err(e)) => {
            assert("output space error"@ + ": "@ + e@ =~= "output space error: "@ + e@);
        },
        WorkerEvent::Delay(Err(e)) => {
            assert("delay error"@ + ": "@ + e@ =~= "delay error: "@ + e@);
        },
        WorkerEvent::Played(Err(e)) => {
            assert("play errror"@ + ": "@ + e@ =~= "play errror: "@ + e@);
        },
        _ => {},
    }
}

} // verus!
