use illumos_host::text::decimal_text;
use illumos_host::{
    output_stream_worker, BufferSize, OutputWorker, SampleFormat, SampleRate, StreamConfig,
    StreamError, StreamInner, StreamInstant, StreamWorkerContext, WorkerAction, WorkerEvent,
    WorkerState,
};

fn worker(sample_format: SampleFormat, channels: u16, rate: u32) -> OutputWorker {
    let config = StreamConfig {
        channels,
        sample_rate: SampleRate(rate),
        buffer_size: BufferSize::Default,
    };
    output_stream_worker(&StreamInner::new(&config, sample_format))
}

/// A worker of 16-bit stereo sound: ten milliseconds take 1764 bytes.
fn stereo() -> OutputWorker {
    worker(SampleFormat::I16, 2, 44100)
}

fn tell(
    worker: &mut OutputWorker,
    ctxt: &mut StreamWorkerContext,
    event: WorkerEvent,
) -> (Option<String>, WorkerAction) {
    assert!(worker.accepts(&event));
    let report = worker
        .step(ctxt, event)
        .map(|StreamError::BackendSpecific { err }| err.description);
    (report, worker.action())
}

/// A worker that has been told the room at the start, and that it may play.
fn playing(first: u32) -> (OutputWorker, StreamWorkerContext) {
    let mut w = stereo();
    let mut ctxt = StreamWorkerContext::new();
    tell(&mut w, &mut ctxt, WorkerEvent::Space(Ok(first)));
    tell(&mut w, &mut ctxt, WorkerEvent::Playing(true));
    (w, ctxt)
}

const REST: WorkerAction = WorkerAction::Sleep { millis: 10 };

#[test]
fn whole_round() {
    let mut w = stereo();
    let mut ctxt = StreamWorkerContext::new();
    assert!(ctxt.buffer.is_empty());
    assert_eq!(w.action(), WorkerAction::SpaceOutput);
    assert_eq!(
        tell(&mut w, &mut ctxt, WorkerEvent::Space(Ok(16384))),
        (None, WorkerAction::LoadPlaying)
    );
    assert_eq!(
        tell(&mut w, &mut ctxt, WorkerEvent::Playing(true)),
        (None, WorkerAction::SpaceOutput)
    );
    assert_eq!(
        tell(&mut w, &mut ctxt, WorkerEvent::Space(Ok(4001))),
        (None, WorkerAction::Delay)
    );
    assert_eq!(tell(&mut w, &mut ctxt, WorkerEvent::Delay(Ok(1764))), (None, WorkerAction::Now));
    assert_eq!(ctxt.buffer, vec![0u8; 4001]);
    let (report, action) = tell(&mut w, &mut ctxt, WorkerEvent::Now(2_999_999_999));
    assert_eq!(report, None);
    match action {
        WorkerAction::Fill { samples, info } => {
            assert_eq!(samples, 2000);
            assert_eq!(info.timestamp.callback.secs(), 2);
            assert_eq!(info.timestamp.callback.subsec_nanos(), 999_999_999);
            assert_eq!(info.timestamp.playback.secs(), 3);
            assert_eq!(info.timestamp.playback.subsec_nanos(), 9_999_999);
        }
        other => panic!("{:?}", other),
    }
    for byte in ctxt.buffer.iter_mut() {
        *byte = 7;
    }
    assert_eq!(tell(&mut w, &mut ctxt, WorkerEvent::Filled), (None, WorkerAction::Play));
    assert_eq!(ctxt.buffer, vec![7u8; 4001]);
    assert_eq!(
        tell(&mut w, &mut ctxt, WorkerEvent::Played(Ok(()))),
        (None, WorkerAction::LoadPlaying)
    );
}

#[test]
fn buffer_keeps_what_fits() {
    let mut w = stereo();
    w.state = WorkerState::Delaying { sleeps: false, bytes: 2 };
    let mut ctxt = StreamWorkerContext { buffer: vec![1, 2, 3] };
    tell(&mut w, &mut ctxt, WorkerEvent::Delay(Ok(0)));
    assert_eq!(ctxt.buffer, vec![1, 2]);
    w.state = WorkerState::Delaying { sleeps: false, bytes: 5 };
    tell(&mut w, &mut ctxt, WorkerEvent::Delay(Ok(0)));
    assert_eq!(ctxt.buffer, vec![1, 2, 0, 0, 0]);
}

#[test]
fn silent_until_told_to_play() {
    let mut w = stereo();
    let mut ctxt = StreamWorkerContext::new();
    tell(&mut w, &mut ctxt, WorkerEvent::Space(Ok(16384)));
    for _ in 0..5 {
        assert_eq!(tell(&mut w, &mut ctxt, WorkerEvent::Playing(false)), (None, REST));
        assert_eq!(
            tell(&mut w, &mut ctxt, WorkerEvent::Slept),
            (None, WorkerAction::LoadPlaying)
        );
    }
    assert!(ctxt.buffer.is_empty());
}

#[test]
fn waits_for_what_two_sleeps_take() {
    let (mut w, mut ctxt) = playing(3528);
    assert_eq!(tell(&mut w, &mut ctxt, WorkerEvent::Space(Ok(3527))), (None, REST));
    let (mut w, mut ctxt) = playing(3528);
    assert_eq!(
        tell(&mut w, &mut ctxt, WorkerEvent::Space(Ok(3528))),
        (None, WorkerAction::Delay)
    );
}

#[test]
fn small_device_buffers_are_filled_at_once() {
    let (mut w, mut ctxt) = playing(3527);
    assert_eq!(tell(&mut w, &mut ctxt, WorkerEvent::Space(Ok(1))), (None, WorkerAction::Delay));
    let (mut w, mut ctxt) = playing(3527);
    assert_eq!(tell(&mut w, &mut ctxt, WorkerEvent::Space(Ok(0))), (None, REST));
}

#[test]
fn failed_first_room_counts_as_none() {
    let mut w = stereo();
    let mut ctxt = StreamWorkerContext::new();
    assert_eq!(
        tell(&mut w, &mut ctxt, WorkerEvent::Space(Err("EIO".to_string()))),
        (Some("output space error: EIO".to_string()), WorkerAction::LoadPlaying)
    );
    assert_eq!(w.state, WorkerState::Checking { sleeps: false });
    let mut slow = worker(SampleFormat::U8, 1, 99);
    tell(&mut slow, &mut ctxt, WorkerEvent::Space(Err("EIO".to_string())));
    assert_eq!(slow.state, WorkerState::Checking { sleeps: true });
}

#[test]
fn failures_are_reported_and_stop_nothing() {
    let (mut w, mut ctxt) = playing(16384);
    assert_eq!(
        tell(&mut w, &mut ctxt, WorkerEvent::Space(Err("EIO".to_string()))),
        (Some("output space error: EIO".to_string()), REST)
    );
    let (mut w, mut ctxt) = playing(16384);
    tell(&mut w, &mut ctxt, WorkerEvent::Space(Ok(8192)));
    assert_eq!(
        tell(&mut w, &mut ctxt, WorkerEvent::Delay(Err("EIO".to_string()))),
        (Some("delay error: EIO".to_string()), WorkerAction::Now)
    );
    match tell(&mut w, &mut ctxt, WorkerEvent::Now(5)).1 {
        WorkerAction::Fill { samples, info } => {
            assert_eq!(samples, 4096);
            assert_eq!(info.timestamp.callback, info.timestamp.playback);
        }
        other => panic!("{:?}", other),
    }
    tell(&mut w, &mut ctxt, WorkerEvent::Filled);
    assert_eq!(
        tell(&mut w, &mut ctxt, WorkerEvent::Played(Err("EIO".to_string()))),
        (Some("play errror: EIO".to_string()), WorkerAction::LoadPlaying)
    );
}

#[test]
fn delay_is_rounded_down() {
    let mut w = stereo();
    w.state = WorkerState::Delaying { sleeps: true, bytes: 4 };
    tell(&mut w, &mut StreamWorkerContext::new(), WorkerEvent::Delay(Ok(1)));
    assert_eq!(w.state, WorkerState::Timing { sleeps: true, samples: 2, delay: 5668 });
    let mut w = worker(SampleFormat::U8, 1, 1);
    w.state = WorkerState::Delaying { sleeps: true, bytes: 4 };
    tell(&mut w, &mut StreamWorkerContext::new(), WorkerEvent::Delay(Ok(u32::MAX)));
    let delay = 4_294_967_295_000_000_000;
    assert_eq!(w.state, WorkerState::Timing { sleeps: true, samples: 4, delay });
}

#[test]
fn largest_configuration() {
    let mut w = worker(SampleFormat::F64, u16::MAX, u32::MAX);
    let mut ctxt = StreamWorkerContext::new();
    tell(&mut w, &mut ctxt, WorkerEvent::Space(Ok(u32::MAX)));
    assert_eq!(w.state, WorkerState::Checking { sleeps: false });
}

#[test]
fn events_that_are_not_awaited() {
    let w = stereo();
    assert!(!w.accepts(&WorkerEvent::Playing(true)));
    assert!(!w.accepts(&WorkerEvent::Filled));
    assert!(w.accepts(&WorkerEvent::Space(Ok(1))));
    let state = WorkerState::Delaying { sleeps: false, bytes: 4 };
    let delay = WorkerEvent::Delay(Ok(0));
    assert!(!OutputWorker { state, ..worker(SampleFormat::I8, 0, 8000) }.accepts(&delay));
    assert!(!OutputWorker { state, ..worker(SampleFormat::I8, 1, 0) }.accepts(&delay));
    assert!(OutputWorker { state, ..worker(SampleFormat::I8, 1, 1) }.accepts(&delay));
    let state = WorkerState::Timing { sleeps: false, samples: 4, delay: 1 };
    let last = i64::MAX as u128 * 1_000_000_000 + 999_999_999;
    let w = OutputWorker { state, ..w };
    assert!(w.accepts(&WorkerEvent::Now(last - 1)));
    assert!(!w.accepts(&WorkerEvent::Now(last)));
    assert!(!w.accepts(&WorkerEvent::Now(u128::MAX)));
}

#[test]
fn sample_sizes() {
    assert_eq!(SampleFormat::I8.sample_size(), 1);
    assert_eq!(SampleFormat::U8.sample_size(), 1);
    assert_eq!(SampleFormat::I16.sample_size(), 2);
    assert_eq!(SampleFormat::U16.sample_size(), 2);
    assert_eq!(SampleFormat::I32.sample_size(), 4);
    assert_eq!(SampleFormat::U32.sample_size(), 4);
    assert_eq!(SampleFormat::F32.sample_size(), 4);
    assert_eq!(SampleFormat::I64.sample_size(), 8);
    assert_eq!(SampleFormat::U64.sample_size(), 8);
    assert_eq!(SampleFormat::F64.sample_size(), 8);
}

#[test]
fn instants() {
    let i = StreamInstant::from_nanos_i128(1_500_000_000).unwrap();
    assert_eq!((i.secs(), i.subsec_nanos()), (1, 500_000_000));
    let j = i.add(600_000_000).unwrap();
    assert_eq!((j.secs(), j.subsec_nanos()), (2, 100_000_000));
    let last = i64::MAX as i128 * 1_000_000_000 + 999_999_999;
    assert!(StreamInstant::from_nanos_i128(last + 1).is_none());
    let end = StreamInstant::from_nanos_i128(last).unwrap();
    assert_eq!((end.secs(), end.subsec_nanos()), (i64::MAX, 999_999_999));
    assert_eq!(end.add(0), Some(end));
    assert_eq!(end.add(1), None);
}

#[test]
fn decimals() {
    assert_eq!(decimal_text(0), "0");
    assert_eq!(decimal_text(9), "9");
    assert_eq!(decimal_text(10), "10");
    assert_eq!(decimal_text(1_234_567_890), "1234567890");
    assert_eq!(decimal_text(u32::MAX), "4294967295");
}
