use illumos_host::{
    AudioFormat, AudioFormats, AudioInfo, BufferSize, BuildStreamError, DefaultStreamConfigError,
    Device, DspReply, DspRequest, Progress, SampleFormat, SampleRate, Stream, StreamConfig,
    SupportedBufferSize, SupportedStreamConfig, SupportedStreamConfigRange,
    SupportedStreamConfigsError,
};

fn device() -> Device {
    Device {
        devnode: "/dev/sound/audio0".to_string(),
        info: Some(AudioInfo {
            devnode: "/dev/sound/audio0".to_string(),
            name: "audiohd".to_string(),
            max_channels: 6,
            min_rate: 44100,
            max_rate: 192000,
        }),
    }
}

fn default_device() -> Device {
    Device { devnode: "/dev/dsp".to_string(), info: None }
}

fn config() -> StreamConfig {
    StreamConfig {
        channels: 2,
        sample_rate: SampleRate(48000),
        buffer_size: BufferSize::Default,
    }
}

fn failed() -> DspReply {
    DspReply::Done(Err("EBUSY".to_string()))
}

/// Builds an output stream against `replies`; gives what was asked and the outcome.
fn build(
    sample_format: SampleFormat,
    replies: Vec<DspReply>,
) -> (Vec<DspRequest>, Option<Result<Stream, BuildStreamError>>) {
    let mut asked = Vec::new();
    let mut build = device().build_output_stream_raw(&config(), sample_format);
    for reply in replies {
        asked.push(build.request());
        match build.step(reply) {
            Progress::Ask(next) => build = next,
            Progress::Done(outcome) => return (asked, Some(outcome)),
        }
    }
    (asked, None)
}

fn build_failure(successes: usize) -> String {
    let mut replies = Vec::new();
    for _ in 0..successes {
        replies.push(DspReply::Done(Ok(())));
    }
    replies.push(failed());
    match build(SampleFormat::U8, replies) {
        (_, Some(Err(BuildStreamError::BackendSpecific { err }))) => err.description,
        _ => panic!("the device was opened"),
    }
}

#[test]
fn stream_is_built_as_asked_for() {
    let formats = [
        (SampleFormat::I8, AudioFormat::S8),
        (SampleFormat::U8, AudioFormat::U8),
        (SampleFormat::I16, AudioFormat::S16Ne),
        (SampleFormat::U16, AudioFormat::U16Ne),
        (SampleFormat::I32, AudioFormat::S32Ne),
    ];
    for (sample_format, format) in formats {
        let ok = || DspReply::Done(Ok(()));
        let (asked, outcome) = build(sample_format, vec![ok(), ok(), ok(), ok()]);
        assert_eq!(
            asked,
            vec![
                DspRequest::Open("/dev/sound/audio0".to_string()),
                DspRequest::FormatSet(format),
                DspRequest::ChannelsSet(2),
                DspRequest::SpeedSet(48000),
            ]
        );
        let stream = outcome.unwrap().unwrap();
        assert_eq!(stream.inner.sample_format, sample_format);
        assert_eq!(stream.inner.config, config());
        assert!(!stream.is_playing());
    }
}

#[test]
fn other_sample_formats_are_refused_after_opening() {
    let others = [
        SampleFormat::I64,
        SampleFormat::U32,
        SampleFormat::U64,
        SampleFormat::F32,
        SampleFormat::F64,
    ];
    for sample_format in others {
        let (asked, outcome) = build(sample_format, vec![DspReply::Done(Ok(()))]);
        assert_eq!(asked, vec![DspRequest::Open("/dev/sound/audio0".to_string())]);
        assert!(matches!(outcome, Some(Err(BuildStreamError::StreamConfigNotSupported))));
    }
    let (_, outcome) = build(SampleFormat::F32, vec![failed()]);
    assert!(matches!(outcome, Some(Err(BuildStreamError::BackendSpecific { .. }))));
}

#[test]
fn failures_of_building_are_described() {
    assert_eq!(build_failure(0), "open(\"/dev/sound/audio0\"): EBUSY");
    assert_eq!(build_failure(1), "format_set(\"/dev/sound/audio0\"): EBUSY");
    assert_eq!(build_failure(2), "channels_set(\"/dev/sound/audio0\"): EBUSY");
    assert_eq!(build_failure(3), "speed_set(\"/dev/sound/audio0\"): EBUSY");
}

#[test]
fn three_successes_do_not_open_a_device() {
    let mut opening = device().open_dsp(&config(), SampleFormat::I16);
    for _ in 0..3 {
        match opening.step(DspReply::Done(Ok(()))) {
            Progress::Ask(next) => opening = next,
            Progress::Done(_) => panic!("over too early"),
        }
    }
    assert_eq!(opening.request(), DspRequest::SpeedSet(48000));
    assert_eq!(opening.step(DspReply::Done(Ok(()))), Progress::Done(Ok(())));
}

#[test]
fn name_of_a_listed_device() {
    assert_eq!(device().name(), Ok("audiohd".to_string()));
    assert_eq!(default_device().name(), Ok("default".to_string()));
}

#[test]
fn no_input_streams() {
    assert_eq!(device().supported_input_configs().unwrap().next(), None);
    assert_eq!(
        device().default_input_config(),
        Err(DefaultStreamConfigError::StreamTypeNotSupported)
    );
}

fn range(device: &Device, sample_format: SampleFormat) -> SupportedStreamConfigRange {
    let (channels, min, max) = match &device.info {
        Some(_) => (6, 44100, 192000),
        None => (2, 8000, 48000),
    };
    SupportedStreamConfigRange {
        channels,
        min_sample_rate: SampleRate(min),
        max_sample_rate: SampleRate(max),
        buffer_size: SupportedBufferSize::Unknown,
        sample_format,
    }
}

/// The configurations of `device`, in the order in which they come.
fn configs(device: &Device, formats: AudioFormats) -> Vec<SupportedStreamConfigRange> {
    let query = device.supported_output_configs();
    assert_eq!(query.request(), DspRequest::Open(device.devnode.clone()));
    let query = match query.step(DspReply::Done(Ok(()))) {
        Progress::Ask(query) => query,
        Progress::Done(_) => panic!("over too early"),
    };
    assert_eq!(query.request(), DspRequest::Formats);
    let mut found = match query.step(DspReply::Formats(Ok(formats))) {
        Progress::Done(Ok(found)) => found,
        _ => panic!("nothing found"),
    };
    let mut list = Vec::new();
    while let Some(config) = found.next() {
        list.push(config);
    }
    assert_eq!(found.next(), None);
    list
}

#[test]
fn all_formats_come_from_the_least_to_the_first_ranked() {
    let all = AudioFormats { s8: true, u8: true, s16_ne: true, u16_ne: true, s32_ne: true };
    let device = device();
    assert_eq!(
        configs(&device, all),
        vec![
            range(&device, SampleFormat::U8),
            range(&device, SampleFormat::I8),
            range(&device, SampleFormat::U16),
            range(&device, SampleFormat::I16),
            range(&device, SampleFormat::I32),
        ]
    );
}

#[test]
fn each_format_is_found_by_itself() {
    let none = AudioFormats { s8: false, u8: false, s16_ne: false, u16_ne: false, s32_ne: false };
    let device = default_device();
    assert_eq!(configs(&device, none), vec![]);
    let cases = [
        (AudioFormats { s8: true, ..none }, SampleFormat::I8),
        (AudioFormats { u8: true, ..none }, SampleFormat::U8),
        (AudioFormats { s16_ne: true, ..none }, SampleFormat::I16),
        (AudioFormats { u16_ne: true, ..none }, SampleFormat::U16),
        (AudioFormats { s32_ne: true, ..none }, SampleFormat::I32),
    ];
    for (formats, sample_format) in cases {
        assert_eq!(configs(&device, formats), vec![range(&device, sample_format)]);
    }
}

#[test]
fn failures_of_the_search_for_configs_are_described() {
    let describe = |progress| match progress {
        Progress::Done(Err(SupportedStreamConfigsError::BackendSpecific { err })) => {
            err.description
        }
        Progress::Done(Ok(_)) | Progress::Ask(_) => panic!("no failure"),
    };
    assert_eq!(
        describe(default_device().supported_output_configs().step(failed())),
        "open(\"/dev/dsp\"): EBUSY"
    );
    match default_device().supported_output_configs().step(DspReply::Done(Ok(()))) {
        Progress::Ask(query) => assert_eq!(
            describe(query.step(DspReply::Formats(Err("EIO".to_string())))),
            "get formats: EIO"
        ),
        Progress::Done(_) => panic!("over too early"),
    }
}

/// Looks for the default configuration against `replies`.
fn default_config(
    replies: Vec<DspReply>,
) -> (Vec<DspRequest>, Option<Result<SupportedStreamConfig, DefaultStreamConfigError>>) {
    let mut asked = Vec::new();
    let mut query = default_device().default_output_config();
    for reply in replies {
        asked.push(query.request());
        match query.step(reply) {
            Progress::Ask(next) => query = next,
            Progress::Done(outcome) => return (asked, Some(outcome)),
        }
    }
    (asked, None)
}

#[test]
fn default_config_is_what_the_device_uses() {
    let (asked, outcome) = default_config(vec![
        DspReply::Done(Ok(())),
        DspReply::Number(Ok(4)),
        DspReply::Number(Ok(96000)),
    ]);
    assert_eq!(
        asked,
        vec![DspRequest::Open("/dev/dsp".to_string()), DspRequest::Channels, DspRequest::Speed]
    );
    assert_eq!(
        outcome,
        Some(Ok(SupportedStreamConfig {
            channels: 4,
            sample_rate: SampleRate(96000),
            buffer_size: SupportedBufferSize::Unknown,
            sample_format: SampleFormat::I16,
        }))
    );
}

#[test]
fn failures_of_the_default_config_are_described() {
    let describe = |replies| match default_config(replies).1 {
        Some(Err(DefaultStreamConfigError::BackendSpecific { err })) => err.description,
        _ => panic!("no failure"),
    };
    let number = || DspReply::Number(Err("EIO".to_string()));
    assert_eq!(describe(vec![failed()]), "open(\"/dev/dsp\"): EBUSY");
    assert_eq!(describe(vec![DspReply::Done(Ok(())), number()]), "channels(\"/dev/dsp\"): EIO");
    assert_eq!(
        describe(vec![DspReply::Done(Ok(())), DspReply::Number(Ok(100_000)), number()]),
        "speed(\"/dev/dsp\"): EIO"
    );
}

#[test]
fn stream_plays_and_pauses() {
    let ok = || DspReply::Done(Ok(()));
    let (_, outcome) = build(SampleFormat::I16, vec![ok(), ok(), ok(), ok()]);
    let mut stream = outcome.unwrap().unwrap();
    assert_eq!(stream.play(), Ok(()));
    assert!(stream.is_playing());
    assert_eq!(stream.play(), Ok(()));
    assert!(stream.is_playing());
    assert_eq!(stream.pause(), Ok(()));
    assert!(!stream.is_playing());
    assert_eq!(stream.inner.config, config());
}
