//! The configurations of a device.
use vstd::pervasive::unreached;
use vstd::prelude::*;

use crate::config::{
    SampleFormat, SampleRate, SupportedBufferSize, SupportedStreamConfig,
    SupportedStreamConfigRange,
};
use crate::conversation::{DspReply, DspRequest, Progress};
use crate::device::SupportedOutputConfigs;
use crate::error::{
    BackendSpecificError, DefaultStreamConfigError, SupportedStreamConfigsError,
};
use crate::formats::AudioFormats;
use crate::text::{failure_text, node_failure_text};

verus! {

/// How far the search for the configurations for output streams has come.
#[derive(Clone, Copy, Debug, PartialEq, Eq, Structural)]
pub enum OutputStage {
    /// The device node is being opened.
    Opening,
    /// The sample formats have been asked for.
    Formats,
}

/// The search for the configurations for output streams.
#[derive(Debug, PartialEq, Eq)]
pub struct OutputConfigsQuery {
    pub devnode: String,
    pub channels: u32,
    pub min_rate: u32,
    pub max_rate: u32,
    pub stage: OutputStage,
}

/// How the search for the configurations for output streams stands.
pub enum OutputSearch {
    /// There is something to ask.
    Asking(OutputConfigsQuery),
    /// These are the configurations.
    Found(Seq<SupportedStreamConfigRange>),
    /// A call failed, with this description.
    Failed(Seq<char>),
}

/// How the search stands after a step.
pub open spec fn output_view(
    progress: Progress<
        OutputConfigsQuery,
        Result<SupportedOutputConfigs, SupportedStreamConfigsError>,
    >,
) -> OutputSearch {
    match progress {
        Progress::Ask(query) => OutputSearch::Asking(query),
        Progress::Done(Ok(found)) => OutputSearch::Found(found.configs@),
        Progress::Done(Err(SupportedStreamConfigsError::BackendSpecific { err })) => {
            OutputSearch::Failed(err.description@)
        },
    }
}

impl OutputConfigsQuery {
    /// What is asked of the device.
    pub open spec fn asks(self) -> DspRequest {
        match self.stage {
            OutputStage::Opening => DspRequest::Open(self.devnode),
            OutputStage::Formats => DspRequest::Formats,
        }
    }

    /// Whether `reply` answers what is asked. Where it names sample formats, the
    /// channels of the device must be such as a configuration can hold.
    pub open spec fn awaits(self, reply: DspReply) -> bool {
        match self.stage {
            OutputStage::Opening => reply is Done,
            OutputStage::Formats => reply matches DspReply::Formats(r) && (r is Ok ==> self.channels
                <= u16::MAX),
        }
    }

    /// The range of configurations that the device has for `sample_format`.
    pub open spec fn range(self, sample_format: SampleFormat) -> SupportedStreamConfigRange {
        SupportedStreamConfigRange {
            channels: self.channels as u16,
            min_sample_rate: SampleRate(self.min_rate),
            max_sample_rate: SampleRate(self.max_rate),
            buffer_size: SupportedBufferSize::Unknown,
            sample_format,
        }
    }

    /// The configurations that the device has, given its sample formats.
    pub open spec fn ranges(self, formats: AudioFormats) -> Seq<SupportedStreamConfigRange> {
        formats.offered().map_values(|sample_format: SampleFormat| self.range(sample_format))
    }

    /// How the search stands after `reply`.
    pub open spec fn next(self, reply: DspReply) -> OutputSearch {
        match reply {
            DspReply::Done(Ok(())) => OutputSearch::Asking(
                OutputConfigsQuery { stage: OutputStage::Formats, ..self },
            ),
            DspReply::Done(Err(e)) => OutputSearch::Failed(
                crate::text::failure(crate::text::node_call("open"@, self.devnode@), e@),
            ),
            DspReply::Formats(Ok(formats)) => OutputSearch::Found(self.ranges(formats)),
            DspReply::Formats(Err(e)) => OutputSearch::Failed(
                crate::text::failure("get formats"@, e@),
            ),
            DspReply::Number(_) => OutputSearch::Asking(self),
        }
    }

    /// What is to be asked of the device.
    pub fn request(&self) -> (request: DspRequest)
        ensures
            request == self.asks(),
    {
        match self.stage {
            OutputStage::Opening => DspRequest::Open(self.devnode.clone()),
            OutputStage::Formats => DspRequest::Formats,
        }
    }

    /// The configurations that the device has, given its sample formats.
    pub fn configs(&self, formats: &AudioFormats) -> (found: SupportedOutputConfigs)
        requires
            self.channels <= u16::MAX,
        ensures
            found.configs@ == self.ranges(*formats),
    {
        let list = formats.sample_formats();
        let mut configs: Vec<SupportedStreamConfigRange> = Vec::new();
        let mut i: usize = 0;
        while i < list.len()
            invariant
                i <= list.len(),
                self.channels <= u16::MAX,
                list@ == formats.offered(),
                configs@ == self.ranges(*formats).take(i as int),
            decreases list.len() - i,
        {
            configs.push(
                SupportedStreamConfigRange {
                    channels: self.channels as u16,
                    min_sample_rate: SampleRate(self.min_rate),
                    max_sample_rate: SampleRate(self.max_rate),
                    buffer_size: SupportedBufferSize::Unknown,
                    sample_format: list[i],
                },
            );
            i += 1;
            assert(configs@ =~= self.ranges(*formats).take(i as int));
        }
        assert(configs@ =~= self.ranges(*formats));
        SupportedOutputConfigs { configs }
    }

    /// Takes the answer of the device. When the device node is open, its sample
    /// formats are asked for, and each gives a range of configurations; the first
    /// failure ends it.
    pub fn step(self, reply: DspReply) -> (progress: Progress<
        OutputConfigsQuery,
        Result<SupportedOutputConfigs, SupportedStreamConfigsError>,
    >)
        requires
            self.awaits(reply),
        ensures
            output_view(progress) == self.next(reply),
            match progress {
                Progress::Ask(query) => self.next(reply) == OutputSearch::Asking(query),
                Progress::Done(Ok(found)) => self.next(reply) == OutputSearch::Found(
                    found.configs@,
                ),
                Progress::Done(Err(SupportedStreamConfigsError::BackendSpecific { err })) => {
                    self.next(reply) == OutputSearch::Failed(err.description@)
                },
            },
    {
        match reply {
            DspReply::Done(Ok(())) => {
                Progress::Ask(
                    OutputConfigsQuery {
                        devnode: self.devnode,
                        channels: self.channels,
                        min_rate: self.min_rate,
                        max_rate: self.max_rate,
                        stage: OutputStage::Formats,
                    },
                )
            },
            DspReply::Done(Err(e)) => {
                let description = node_failure_text("open", self.devnode.as_str(), e.as_str());
                Progress::Done(
                    Err(
                        SupportedStreamConfigsError::BackendSpecific {
                            err: BackendSpecificError { description },
                        },
                    ),
                )
            },
            DspReply::Formats(Ok(formats)) => Progress::Done(Ok(self.configs(&formats))),
            DspReply::Formats(Err(e)) => {
                let description = failure_text("get formats", e.as_str());
                Progress::Done(
                    Err(
                        SupportedStreamConfigsError::BackendSpecific {
                            err: BackendSpecificError { description },
                        },
                    ),
                )
            },
            DspReply::Number(_) => unreached(),
        }
    }
}

/// How far the search for the default configuration has come.
#[derive(Clone, Copy, Debug, PartialEq, Eq, Structural)]
pub enum DefaultStage {
    /// The device node is being opened.
    Opening,
    /// The number of channels has been asked for.
    Channels,
    /// The sample rate has been asked for; the number of channels is known.
    Speed { channels: u32 },
}

/// The search for the default configuration for output streams.
#[derive(Debug, PartialEq, Eq)]
pub struct DefaultConfigQuery {
    pub devnode: String,
    pub stage: DefaultStage,
}

/// How the search for the default configuration stands.
pub enum DefaultSearch {
    /// There is something to ask.
    Asking(DefaultConfigQuery),
    /// This is the configuration.
    Found(SupportedStreamConfig),
    /// There are no streams in this direction.
    NotSupported,
    /// A call failed, with this description.
    Failed(Seq<char>),
}

/// How the search for the default configuration stands after a step.
pub open spec fn default_view(
    progress: Progress<DefaultConfigQuery, Result<SupportedStreamConfig, DefaultStreamConfigError>>,
) -> DefaultSearch {
    match progress {
        Progress::Ask(query) => DefaultSearch::Asking(query),
        Progress::Done(Ok(config)) => DefaultSearch::Found(config),
        Progress::Done(Err(DefaultStreamConfigError::StreamTypeNotSupported)) => {
            DefaultSearch::NotSupported
        },
        Progress::Done(Err(DefaultStreamConfigError::BackendSpecific { err })) => {
            DefaultSearch::Failed(err.description@)
        },
    }
}

impl DefaultConfigQuery {
    /// What is asked of the device.
    pub open spec fn asks(self) -> DspRequest {
        match self.stage {
            DefaultStage::Opening => DspRequest::Open(self.devnode),
            DefaultStage::Channels => DspRequest::Channels,
            DefaultStage::Speed { .. } => DspRequest::Speed,
        }
    }

    /// Whether `reply` answers what is asked. Where it completes the
    /// configuration, the channels must be such as a configuration can hold.
    pub open spec fn awaits(self, reply: DspReply) -> bool {
        match self.stage {
            DefaultStage::Opening => reply is Done,
            DefaultStage::Channels => reply is Number,
            DefaultStage::Speed { channels } => reply matches DspReply::Number(r) && (r is Ok
                ==> channels <= u16::MAX),
        }
    }

    /// The name of the call on the device.
    pub open spec fn call(self) -> Seq<char> {
        match self.stage {
            DefaultStage::Opening => "open"@,
            DefaultStage::Channels => "channels"@,
            DefaultStage::Speed { .. } => "speed"@,
        }
    }

    /// What a failure of the call on the device is said to be.
    pub open spec fn complaint(self, cause: Seq<char>) -> Seq<char> {
        crate::text::failure(crate::text::node_call(self.call(), self.devnode@), cause)
    }

    /// The configuration with these channels and this sample rate.
    pub open spec fn config(channels: u32, speed: u32) -> SupportedStreamConfig {
        SupportedStreamConfig {
            channels: channels as u16,
            sample_rate: SampleRate(speed),
            buffer_size: SupportedBufferSize::Unknown,
            sample_format: SampleFormat::I16,
        }
    }

    /// The same search, at `stage`.
    pub open spec fn at(self, stage: DefaultStage) -> DefaultSearch {
        DefaultSearch::Asking(DefaultConfigQuery { stage, ..self })
    }

    /// How the search stands after `reply`.
    pub open spec fn next(self, reply: DspReply) -> DefaultSearch {
        match (self.stage, reply) {
            (_, DspReply::Done(Err(e))) => DefaultSearch::Failed(self.complaint(e@)),
            (_, DspReply::Number(Err(e))) => DefaultSearch::Failed(self.complaint(e@)),
            (DefaultStage::Opening, DspReply::Done(Ok(()))) => self.at(DefaultStage::Channels),
            (DefaultStage::Channels, DspReply::Number(Ok(channels))) => self.at(
                DefaultStage::Speed { channels },
            ),
            (DefaultStage::Speed { channels }, DspReply::Number(Ok(speed))) => {
                DefaultSearch::Found(Self::config(channels, speed))
            },
            _ => DefaultSearch::Asking(self),
        }
    }

    /// What is to be asked of the device.
    pub fn request(&self) -> (request: DspRequest)
        ensures
            request == self.asks(),
    {
        match self.stage {
            DefaultStage::Opening => DspRequest::Open(self.devnode.clone()),
            DefaultStage::Channels => DspRequest::Channels,
            DefaultStage::Speed { .. } => DspRequest::Speed,
        }
    }

    /// The error for a failure of the call on the device.
    fn failed(&self, cause: &str) -> (error: DefaultStreamConfigError)
        ensures
            error matches DefaultStreamConfigError::BackendSpecific { err } && err.description@
                == self.complaint(cause@),
    {
        let call = match self.stage {
            DefaultStage::Opening => "open",
            DefaultStage::Channels => "channels",
            DefaultStage::Speed { .. } => "speed",
        };
        let description = node_failure_text(call, self.devnode.as_str(), cause);
        DefaultStreamConfigError::BackendSpecific { err: BackendSpecificError { description } }
    }

    /// Takes the answer of the device. When the device node is open, the number of
    /// channels and the sample rate in use are asked for in turn; the first failure
    /// ends it. The sample format is always [`SampleFormat::I16`].
    pub fn step(self, reply: DspReply) -> (progress: Progress<
        DefaultConfigQuery,
        Result<SupportedStreamConfig, DefaultStreamConfigError>,
    >)
        requires
            self.awaits(reply),
        ensures
            default_view(progress) == self.next(reply),
            match progress {
                Progress::Ask(query) => self.next(reply) == DefaultSearch::Asking(query),
                Progress::Done(Ok(config)) => self.next(reply) == DefaultSearch::Found(config),
                Progress::Done(Err(DefaultStreamConfigError::StreamTypeNotSupported)) => false,
                Progress::Done(Err(DefaultStreamConfigError::BackendSpecific { err })) => {
                    self.next(reply) == DefaultSearch::Failed(err.description@)
                },
            },
            progress matches Progress::Done(Ok(config)) ==> {
                &&& config.sample_format is I16
                &&& config.buffer_size is Unknown
            },
    {
        match reply {
            DspReply::Done(Err(e)) => Progress::Done(Err(self.failed(e.as_str()))),
            DspReply::Number(Err(e)) => Progress::Done(Err(self.failed(e.as_str()))),
            DspReply::Number(Ok(n)) => match self.stage {
                DefaultStage::Speed { channels } => {
                    Progress::Done(
                        Ok(
                            SupportedStreamConfig {
                                channels: channels as u16,
                                sample_rate: SampleRate(n),
                                buffer_size: SupportedBufferSize::Unknown,
                                sample_format: SampleFormat::I16,
                            },
                        ),
                    )
                },
                _ => {
                    let stage = DefaultStage::Speed { channels: n };
                    Progress::Ask(DefaultConfigQuery { devnode: self.devnode, stage })
                },
            },
            _ => {
                let stage = DefaultStage::Channels;
                Progress::Ask(DefaultConfigQuery { devnode: self.devnode, stage })
            },
        }
    }
}

/// Every configuration that is found for output streams has a sample format that
/// the device has, and lies within what is known of the device. When a stream with
/// that sample format is built, the device is set to a format that it has.
pub proof fn law_found_configs_can_be_opened(
    query: OutputConfigsQuery,
    formats: AudioFormats,
    i: int,
    opening: crate::open::OpenDsp,
)
    requires
        query.channels <= u16::MAX,
        0 <= i < query.ranges(formats).len(),
        opening.sample_format == query.ranges(formats)[i].sample_format,
        opening.stage is Opening,
    ensures
        formats.takes(query.ranges(formats)[i].sample_format),
        query.ranges(formats)[i].channels == query.channels,
        query.ranges(formats)[i].min_sample_rate.0 == query.min_rate,
        query.ranges(formats)[i].max_sample_rate.0 == query.max_rate,
        query.ranges(formats)[i].buffer_size is Unknown,
        query.ranges(formats).len() == formats.offered().len(),
        query.ranges(formats)[i].sample_format == formats.offered()[i],
        ({
            &&& opening.next(Ok(())) matches crate::open::Opening::Asking(next)
            &&& next.asks() matches DspRequest::FormatSet(format)
            &&& formats.has(format)
        }),
{
    let found = formats.offered()[i];
    assert(formats.offered().contains(found));
    formats.law_offered_is_what_the_device_takes(found);
}

/// The device is opened and asked for its sample formats, and its answer gives the
/// configurations; a failure of either call ends the search.
pub proof fn law_search_for_configs(
    query: OutputConfigsQuery,
    opened: Result<(), String>,
    formats: Result<AudioFormats, String>,
)
    requires
        query.stage is Opening,
    ensures
        query.asks() == DspRequest::Open(query.devnode),
        opened is Err ==> query.next(DspReply::Done(opened)) is Failed,
        opened is Ok ==> {
            &&& query.next(DspReply::Done(opened)) matches OutputSearch::Asking(next)
            &&& next.asks() == DspRequest::Formats
            &&& next.devnode == query.devnode
            &&& next.channels == query.channels
            &&& next.min_rate == query.min_rate
            &&& next.max_rate == query.max_rate
            &&& formats matches Ok(f) ==> next.next(DspReply::Formats(formats))
                == OutputSearch::Found(query.ranges(f))
            &&& next.next(DspReply::Formats(formats)) is Failed <==> formats is Err
        },
{
    if let Ok(f) = formats {
        let next = OutputConfigsQuery { stage: OutputStage::Formats, ..query };
        assert(next.ranges(f) =~= query.ranges(f));
    }
}

/// The device is opened and asked for its channels and then for its sample rate,
/// and these make up the default configuration. A stream with the sample format of
/// that configuration is never refused for it.
pub proof fn law_default_config_is_what_the_device_uses(
    query: DefaultConfigQuery,
    channels: u16,
    speed: u32,
    opening: crate::open::OpenDsp,
)
    requires
        query.stage is Opening,
        opening.stage is Opening,
        opening.sample_format == DefaultConfigQuery::config(channels as u32, speed).sample_format,
    ensures
        query.asks() == DspRequest::Open(query.devnode),
        ({
            &&& query.next(DspReply::Done(Ok(()))) matches DefaultSearch::Asking(second)
            &&& second.asks() == DspRequest::Channels
            &&& second.next(DspReply::Number(Ok(channels as u32))) matches DefaultSearch::Asking(
                third,
            )
            &&& third.asks() == DspRequest::Speed
            &&& third.next(DspReply::Number(Ok(speed))) matches DefaultSearch::Found(config)
            &&& config.channels == channels
            &&& config.sample_rate.0 == speed
        }),
        opening.next(Ok(())) is Asking,
{
}

/// A search takes the answer to what it asks for, whatever the answer is, and nothing
/// else. The exception is the answer that would complete a configuration with more
/// channels than fit in 16 bits.
pub proof fn law_searches_take_every_answer(
    query: OutputConfigsQuery,
    default_query: DefaultConfigQuery,
    reply: DspReply,
)
    ensures
        query.awaits(reply) <==> match query.asks() {
            DspRequest::Open(_) => reply is Done,
            _ => reply matches DspReply::Formats(r) && (r is Err || query.channels <= 0xffff),
        },
        default_query.awaits(reply) <==> match default_query.asks() {
            DspRequest::Open(_) => reply is Done,
            DspRequest::Channels => reply is Number,
            _ => reply matches DspReply::Number(r) && (r is Err || (
            default_query.stage matches DefaultStage::Speed { channels } && channels <= 0xffff)),
        },
{
}

/// The default configuration has the channels and the sample rate that the device
/// tells, and whatever they are, samples of 16 bits with a sign, and a buffer size
/// that is not known.
pub proof fn law_default_config_has_signed_16_bit_samples(
    query: DefaultConfigQuery,
    channels: u32,
    speed: u32,
)
    requires
        query.stage is Opening,
        channels <= 0xffff,
    ensures
        ({
            let opened = DspReply::Done(Ok(()));
            let first = DspReply::Number(Ok(channels));
            let second = DspReply::Number(Ok(speed));
            &&& query.awaits(opened)
            &&& query.next(opened) matches DefaultSearch::Asking(counting)
            &&& counting.devnode == query.devnode
            &&& counting.asks() == DspRequest::Channels
            &&& counting.awaits(first)
            &&& counting.next(first) matches DefaultSearch::Asking(timing)
            &&& timing.devnode == query.devnode
            &&& timing.asks() == DspRequest::Speed
            &&& timing.awaits(second)
            &&& timing.next(second) matches DefaultSearch::Found(config)
            &&& config.channels == channels
            &&& config.sample_rate.0 == speed
            &&& config.sample_format is I16
            &&& config.buffer_size is Unknown
        }),
{
}

/// Where a call of the search for the configurations fails, the description names the
/// call, and the device node where it could not be opened, and the cause.
pub proof fn law_failed_search_is_described(query: OutputConfigsQuery, cause: String)
    requires
        query.stage is Opening,
    ensures
        query.next(DspReply::Done(Err(cause))) == OutputSearch::Failed(
            "open(\""@ + query.devnode@ + "\"): "@ + cause@,
        ),
        query.next(DspReply::Done(Ok(()))) matches OutputSearch::Asking(next) && next.next(
            DspReply::Formats(Err(cause)),
        ) == OutputSearch::Failed("get formats: "@ + cause@),
{
    crate::text::law_node_failure("open"@, query.devnode@, cause@);
    reveal_strlit("open");
    reveal_strlit("open(\"");
    reveal_strlit("\"): ");
    assert("open"@ + seq!['(', '"'] =~= "open(\""@);
    assert(seq!['"', ')', ':', ' '] =~= "\"): "@);
    crate::text::law_failure("get formats"@, cause@);
    reveal_strlit("get formats");
    reveal_strlit("get formats: ");
    assert("get formats"@ + seq![':', ' '] =~= "get formats: "@);
}

/// Where a call of the search for the default configuration fails, the description
/// names the call, the device node and the cause.
pub proof fn law_failed_default_is_described(
    query: DefaultConfigQuery,
    channels: u32,
    cause: String,
)
    requires
        query.stage is Opening,
    ensures
        query.next(DspReply::Done(Err(cause))) == DefaultSearch::Failed(
            "open(\""@ + query.devnode@ + "\"): "@ + cause@,
        ),
        ({
            let failed = DspReply::Number(Err(cause));
            &&& query.next(DspReply::Done(Ok(()))) matches DefaultSearch::Asking(counting)
            &&& counting.next(failed) == DefaultSearch::Failed(
                "channels(\""@ + query.devnode@ + "\"): "@ + cause@,
            )
            &&& counting.next(DspReply::Number(Ok(channels))) matches DefaultSearch::Asking(timing)
            &&& timing.next(failed) == DefaultSearch::Failed(
                "speed(\""@ + query.devnode@ + "\"): "@ + cause@,
            )
        }),
{
    crate::text::law_node_failure("open"@, query.devnode@, cause@);
    crate::text::law_node_failure("channels"@, query.devnode@, cause@);
    crate::text::law_node_failure("speed"@, query.devnode@, cause@);
    reveal_strlit("\"): ");
    reveal_strlit("open");
    reveal_strlit("open(\"");
    reveal_strlit("channels");
    reveal_strlit("channels(\"");
    reveal_strlit("speed");
    reveal_strlit("speed(\"");
    assert(seq!['"', ')', ':', ' '] =~= "\"): "@);
    assert("open"@ + seq!['(', '"'] =~= "open(\""@);
    assert("channels"@ + seq!['(', '"'] =~= "channels(\""@);
    assert("speed"@ + seq!['(', '"'] =~= "speed(\""@);
}

/// Each sample format in which samples can be sent to the device is found in
/// exactly one configuration.
pub proof fn law_each_format_is_found_once(
    query: OutputConfigsQuery,
    formats: AudioFormats,
    sample_format: SampleFormat,
)
    requires
        formats.takes(sample_format),
    ensures
        exists|i: int|
            0 <= i < query.ranges(formats).len() && (#[trigger] query.ranges(
                formats,
            )[i]).sample_format == sample_format,
        forall|i: int, j: int|
            0 <= i < query.ranges(formats).len() && 0 <= j < query.ranges(formats).len() && (
            #[trigger] query.ranges(formats)[i]).sample_format == (#[trigger] query.ranges(
                formats,
            )[j]).sample_format ==> i == j,
{
    formats.law_offered_is_what_the_device_takes(sample_format);
    let k = formats.offered().index_of(sample_format);
    assert(query.ranges(formats)[k].sample_format == sample_format);
}

} // verus!
