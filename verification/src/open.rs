//! The opening of a device for a stream.
use vstd::pervasive::unreached;
use vstd::prelude::*;

use crate::config::{SampleFormat, StreamConfig};
use crate::conversation::{DspReply, DspRequest, Progress};
use crate::error::{BackendSpecificError, BuildStreamError};
use crate::formats::{audio_format, AudioFormat};
use crate::stream::{Stream, StreamInner};
use crate::text::node_failure_text;

verus! {

/// How far the opening of a device has come.
#[derive(Clone, Copy, Debug, PartialEq, Eq, Structural)]
pub enum OpenStage {
    /// The device node is being opened.
    Opening,
    /// The sample format is being set.
    SettingFormat(AudioFormat),
    /// The number of channels is being set.
    SettingChannels,
    /// The sample rate is being set.
    SettingSpeed,
}

/// The opening of a device for a stream.
#[derive(Debug, PartialEq, Eq)]
pub struct OpenDsp {
    pub devnode: String,
    pub config: StreamConfig,
    pub sample_format: SampleFormat,
    pub stage: OpenStage,
}

/// How the opening of a device stands.
pub enum Opening {
    /// There is something to ask.
    Asking(OpenDsp),
    /// The device is open and set up.
    Opened,
    /// Devices do not have the sample format.
    Unsupported,
    /// A call failed, with this description.
    Failed(Seq<char>),
}

/// How the opening of a device stands after a step.
pub open spec fn opening_view(progress: Progress<OpenDsp, Result<(), BuildStreamError>>) -> Opening {
    match progress {
        Progress::Ask(opening) => Opening::Asking(opening),
        Progress::Done(Ok(())) => Opening::Opened,
        Progress::Done(Err(BuildStreamError::StreamConfigNotSupported)) => Opening::Unsupported,
        Progress::Done(Err(BuildStreamError::BackendSpecific { err })) => Opening::Failed(
            err.description@,
        ),
    }
}

impl OpenDsp {
    /// What is asked of the device.
    pub open spec fn asks(self) -> DspRequest {
        match self.stage {
            OpenStage::Opening => DspRequest::Open(self.devnode),
            OpenStage::SettingFormat(format) => DspRequest::FormatSet(format),
            OpenStage::SettingChannels => DspRequest::ChannelsSet(self.config.channels),
            OpenStage::SettingSpeed => DspRequest::SpeedSet(self.config.sample_rate.0),
        }
    }

    /// The name of the call on the device.
    pub open spec fn call(self) -> Seq<char> {
        match self.stage {
            OpenStage::Opening => "open"@,
            OpenStage::SettingFormat(_) => "format_set"@,
            OpenStage::SettingChannels => "channels_set"@,
            OpenStage::SettingSpeed => "speed_set"@,
        }
    }

    /// The same opening, at `stage`.
    pub open spec fn at(self, stage: OpenStage) -> OpenDsp {
        OpenDsp { stage, ..self }
    }

    /// How the opening stands after an answer.
    pub open spec fn next(self, answer: Result<(), String>) -> Opening {
        match answer {
            Err(e) => Opening::Failed(
                crate::text::failure(crate::text::node_call(self.call(), self.devnode@), e@),
            ),
            Ok(()) => match self.stage {
                OpenStage::Opening => match crate::formats::device_format(self.sample_format) {
                    Some(format) => Opening::Asking(self.at(OpenStage::SettingFormat(format))),
                    None => Opening::Unsupported,
                },
                OpenStage::SettingFormat(_) => Opening::Asking(
                    self.at(OpenStage::SettingChannels),
                ),
                OpenStage::SettingChannels => Opening::Asking(self.at(OpenStage::SettingSpeed)),
                OpenStage::SettingSpeed => Opening::Opened,
            },
        }
    }

    /// What is to be asked of the device.
    pub fn request(&self) -> (request: DspRequest)
        ensures
            request == self.asks(),
    {
        match self.stage {
            OpenStage::Opening => DspRequest::Open(self.devnode.clone()),
            OpenStage::SettingFormat(format) => DspRequest::FormatSet(format),
            OpenStage::SettingChannels => DspRequest::ChannelsSet(self.config.channels),
            OpenStage::SettingSpeed => DspRequest::SpeedSet(self.config.sample_rate.0),
        }
    }

    /// Takes the answer of the device. Once the device node is open, its sample
    /// format, number of channels and sample rate are set in turn; the first
    /// failure ends it.
    pub fn step(self, reply: DspReply) -> (progress: Progress<OpenDsp, Result<(), BuildStreamError>>)
        requires
            reply is Done,
        ensures
            opening_view(progress) == self.next(reply->Done_0),
            match progress {
                Progress::Ask(opening) => self.next(reply->Done_0) == Opening::Asking(opening),
                Progress::Done(Ok(_)) => self.next(reply->Done_0) is Opened,
                Progress::Done(Err(BuildStreamError::StreamConfigNotSupported)) => self.next(
                    reply->Done_0,
                ) is Unsupported,
                Progress::Done(Err(BuildStreamError::BackendSpecific { err })) => self.next(
                    reply->Done_0,
                ) == Opening::Failed(err.description@),
            },
    {
        let answer = match reply {
            DspReply::Done(answer) => answer,
            _ => unreached(),
        };
        let stage = self.stage;
        if let Err(e) = answer {
            let call = match stage {
                OpenStage::Opening => "open",
                OpenStage::SettingFormat(_) => "format_set",
                OpenStage::SettingChannels => "channels_set",
                OpenStage::SettingSpeed => "speed_set",
            };
            let description = node_failure_text(call, self.devnode.as_str(), e.as_str());
            return Progress::Done(
                Err(BuildStreamError::BackendSpecific { err: BackendSpecificError { description } }),
            );
        }
        let next = match stage {
            OpenStage::Opening => match audio_format(self.sample_format) {
                Some(format) => OpenStage::SettingFormat(format),
                None => return Progress::Done(Err(BuildStreamError::StreamConfigNotSupported)),
            },
            OpenStage::SettingFormat(_) => OpenStage::SettingChannels,
            OpenStage::SettingChannels => OpenStage::SettingSpeed,
            OpenStage::SettingSpeed => return Progress::Done(Ok(())),
        };
        Progress::Ask(
            OpenDsp {
                devnode: self.devnode,
                config: self.config,
                sample_format: self.sample_format,
                stage: next,
            },
        )
    }

    /// How the opening stands after `answers`, in turn. Answers that come when
    /// nothing is asked any more change nothing.
    pub open spec fn after(self, answers: Seq<Result<(), String>>) -> Opening
        decreases answers.len(),
    {
        if answers.len() == 0 {
            Opening::Asking(self)
        } else {
            match self.after(answers.drop_last()) {
                Opening::Asking(opening) => opening.next(answers.last()),
                over => over,
            }
        }
    }

    /// A device is opened, set to the format of the samples, then to the channels
    /// and then to the sample rate of the stream, and is ready once all four calls
    /// have succeeded. Where devices do not have the sample format, the device is
    /// opened and nothing is set.
    pub proof fn law_sets_up_what_was_asked_for(self)
        requires
            self.stage is Opening,
        ensures
            self.asks() == DspRequest::Open(self.devnode),
            match crate::formats::device_format(self.sample_format) {
                Some(format) => {
                    &&& self.after(successes(1)) matches Opening::Asking(o)
                    &&& o.asks() == DspRequest::FormatSet(format)
                    &&& self.after(successes(2)) matches Opening::Asking(o)
                    &&& o.asks() == DspRequest::ChannelsSet(self.config.channels)
                    &&& self.after(successes(3)) matches Opening::Asking(o)
                    &&& o.asks() == DspRequest::SpeedSet(self.config.sample_rate.0)
                    &&& self.after(successes(4)) == Opening::Opened
                },
                None => self.after(successes(1)) == Opening::Unsupported,
            },
    {
        reveal_with_fuel(OpenDsp::after, 5);
        assert(successes(4).drop_last() =~= successes(3));
        assert(successes(3).drop_last() =~= successes(2));
        assert(successes(2).drop_last() =~= successes(1));
        assert(successes(1).drop_last() =~= successes(0));
    }

    /// A device is never taken for open unless its sample format is one that
    /// devices have, and four calls have succeeded.
    pub proof fn law_opened_only_after_four_successes(self, answers: Seq<Result<(), String>>)
        requires
            self.stage is Opening,
            self.after(answers) == Opening::Opened,
        ensures
            crate::formats::device_format(self.sample_format) is Some,
            answers.len() >= 4,
            answers.take(4) == successes(4),
    {
        self.lemma_prefix_of_successes(answers);
    }

    /// Of the four calls, the first that fails ends the opening, and its description
    /// names the call, the device node and the cause.
    pub proof fn law_failures_are_described(self, cause: String)
        requires
            self.stage is Opening,
            self.sample_format is I8 || self.sample_format is U8 || self.sample_format is I16
                || self.sample_format is U16 || self.sample_format is I32,
        ensures
            self.after(successes(0).push(Err(cause))) == Opening::Failed(
                "open(\""@ + self.devnode@ + "\"): "@ + cause@,
            ),
            self.after(successes(1).push(Err(cause))) == Opening::Failed(
                "format_set(\""@ + self.devnode@ + "\"): "@ + cause@,
            ),
            self.after(successes(2).push(Err(cause))) == Opening::Failed(
                "channels_set(\""@ + self.devnode@ + "\"): "@ + cause@,
            ),
            self.after(successes(3).push(Err(cause))) == Opening::Failed(
                "speed_set(\""@ + self.devnode@ + "\"): "@ + cause@,
            ),
    {
        self.law_sets_up_what_was_asked_for();
        reveal_with_fuel(OpenDsp::after, 5);
        assert(successes(3).drop_last() =~= successes(2));
        assert(successes(2).drop_last() =~= successes(1));
        assert(successes(1).drop_last() =~= successes(0));
        assert(successes(0).push(Err(cause)).drop_last() =~= successes(0));
        assert(successes(1).push(Err(cause)).drop_last() =~= successes(1));
        assert(successes(2).push(Err(cause)).drop_last() =~= successes(2));
        assert(successes(3).push(Err(cause)).drop_last() =~= successes(3));
        crate::text::law_node_failure("open"@, self.devnode@, cause@);
        crate::text::law_node_failure("format_set"@, self.devnode@, cause@);
        crate::text::law_node_failure("channels_set"@, self.devnode@, cause@);
        crate::text::law_node_failure("speed_set"@, self.devnode@, cause@);
        reveal_strlit("\"): ");
        reveal_strlit("open");
        reveal_strlit("open(\"");
        reveal_strlit("format_set");
        reveal_strlit("format_set(\"");
        reveal_strlit("channels_set");
        reveal_strlit("channels_set(\"");
        reveal_strlit("speed_set");
        reveal_strlit("speed_set(\"");
        assert(seq!['"', ')', ':', ' '] =~= "\"): "@);
        assert("open"@ + seq!['(', '"'] =~= "open(\""@);
        assert("format_set"@ + seq!['(', '"'] =~= "format_set(\""@);
        assert("channels_set"@ + seq!['(', '"'] =~= "channels_set(\""@);
        assert("speed_set"@ + seq!['(', '"'] =~= "speed_set(\""@);
    }

    /// The device is set to the format with the number of bits and the signedness of
    /// the samples. Samples of any other format are refused once the device node is
    /// open; a device node that cannot be opened is reported whatever the format is.
    pub proof fn law_format_is_that_of_the_samples(self, cause: String)
        requires
            self.stage is Opening,
        ensures
            match self.next(Ok(())) {
                Opening::Asking(o) => o.asks() matches DspRequest::FormatSet(format) && {
                    ||| self.sample_format is I32 && format is S32Ne
                    ||| self.sample_format is I16 && format is S16Ne
                    ||| self.sample_format is U16 && format is U16Ne
                    ||| self.sample_format is I8 && format is S8
                    ||| self.sample_format is U8 && format is U8
                },
                Opening::Unsupported => {
                    ||| self.sample_format is U32
                    ||| self.sample_format is I64
                    ||| self.sample_format is U64
                    ||| self.sample_format is F32
                    ||| self.sample_format is F64
                },
                _ => false,
            },
            self.next(Err(cause)) == Opening::Failed(
                "open(\""@ + self.devnode@ + "\"): "@ + cause@,
            ),
    {
        crate::text::law_node_failure("open"@, self.devnode@, cause@);
        reveal_strlit("\"): ");
        reveal_strlit("open");
        reveal_strlit("open(\"");
        assert(seq!['"', ')', ':', ' '] =~= "\"): "@);
        assert("open"@ + seq!['(', '"'] =~= "open(\""@);
    }

    /// While the device is being opened, its device node, the sample format and the
    /// configuration of the stream stay what they were, so that the stream that comes
    /// of it is the one that was asked for.
    pub proof fn law_request_stays_as_it_was(self, answers: Seq<Result<(), String>>)
        ensures
            self.after(answers) matches Opening::Asking(o) ==> {
                &&& o.devnode == self.devnode
                &&& o.config == self.config
                &&& o.sample_format == self.sample_format
            },
        decreases answers.len(),
    {
        if answers.len() > 0 {
            self.law_request_stays_as_it_was(answers.drop_last());
        }
    }

    /// What the stages say of the answers so far.
    proof fn lemma_prefix_of_successes(self, answers: Seq<Result<(), String>>)
        requires
            self.stage is Opening,
        ensures
            match self.after(answers) {
                Opening::Asking(o) => {
                    &&& o == self.at(o.stage)
                    &&& answers == successes(answers.len())
                    &&& match o.stage {
                        OpenStage::Opening => answers.len() == 0,
                        OpenStage::SettingFormat(format) => answers.len() == 1
                            && crate::formats::device_format(self.sample_format) == Some(format),
                        OpenStage::SettingChannels => answers.len() == 2
                            && crate::formats::device_format(self.sample_format) is Some,
                        OpenStage::SettingSpeed => answers.len() == 3
                            && crate::formats::device_format(self.sample_format) is Some,
                    }
                },
                Opening::Opened => {
                    &&& crate::formats::device_format(self.sample_format) is Some
                    &&& answers.len() >= 4
                    &&& answers.take(4) == successes(4)
                },
                _ => answers.len() > 0,
            },
        decreases answers.len(),
    {
        if answers.len() > 0 {
            let front = answers.drop_last();
            self.lemma_prefix_of_successes(front);
            match self.after(front) {
                Opening::Asking(_) => {
                    assert(answers =~= front.push(answers.last()));
                    if let Ok(u) = answers.last() {
                        assert(u == ());
                        assert(answers =~= successes(front.len()).push(answers.last()));
                        assert(answers =~= successes(answers.len()));
                        assert(answers.len() == 4 ==> answers.take(4) =~= answers);
                    }
                },
                Opening::Opened => {
                    assert(answers.take(4) =~= front.take(4));
                },
                _ => {},
            }
        }
    }
}

/// `n` calls that succeeded.
pub open spec fn successes(n: nat) -> Seq<Result<(), String>> {
    Seq::new(n, |i: int| Ok::<(), String>(()))
}

/// The building of an output stream.
#[derive(Debug, PartialEq, Eq)]
pub struct BuildOutputStream {
    pub opening: OpenDsp,
}

impl BuildOutputStream {
    /// What is to be asked of the device.
    pub fn request(&self) -> (request: DspRequest)
        ensures
            request == self.opening.asks(),
    {
        self.opening.request()
    }

    /// Takes the answer of the device. When the device has been opened, the stream
    /// is there, and does not play.
    pub fn step(self, reply: DspReply) -> (progress: Progress<
        BuildOutputStream,
        Result<Stream, BuildStreamError>,
    >)
        requires
            reply is Done,
        ensures
            match self.opening.next(reply->Done_0) {
                Opening::Asking(opening) => progress == Progress::<
                    BuildOutputStream,
                    Result<Stream, BuildStreamError>,
                >::Ask(BuildOutputStream { opening }),
                Opening::Opened => progress matches Progress::Done(Ok(stream)) && stream.inner == (
                StreamInner {
                    sample_format: self.opening.sample_format,
                    config: self.opening.config,
                    playing: false,
                }),
                Opening::Unsupported => progress matches Progress::Done(
                    Err(BuildStreamError::StreamConfigNotSupported),
                ),
                Opening::Failed(description) => progress matches Progress::Done(
                    Err(BuildStreamError::BackendSpecific { err }),
                ) && err.description@ == description,
            },
    {
        let config = self.opening.config;
        let sample_format = self.opening.sample_format;
        match self.opening.step(reply) {
            Progress::Ask(opening) => Progress::Ask(BuildOutputStream { opening }),
            Progress::Done(Ok(())) => {
                Progress::Done(Ok(Stream::new_output(StreamInner::new(&config, sample_format))))
            },
            Progress::Done(Err(e)) => Progress::Done(Err(e)),
        }
    }
}

} // verus!
