//! A device, and what it can be asked.
use vstd::prelude::*;

use crate::config::{
    SampleFormat, StreamConfig, SupportedStreamConfig, SupportedStreamConfigRange,
};
use crate::error::{DefaultStreamConfigError, DeviceNameError, SupportedStreamConfigsError};
use crate::open::{BuildOutputStream, OpenDsp, OpenStage};
use crate::query::{DefaultConfigQuery, DefaultStage, OutputConfigsQuery, OutputStage};

verus! {

/// What the mixer tells of a device.
#[derive(Debug, PartialEq, Eq)]
pub struct AudioInfo {
    /// The device node.
    pub devnode: String,
    pub name: String,
    pub max_channels: u32,
    pub min_rate: u32,
    pub max_rate: u32,
}

/// An audio device.
#[derive(Debug, PartialEq, Eq)]
pub struct Device {
    /// The device node.
    pub devnode: String,
    /// What the mixer told of the device. The default device comes without.
    pub info: Option<AudioInfo>,
}

impl Clone for AudioInfo {
    fn clone(&self) -> (copy: AudioInfo)
        ensures
            copy == *self,
    {
        AudioInfo {
            devnode: self.devnode.clone(),
            name: self.name.clone(),
            max_channels: self.max_channels,
            min_rate: self.min_rate,
            max_rate: self.max_rate,
        }
    }
}

impl Clone for Device {
    fn clone(&self) -> (copy: Device)
        ensures
            copy == *self,
    {
        let info = match &self.info {
            Some(info) => Some(info.clone()),
            None => None,
        };
        Device { devnode: self.devnode.clone(), info }
    }
}

/// The configurations that a device has for input streams: none.
#[derive(Debug)]
pub struct SupportedInputConfigs;

impl SupportedInputConfigs {
    /// The next configuration: there is none.
    pub fn next(&mut self) -> (config: Option<SupportedStreamConfigRange>)
        ensures
            config is None,
            *final(self) == *old(self),
    {
        None
    }
}

/// The configurations that a device has for output streams.
#[derive(Debug)]
pub struct SupportedOutputConfigs {
    pub configs: Vec<SupportedStreamConfigRange>,
}

impl SupportedOutputConfigs {
    /// The configurations that are still to come, in the order in which they come:
    /// what was found last comes first.
    pub open spec fn upcoming(self) -> Seq<SupportedStreamConfigRange> {
        self.configs@.reverse()
    }

    /// Each configuration comes once, and what was found last comes first: as many
    /// come as were found, and configuration `i` comes after those found behind it.
    pub proof fn law_each_config_comes_once(self, i: int)
        ensures
            self.upcoming().len() == self.configs@.len(),
            0 <= i < self.configs@.len() ==> self.upcoming()[self.configs@.len() - 1 - i]
                == self.configs@[i],
    {
    }

    /// Takes the next configuration.
    pub fn next(&mut self) -> (config: Option<SupportedStreamConfigRange>)
        ensures
            old(self).upcoming().len() == 0 ==> config is None && final(self).upcoming().len()
                == 0,
            old(self).upcoming().len() > 0 ==> {
                &&& config == Some(old(self).upcoming().first())
                &&& final(self).upcoming() == old(self).upcoming().drop_first()
            },
            config is None <==> old(self).configs@.len() == 0,
            match config {
                Some(last) => old(self).configs@ == final(self).configs@.push(last),
                None => final(self).configs@ == old(self).configs@,
            },
    {
        let config = self.configs.pop();
        proof {
            if old(self).upcoming().len() > 0 {
                assert(self.upcoming() =~= old(self).upcoming().drop_first());
                assert(old(self).configs@ =~= self.configs@.push(config->Some_0));
            }
        }
        config
    }
}

impl Device {
    /// The channels, the lowest and the highest sample rate of the device.
    pub open spec fn limits(self) -> (u32, u32, u32) {
        match self.info {
            Some(info) => (info.max_channels, info.min_rate, info.max_rate),
            None => (2, 8000, 48000),
        }
    }

    /// The search for the configurations for output streams, at its start.
    pub open spec fn output_search(self) -> OutputConfigsQuery {
        OutputConfigsQuery {
            devnode: self.devnode,
            channels: self.limits().0,
            min_rate: self.limits().1,
            max_rate: self.limits().2,
            stage: OutputStage::Opening,
        }
    }

    /// The name that the mixer told, or `default`. This never fails.
    pub fn name(&self) -> (name: Result<String, DeviceNameError>)
        ensures
            name matches Ok(text) && text@ == match self.info {
                Some(info) => info.name@,
                None => "default"@,
            },
    {
        match &self.info {
            Some(info) => Ok(info.name.clone()),
            None => Ok("default".to_owned()),
        }
    }

    /// The configurations for input streams. This never fails.
    pub fn supported_input_configs(&self) -> (configs: Result<
        SupportedInputConfigs,
        SupportedStreamConfigsError,
    >)
        ensures
            configs == Ok::<SupportedInputConfigs, SupportedStreamConfigsError>(
                SupportedInputConfigs,
            ),
    {
        Ok(SupportedInputConfigs)
    }

    /// The default configuration for input streams: there are no input streams.
    pub fn default_input_config(&self) -> (config: Result<
        SupportedStreamConfig,
        DefaultStreamConfigError,
    >)
        ensures
            config == Err::<SupportedStreamConfig, DefaultStreamConfigError>(
                DefaultStreamConfigError::StreamTypeNotSupported,
            ),
    {
        Err(DefaultStreamConfigError::StreamTypeNotSupported)
    }

    /// Starts to open the device for a stream.
    pub fn open_dsp(&self, config: &StreamConfig, sample_format: SampleFormat) -> (opening: OpenDsp)
        ensures
            opening == (OpenDsp {
                devnode: self.devnode,
                config: *config,
                sample_format,
                stage: OpenStage::Opening,
            }),
    {
        OpenDsp {
            devnode: self.devnode.clone(),
            config: *config,
            sample_format,
            stage: OpenStage::Opening,
        }
    }

    /// Starts to build an output stream.
    pub fn build_output_stream_raw(
        &self,
        config: &StreamConfig,
        sample_format: SampleFormat,
    ) -> (build: BuildOutputStream)
        ensures
            build.opening == (OpenDsp {
                devnode: self.devnode,
                config: *config,
                sample_format,
                stage: OpenStage::Opening,
            }),
    {
        BuildOutputStream { opening: self.open_dsp(config, sample_format) }
    }

    /// Starts to look for the configurations for output streams.
    pub fn supported_output_configs(&self) -> (query: OutputConfigsQuery)
        ensures
            query == (OutputConfigsQuery {
                devnode: self.devnode,
                channels: self.limits().0,
                min_rate: self.limits().1,
                max_rate: self.limits().2,
                stage: OutputStage::Opening,
            }),
            query == self.output_search(),
            query.devnode == self.devnode,
            query.stage is Opening,
            match self.info {
                Some(info) => {
                    &&& query.channels == info.max_channels
                    &&& query.min_rate == info.min_rate
                    &&& query.max_rate == info.max_rate
                },
                None => {
                    &&& query.channels == 2
                    &&& query.min_rate == 8000
                    &&& query.max_rate == 48000
                },
            },
    {
        let (channels, min_rate, max_rate) = match &self.info {
            Some(info) => (info.max_channels, info.min_rate, info.max_rate),
            None => (2, 8000, 48000),
        };
        OutputConfigsQuery {
            devnode: self.devnode.clone(),
            channels,
            min_rate,
            max_rate,
            stage: OutputStage::Opening,
        }
    }

    /// Starts to look for the default configuration for output streams.
    pub fn default_output_config(&self) -> (query: DefaultConfigQuery)
        ensures
            query == (DefaultConfigQuery { devnode: self.devnode, stage: DefaultStage::Opening }),
    {
        DefaultConfigQuery { devnode: self.devnode.clone(), stage: DefaultStage::Opening }
    }

    /// The device node is opened, and the sample formats are asked for. They then make
    /// up the configurations for output streams, each with the channels and the
    /// sample rates that the mixer told of the device, or with two channels and 8000
    /// to 48000 samples per second where the mixer told nothing. There is one
    /// configuration for each sample format that the device has, and no other.
    pub proof fn law_output_configs_are_what_the_mixer_told(
        self,
        formats: crate::formats::AudioFormats,
        sample_format: SampleFormat,
    )
        requires
            self.info matches Some(info) ==> info.max_channels <= 0xffff,
        ensures
            self.output_search().asks() == crate::conversation::DspRequest::Open(self.devnode),
            ({
                let opened = crate::conversation::DspReply::Done(Ok(()));
                let told = crate::conversation::DspReply::Formats(Ok(formats));
                &&& self.output_search().awaits(opened)
                &&& self.output_search().next(opened) matches crate::query::OutputSearch::Asking(
                    second,
                )
                &&& second.asks() == crate::conversation::DspRequest::Formats
                &&& second.awaits(told)
                &&& second.next(told) matches crate::query::OutputSearch::Found(configs)
                &&& forall|i: int|
                    #![trigger configs[i]]
                    0 <= i < configs.len() ==> match self.info {
                        Some(info) => {
                            &&& configs[i].channels == info.max_channels
                            &&& configs[i].min_sample_rate.0 == info.min_rate
                            &&& configs[i].max_sample_rate.0 == info.max_rate
                        },
                        None => {
                            &&& configs[i].channels == 2
                            &&& configs[i].min_sample_rate.0 == 8000
                            &&& configs[i].max_sample_rate.0 == 48000
                        },
                    }
                &&& forall|i: int|
                    0 <= i < configs.len() ==> (#[trigger] configs[i]).buffer_size is Unknown
                &&& (exists|i: int|
                    0 <= i < configs.len() && (#[trigger] configs[i]).sample_format
                        == sample_format) <==> {
                    ||| sample_format is I32 && formats.s32_ne
                    ||| sample_format is I16 && formats.s16_ne
                    ||| sample_format is U16 && formats.u16_ne
                    ||| sample_format is I8 && formats.s8
                    ||| sample_format is U8 && formats.u8
                }
                &&& forall|i: int, j: int|
                    0 <= i < j < configs.len() ==> (#[trigger] configs[i]).sample_format != (
                    #[trigger] configs[j]).sample_format
            }),
    {
        let second = OutputConfigsQuery { stage: OutputStage::Formats, ..self.output_search() };
        let offered = formats.offered();
        let configs = second.ranges(formats);
        formats.law_offered_by_name(0, 0);
        formats.law_offered_is_what_the_device_takes(sample_format);
        if offered.contains(sample_format) {
            let k = offered.index_of(sample_format);
            assert(configs[k].sample_format == sample_format);
        }
        assert forall|i: int|
            0 <= i < configs.len() && (#[trigger] configs[i]).sample_format
                == sample_format implies offered.contains(sample_format) by {
            assert(offered[i] == sample_format);
        }
        assert forall|i: int, j: int| 0 <= i < j < configs.len() implies (
        #[trigger] configs[i]).sample_format != (#[trigger] configs[j]).sample_format by {
            assert(offered[i] != offered[j]);
        }
    }

    /// The configurations for output streams lie in the order of their sizes, the
    /// largest first, with signed samples before unsigned ones of the same size.
    pub proof fn law_output_configs_are_ordered(
        self,
        formats: crate::formats::AudioFormats,
        i: int,
        j: int,
    )
        ensures
            ({
                let second = OutputConfigsQuery {
                    stage: OutputStage::Formats,
                    ..self.output_search()
                };
                let told = crate::conversation::DspReply::Formats(Ok(formats));
                &&& second.next(told) matches crate::query::OutputSearch::Found(configs)
                &&& 0 <= i < j < configs.len() ==> {
                    let first = configs[i].sample_format;
                    let after = configs[j].sample_format;
                    ||| first.size() > after.size()
                    ||| first is I16 && after is U16
                    ||| first is I8 && after is U8
                }
            }),
    {
        formats.law_offered_by_name(i, j);
    }
}

} // verus!
