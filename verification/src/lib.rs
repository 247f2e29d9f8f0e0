//! The illumos audio host, as verified logic without any device access.
//!
//! An operation that has to talk to the audio mixer or to a `dsp` device is a
//! conversation: it says what to ask next, and takes the answer in return. The
//! caller carries the questions out. The worker that feeds an output stream works
//! in the same way.
pub mod config;
pub mod conversation;
pub mod device;
pub mod devices;
pub mod error;
pub mod formats;
pub mod host;
pub mod open;
pub mod query;
pub mod stream;
pub mod text;
pub mod time;
pub mod worker;
pub mod worker_laws;

pub use config::{
    BufferSize, SampleFormat, SampleRate, StreamConfig, SupportedBufferSize,
    SupportedStreamConfig, SupportedStreamConfigRange,
};
pub use conversation::{DspReply, DspRequest, Progress};
pub use device::{AudioInfo, Device, SupportedInputConfigs, SupportedOutputConfigs};
pub use devices::{DeviceScan, Devices, MixerReply, MixerRequest};
pub use error::{
    BackendSpecificError, BuildStreamError, DefaultStreamConfigError, DeviceNameError,
    DevicesError, HostUnavailable, PauseStreamError, PlayStreamError, StreamError,
    SupportedStreamConfigsError,
};
pub use formats::{AudioFormat, AudioFormats};
pub use host::Host;
pub use open::{BuildOutputStream, OpenDsp};
pub use query::{DefaultConfigQuery, OutputConfigsQuery};
pub use stream::{Stream, StreamInner};
pub use time::{OutputCallbackInfo, OutputStreamTimestamp, StreamInstant};
pub use worker::{
    output_stream_worker, OutputWorker, StreamWorkerContext, WorkerAction, WorkerEvent,
    WorkerState,
};
