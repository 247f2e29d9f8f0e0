//! Output streams.
use vstd::prelude::*;

use crate::config::{SampleFormat, StreamConfig};
use crate::error::{PauseStreamError, PlayStreamError};

verus! {

/// What a stream and its worker share.
#[derive(Debug, PartialEq, Eq)]
pub struct StreamInner {
    pub sample_format: SampleFormat,
    pub config: StreamConfig,
    /// Whether the stream has been told to play.
    pub playing: bool,
}

impl StreamInner {
    /// A stream that has not been told to play.
    pub fn new(config: &StreamConfig, sample_format: SampleFormat) -> (inner: StreamInner)
        ensures
            inner == (StreamInner { sample_format, config: *config, playing: false }),
    {
        StreamInner { sample_format, config: *config, playing: false }
    }
}

/// An output stream, as its owner sees it.
#[derive(Debug)]
pub struct Stream {
    pub inner: StreamInner,
}

impl Stream {
    /// The stream over `inner`.
    pub fn new_output(inner: StreamInner) -> (stream: Stream)
        ensures
            stream.inner == inner,
    {
        Stream { inner }
    }

    /// Whether the stream has been told to play.
    pub fn is_playing(&self) -> (b: bool)
        ensures
            b == self.inner.playing,
    {
        self.inner.playing
    }

    /// Tells the stream to play. This never fails.
    pub fn play(&mut self) -> (r: Result<(), PlayStreamError>)
        ensures
            r == Ok::<(), PlayStreamError>(()),
            final(self).inner == (StreamInner { playing: true, ..old(self).inner }),
    {
        self.inner.playing = true;
        Ok(())
    }

    /// Tells the stream to stop playing. This never fails.
    pub fn pause(&mut self) -> (r: Result<(), PauseStreamError>)
        ensures
            r == Ok::<(), PauseStreamError>(()),
            final(self).inner == (StreamInner { playing: false, ..old(self).inner }),
    {
        self.inner.playing = false;
        Ok(())
    }
}

} // verus!
