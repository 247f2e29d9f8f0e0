//! Conversations with the mixer and with `dsp` devices.
use vstd::prelude::*;

use crate::formats::{AudioFormat, AudioFormats};

verus! {

/// How far an operation has come that has to ask a device.
#[derive(Debug, PartialEq, Eq)]
pub enum Progress<S, T> {
    /// There is something to ask. The state tells what, and takes the answer.
    Ask(S),
    /// The operation is over.
    Done(T),
}

/// Something to ask of a `dsp` device.
#[derive(Debug, PartialEq, Eq)]
pub enum DspRequest {
    /// Open the device node.
    Open(String),
    /// Use a sample format.
    FormatSet(AudioFormat),
    /// Use a number of channels.
    ChannelsSet(u16),
    /// Use a sample rate.
    SpeedSet(u32),
    /// Which sample formats are there?
    Formats,
    /// How many channels are in use?
    Channels,
    /// Which sample rate is in use?
    Speed,
}

/// What a `dsp` device answers. A failure comes with the text of its error.
#[derive(Debug, PartialEq, Eq)]
pub enum DspReply {
    /// To [`DspRequest::Open`] and to the requests to use something.
    Done(Result<(), String>),
    /// To [`DspRequest::Formats`].
    Formats(Result<AudioFormats, String>),
    /// To [`DspRequest::Channels`] and [`DspRequest::Speed`].
    Number(Result<u32, String>),
}

} // verus!
