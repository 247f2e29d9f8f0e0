//! The errors that the host, its devices and its streams give.
use vstd::prelude::*;

verus! {

/// An error of the audio system that no other variant describes.
#[derive(Debug, PartialEq, Eq)]
pub struct BackendSpecificError {
    /// What failed, and why.
    pub description: String,
}

/// The host cannot be used on this machine.
#[derive(Clone, Copy, Debug, PartialEq, Eq)]
pub struct HostUnavailable;

/// The devices could not be listed.
#[derive(Debug, PartialEq, Eq)]
pub enum DevicesError {
    BackendSpecific { err: BackendSpecificError },
}

/// The name of a device could not be found.
#[derive(Debug, PartialEq, Eq)]
pub enum DeviceNameError {
    BackendSpecific { err: BackendSpecificError },
}

/// The stream configurations of a device could not be listed.
#[derive(Debug, PartialEq, Eq)]
pub enum SupportedStreamConfigsError {
    BackendSpecific { err: BackendSpecificError },
}

/// There is no default stream configuration to be had.
#[derive(Debug, PartialEq, Eq)]
pub enum DefaultStreamConfigError {
    /// The device has no streams in this direction.
    StreamTypeNotSupported,
    BackendSpecific { err: BackendSpecificError },
}

/// A stream could not be built.
#[derive(Debug, PartialEq, Eq)]
pub enum BuildStreamError {
    /// The device cannot take the requested configuration.
    StreamConfigNotSupported,
    BackendSpecific { err: BackendSpecificError },
}

/// A stream could not be started.
#[derive(Debug, PartialEq, Eq)]
pub enum PlayStreamError {
    BackendSpecific { err: BackendSpecificError },
}

/// A stream could not be paused.
#[derive(Debug, PartialEq, Eq)]
pub enum PauseStreamError {
    BackendSpecific { err: BackendSpecificError },
}

/// Something went wrong while a stream was running.
#[derive(Debug, PartialEq, Eq)]
pub enum StreamError {
    BackendSpecific { err: BackendSpecificError },
}

impl DevicesError {
    /// The description that the error carries.
    pub open spec fn description(self) -> Seq<char> {
        match self {
            DevicesError::BackendSpecific { err } => err.description@,
        }
    }
}

impl StreamError {
    /// The description that the error carries.
    pub open spec fn description(self) -> Seq<char> {
        match self {
            StreamError::BackendSpecific { err } => err.description@,
        }
    }
}

} // verus!
