//! The host.
use vstd::prelude::*;

use crate::device::Device;
use crate::devices::{DeviceScan, Devices};
use crate::error::HostUnavailable;

verus! {

/// The illumos audio host.
#[derive(Debug)]
pub struct Host;

/// The default device: the one behind `/dev/dsp`, of which nothing is known.
pub open spec fn is_default_device(device: Device) -> bool {
    device.devnode@ == "/dev/dsp"@ && device.info is None
}

impl Host {
    /// The host. It can always be had.
    pub fn new() -> (host: Result<Host, HostUnavailable>)
        ensures
            host == Ok::<Host, HostUnavailable>(Host),
    {
        Ok(Host)
    }

    /// Whether the host can be used: always.
    pub fn is_available() -> (b: bool)
        ensures
            b,
    {
        true
    }

    /// Starts to list the devices.
    pub fn devices(&self) -> (scan: DeviceScan)
        ensures
            scan.valid(),
            scan@ == crate::devices::Scan::start(),
    {
        Devices::new()
    }

    /// The default device for input streams.
    pub fn default_input_device(&self) -> (device: Option<Device>)
        ensures
            device matches Some(d) && is_default_device(d),
            device matches Some(d) && d.devnode@ == "/dev/dsp"@ && d.info is None,
    {
        Some(Device { devnode: "/dev/dsp".to_owned(), info: None })
    }

    /// The default device for output streams.
    pub fn default_output_device(&self) -> (device: Option<Device>)
        ensures
            device matches Some(d) && is_default_device(d),
            device matches Some(d) && d.devnode@ == "/dev/dsp"@ && d.info is None,
    {
        Some(Device { devnode: "/dev/dsp".to_owned(), info: None })
    }
}

} // verus!
