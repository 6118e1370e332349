//! The platforms the service runs on.

use vstd::prelude::*;

verus! {

/// Where audio is captured through the operating system's device interface.
#[derive(Clone, Copy, Debug, PartialEq, Eq, Structural)]
pub enum CpalTarget {
    Windows,
    ScreenCaptureKit,
    Other,
}

/// Where audio comes from the system's audio service as raw packets.
#[derive(Clone, Copy, Debug, PartialEq, Eq, Structural)]
pub enum PaTarget {
    Linux,
    Android,
}

/// Where the service runs.
#[derive(Clone, Copy, Debug, PartialEq, Eq, Structural)]
pub enum Target {
    Pa(PaTarget),
    Cpal(CpalTarget),
}

} // verus!
