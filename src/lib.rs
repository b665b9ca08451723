//! Format negotiation and stream lifecycle for a single video capture device.
//!
//! The library decides; the caller performs the device operations it asks for
//! and reports what came back.
use vstd::prelude::*;

pub mod controller;
pub mod error;
pub mod format;
pub mod info;
pub mod laws;

pub use controller::{CaptureController, DeviceReply, DeviceRequest, Phase, SetFailure};
pub use error::{DeviceProperty, NokhwaError};
pub use format::{CameraFormat, FrameFormat, Resolution};
pub use info::CameraInfo;

verus! {

} // verus!
