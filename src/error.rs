//! Errors reported by the capture device logic.
use vstd::prelude::*;

verus! {

/// The device setting that an operation read or wrote.
#[derive(Clone, Copy, Debug, PartialEq, Eq, Structural)]
pub enum DeviceProperty {
    Capabilities,
    ResolutionFrameFormat,
    Framerate,
    /// Restoring the previous resolution and encoding after a stream could not be opened.
    UndoResolutionFrameFormat,
    /// Restoring the previous framerate after a stream could not be opened.
    UndoFramerate,
}

pub open spec fn property_name_spec(p: DeviceProperty) -> Seq<char> {
    match p {
        DeviceProperty::Capabilities => "Capabilities"@,
        DeviceProperty::ResolutionFrameFormat => "Resolution, FrameFormat"@,
        DeviceProperty::Framerate => "Framerate"@,
        DeviceProperty::UndoResolutionFrameFormat =>
            "Attempt undo due to stream acquisition failure. Resolution, FrameFormat"@,
        DeviceProperty::UndoFramerate => "Attempt undo due to stream acquisition failure. Framerate"@,
    }
}

impl DeviceProperty {
    /// True for the writes made while undoing a configuration change.
    pub open spec fn is_undo_spec(self) -> bool {
        self is UndoResolutionFrameFormat || self is UndoFramerate
    }

    pub fn is_undo(&self) -> (r: bool)
        ensures
            r == self.is_undo_spec(),
    {
        match self {
            DeviceProperty::UndoResolutionFrameFormat | DeviceProperty::UndoFramerate => true,
            _ => false,
        }
    }

    /// The human-readable name of the property.
    pub fn name(&self) -> (r: String)
        ensures
            r@ == property_name_spec(*self),
    {
        match self {
            DeviceProperty::Capabilities => String::from_str("Capabilities"),
            DeviceProperty::ResolutionFrameFormat => String::from_str("Resolution, FrameFormat"),
            DeviceProperty::Framerate => String::from_str("Framerate"),
            DeviceProperty::UndoResolutionFrameFormat => String::from_str(
                "Attempt undo due to stream acquisition failure. Resolution, FrameFormat",
            ),
            DeviceProperty::UndoFramerate => String::from_str(
                "Attempt undo due to stream acquisition failure. Framerate",
            ),
        }
    }
}

/// What went wrong, with the text the operating system gave.
#[derive(Clone, Debug, PartialEq, Eq)]
pub enum NokhwaError {
    CouldntOpenDevice(String),
    CouldntQueryDevice { property: DeviceProperty, error: String },
    CouldntSetProperty { property: DeviceProperty, value: String, error: String },
    CouldntOpenStream(String),
}

} // verus!
