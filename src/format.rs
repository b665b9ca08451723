//! The value types that describe a capture configuration.
use vstd::prelude::*;

verus! {

/// A pixel encoding that the device can be asked to produce.
#[derive(Clone, Copy, Debug, PartialEq, Eq, Structural)]
pub enum FrameFormat {
    MJPEG,
    YUYV,
}

/// The four-character code that the video subsystem uses for an encoding
/// ("MJPG" and "YUYV" in ASCII).
pub open spec fn fourcc_spec(f: FrameFormat) -> Seq<u8> {
    match f {
        FrameFormat::MJPEG => seq![77u8, 74, 80, 71],
        FrameFormat::YUYV => seq![89u8, 85, 89, 86],
    }
}

impl FrameFormat {
    /// The native four-character code of this encoding.
    pub fn fourcc(&self) -> (r: [u8; 4])
        ensures
            r@ == fourcc_spec(*self),
    {
        let r: [u8; 4] = match self {
            FrameFormat::MJPEG => [77u8, 74, 80, 71],
            FrameFormat::YUYV => [89u8, 85, 89, 86],
        };
        assert(r@ =~= fourcc_spec(*self));
        r
    }
}

/// A frame size in pixels.
#[derive(Clone, Copy, Debug, PartialEq, Eq, Structural)]
pub struct Resolution {
    pub width_x: u32,
    pub height_y: u32,
}

impl Resolution {
    pub fn new(width_x: u32, height_y: u32) -> (r: Resolution)
        ensures
            r.width_x == width_x,
            r.height_y == height_y,
    {
        Resolution { width_x, height_y }
    }

    pub fn width(&self) -> (r: u32)
        ensures
            r == self.width_x,
    {
        self.width_x
    }

    pub fn height(&self) -> (r: u32)
        ensures
            r == self.height_y,
    {
        self.height_y
    }
}

/// A requested capture configuration. It says nothing of what the hardware
/// supports: that is learned only when it is applied to a device.
#[derive(Clone, Copy, Debug, PartialEq, Eq, Structural)]
pub struct CameraFormat {
    pub resolution: Resolution,
    pub format: FrameFormat,
    /// Frames per second; `0` stands for "not set yet".
    pub framerate: u32,
}

/// The configuration applied when none has been chosen.
pub open spec fn default_format_spec() -> CameraFormat {
    CameraFormat {
        resolution: Resolution { width_x: 640, height_y: 480 },
        format: FrameFormat::MJPEG,
        framerate: 15,
    }
}

impl CameraFormat {
    pub fn new(resolution: Resolution, format: FrameFormat, framerate: u32) -> (r: CameraFormat)
        ensures
            r == (CameraFormat { resolution, format, framerate }),
    {
        CameraFormat { resolution, format, framerate }
    }

    /// The system default: 640x480, MJPEG, 15 frames per second.
    pub fn default_format() -> (r: CameraFormat)
        ensures
            r == default_format_spec(),
            r.framerate > 0,
    {
        CameraFormat::new(Resolution::new(640, 480), FrameFormat::MJPEG, 15)
    }

    pub fn resolution(&self) -> (r: Resolution)
        ensures
            r == self.resolution,
    {
        self.resolution
    }

    pub fn width(&self) -> (r: u32)
        ensures
            r == self.resolution.width_x,
    {
        self.resolution.width_x
    }

    pub fn height(&self) -> (r: u32)
        ensures
            r == self.resolution.height_y,
    {
        self.resolution.height_y
    }

    pub fn format(&self) -> (r: FrameFormat)
        ensures
            r == self.format,
    {
        self.format
    }

    pub fn framerate(&self) -> (r: u32)
        ensures
            r == self.framerate,
    {
        self.framerate
    }

    pub fn set_resolution(&mut self, resolution: Resolution)
        ensures
            *final(self) == (CameraFormat { resolution, ..*old(self) }),
    {
        self.resolution = resolution;
    }

    pub fn set_format(&mut self, format: FrameFormat)
        ensures
            *final(self) == (CameraFormat { format, ..*old(self) }),
    {
        self.format = format;
    }

    pub fn set_framerate(&mut self, framerate: u32)
        ensures
            *final(self) == (CameraFormat { framerate, ..*old(self) }),
    {
        self.framerate = framerate;
    }
}

impl Default for CameraFormat {
    fn default() -> (r: CameraFormat)
        ensures
            r == default_format_spec(),
    {
        CameraFormat::default_format()
    }
}

} // verus!
