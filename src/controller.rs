//! The configuration transaction and stream lifecycle of one capture device.
//!
//! A [`CaptureController`] holds what the library knows of a device: the last
//! configuration it applied (or the pending one), whether a stream is open,
//! and the transaction in progress. Each operation starts by returning a
//! [`DeviceRequest`]; the caller performs it on the device and hands the
//! outcome back to [`CaptureController::step`], until a request says
//! `Finished`. `F` and `P` are the device's own descriptions of its current
//! format and framerate, read at the start of a transaction and written back
//! unchanged to undo it.
use vstd::prelude::*;

use crate::error::{DeviceProperty, NokhwaError};
use crate::format::{default_format_spec, CameraFormat, FrameFormat, Resolution};

verus! {

/// The device operation that the caller is asked to perform next.
pub enum DeviceRequest<F, P> {
    /// Read the current resolution and encoding.
    ReadFormat,
    /// Read the current framerate parameters.
    ReadFramerate,
    /// Set the resolution and encoding of this configuration.
    ApplyFormat(CameraFormat),
    /// Set this framerate.
    ApplyFramerate(u32),
    /// Create a stream for the device as it is now configured, replacing any
    /// stream that is open.
    OpenStream,
    /// Write back a format that was read earlier.
    RestoreFormat(F),
    /// Write back framerate parameters that were read earlier.
    RestoreFramerate(P),
    /// The operation is over. If the controller then reports no open stream,
    /// the caller drops the stream it holds.
    Finished(Result<(), NokhwaError>),
}

/// A write that the device refused: what was written, and the device's reason.
pub struct SetFailure {
    pub value: String,
    pub error: String,
}

/// The outcome of a [`DeviceRequest`].
pub enum DeviceReply<F, P> {
    FormatRead(Result<F, String>),
    FramerateRead(Result<P, String>),
    /// The outcome of `ApplyFormat`, `ApplyFramerate`, `RestoreFormat` or `RestoreFramerate`.
    Applied(Result<(), SetFailure>),
    StreamOpened(Result<(), String>),
}

/// Where a running operation stands.
pub enum Phase<F, P> {
    Idle,
    ReadingFormat { target: CameraFormat, with_stream: bool },
    ReadingFramerate { target: CameraFormat, with_stream: bool, prev_format: F },
    ApplyingFormat { target: CameraFormat, with_stream: bool, prev_format: F, prev_params: P },
    ApplyingFramerate { target: CameraFormat, with_stream: bool, prev_format: F, prev_params: P },
    OpeningStream { target: CameraFormat, prev_format: F, prev_params: P },
    RestoringFormat { prev_params: P, stream_error: String },
    RestoringFramerate { stream_error: String },
    /// Opening a stream on the configuration the device already has.
    OpeningCurrent,
}

impl<F, P> Phase<F, P> {
    /// The configuration that a transaction in this phase is applying.
    pub open spec fn target(self) -> Option<CameraFormat> {
        match self {
            Phase::ReadingFormat { target, .. } => Some(target),
            Phase::ReadingFramerate { target, .. } => Some(target),
            Phase::ApplyingFormat { target, .. } => Some(target),
            Phase::ApplyingFramerate { target, .. } => Some(target),
            Phase::OpeningStream { target, .. } => Some(target),
            _ => None,
        }
    }

    /// Whether the transaction in this phase ends by creating a stream.
    pub open spec fn with_stream(self) -> bool {
        match self {
            Phase::ReadingFormat { with_stream, .. } => with_stream,
            Phase::ReadingFramerate { with_stream, .. } => with_stream,
            Phase::ApplyingFormat { with_stream, .. } => with_stream,
            Phase::ApplyingFramerate { with_stream, .. } => with_stream,
            _ => true,
        }
    }

    /// Whether `reply` answers the request made on entering this phase.
    pub open spec fn accepts(self, reply: DeviceReply<F, P>) -> bool {
        match self {
            Phase::Idle => false,
            Phase::ReadingFormat { .. } => reply is FormatRead,
            Phase::ReadingFramerate { .. } => reply is FramerateRead,
            Phase::OpeningStream { .. } | Phase::OpeningCurrent => reply is StreamOpened,
            _ => reply is Applied,
        }
    }
}

/// The library's record of one capture device.
pub struct CaptureController<F, P> {
    /// The configuration last applied, or pending until the next apply.
    pub camera_format: Option<CameraFormat>,
    /// Whether the device is known to be configured as `camera_format` says.
    pub applied: bool,
    /// Whether a stream is open.
    pub stream_open: bool,
    /// The value of `camera_format` when the open stream was created.
    pub stream_format: Option<CameraFormat>,
    /// An undo failed: the device is in an unknown state, and only dropping
    /// it is left.
    pub faulted: bool,
    pub phase: Phase<F, P>,
}

/// `phase` put in place, the rest kept.
pub open spec fn with_phase<F, P>(c: CaptureController<F, P>, phase: Phase<F, P>) -> CaptureController<F, P> {
    CaptureController { phase, ..c }
}

/// The operation ends with `result`, nothing else changed.
pub open spec fn finish<F, P>(c: CaptureController<F, P>, result: Result<(), NokhwaError>) -> (
    CaptureController<F, P>,
    DeviceRequest<F, P>,
) {
    (CaptureController { phase: Phase::Idle, ..c }, DeviceRequest::Finished(result))
}

/// The device now runs `target`, with a fresh stream if `with_stream`.
pub open spec fn commit<F, P>(c: CaptureController<F, P>, target: CameraFormat, with_stream: bool) -> (
    CaptureController<F, P>,
    DeviceRequest<F, P>,
) {
    (
        CaptureController {
            camera_format: Some(target),
            applied: true,
            stream_open: with_stream,
            stream_format: if with_stream { Some(target) } else { c.stream_format },
            faulted: false,
            phase: Phase::Idle,
        },
        DeviceRequest::Finished(Ok(())),
    )
}

/// An undo failed: the stream is gone and the device is in an unknown state.
pub open spec fn fault<F, P>(c: CaptureController<F, P>, property: DeviceProperty, f: SetFailure) -> (
    CaptureController<F, P>,
    DeviceRequest<F, P>,
) {
    (
        CaptureController { stream_open: false, faulted: true, phase: Phase::Idle, ..c },
        DeviceRequest::Finished(
            Err(NokhwaError::CouldntSetProperty { property, value: f.value, error: f.error }),
        ),
    )
}

/// The operation that begins a transaction applying `target`.
pub open spec fn begin<F, P>(c: CaptureController<F, P>, target: CameraFormat, with_stream: bool) -> (
    CaptureController<F, P>,
    DeviceRequest<F, P>,
) {
    (with_phase(c, Phase::ReadingFormat { target, with_stream }), DeviceRequest::ReadFormat)
}

/// `set_camera_format`: apply `fmt` as one transaction, recreating the stream
/// if one is open.
pub open spec fn set_camera_format_spec<F, P>(c: CaptureController<F, P>, fmt: CameraFormat) -> (
    CaptureController<F, P>,
    DeviceRequest<F, P>,
) {
    begin(c, fmt, c.stream_open)
}

/// `init_camera_format_default`: apply the default configuration, unless one
/// is already recorded and `overwrite` is false.
pub open spec fn init_default_spec<F, P>(c: CaptureController<F, P>, overwrite: bool) -> (
    CaptureController<F, P>,
    DeviceRequest<F, P>,
) {
    if c.camera_format is Some && !overwrite {
        (c, DeviceRequest::Finished(Ok(())))
    } else {
        set_camera_format_spec(c, default_format_spec())
    }
}

/// A change of one field: applied through a transaction where a configuration
/// is recorded, else recorded as pending, starting from `fresh`.
pub open spec fn change_spec<F, P>(
    c: CaptureController<F, P>,
    changed: CameraFormat,
    fresh: CameraFormat,
) -> (CaptureController<F, P>, DeviceRequest<F, P>) {
    if c.camera_format is Some {
        set_camera_format_spec(c, changed)
    } else {
        (CaptureController { camera_format: Some(fresh), ..c }, DeviceRequest::Finished(Ok(())))
    }
}

/// `open_stream`: a pending configuration is applied first, in the same
/// transaction that creates the stream.
pub open spec fn open_stream_spec<F, P>(c: CaptureController<F, P>) -> (
    CaptureController<F, P>,
    DeviceRequest<F, P>,
) {
    if c.stream_open {
        (c, DeviceRequest::Finished(Ok(())))
    } else if c.camera_format is Some && !c.applied {
        begin(c, c.camera_format.unwrap(), true)
    } else {
        (with_phase(c, Phase::OpeningCurrent), DeviceRequest::OpenStream)
    }
}

impl<F, P> CaptureController<F, P> {
    /// The record's invariant. A stream opened on the configuration now
    /// applied was created for that configuration; a transaction that leaves
    /// a stream open creates it anew.
    pub open spec fn wf(self) -> bool {
        &&& (self.camera_format is None ==> !self.applied)
        &&& (self.stream_open && self.applied ==> self.stream_format == self.camera_format)
        &&& (self.stream_open ==> self.phase.with_stream())
        &&& (!(self.phase is Idle) ==> !self.faulted)
    }

    /// Whether a new operation may start.
    pub open spec fn ready(self) -> bool {
        self.wf() && self.phase is Idle && !self.faulted
    }

    /// The effect of one reply: the next record and the next request.
    pub open spec fn next(self, reply: DeviceReply<F, P>) -> (Self, DeviceRequest<F, P>) {
        match self.phase {
            Phase::ReadingFormat { target, with_stream } => match reply {
                DeviceReply::FormatRead(Ok(prev_format)) => (
                    with_phase(self, Phase::ReadingFramerate { target, with_stream, prev_format }),
                    DeviceRequest::ReadFramerate,
                ),
                DeviceReply::FormatRead(Err(error)) => finish(
                    self,
                    Err(
                        NokhwaError::CouldntQueryDevice {
                            property: DeviceProperty::ResolutionFrameFormat,
                            error,
                        },
                    ),
                ),
                _ => (self, DeviceRequest::Finished(Ok(()))),
            },
            Phase::ReadingFramerate { target, with_stream, prev_format } => match reply {
                DeviceReply::FramerateRead(Ok(prev_params)) => (
                    with_phase(
                        self,
                        Phase::ApplyingFormat { target, with_stream, prev_format, prev_params },
                    ),
                    DeviceRequest::ApplyFormat(target),
                ),
                DeviceReply::FramerateRead(Err(error)) => finish(
                    self,
                    Err(
                        NokhwaError::CouldntQueryDevice { property: DeviceProperty::Framerate, error },
                    ),
                ),
                _ => (self, DeviceRequest::Finished(Ok(()))),
            },
            Phase::ApplyingFormat { target, with_stream, prev_format, prev_params } => match reply {
                DeviceReply::Applied(Ok(())) => (
                    with_phase(
                        self,
                        Phase::ApplyingFramerate { target, with_stream, prev_format, prev_params },
                    ),
                    DeviceRequest::ApplyFramerate(target.framerate),
                ),
                DeviceReply::Applied(Err(f)) => finish(
                    self,
                    Err(
                        NokhwaError::CouldntSetProperty {
                            property: DeviceProperty::ResolutionFrameFormat,
                            value: f.value,
                            error: f.error,
                        },
                    ),
                ),
                _ => (self, DeviceRequest::Finished(Ok(()))),
            },
            Phase::ApplyingFramerate { target, with_stream, prev_format, prev_params } => match reply {
                DeviceReply::Applied(Ok(())) => if with_stream {
                    (
                        with_phase(self, Phase::OpeningStream { target, prev_format, prev_params }),
                        DeviceRequest::OpenStream,
                    )
                } else {
                    commit(self, target, false)
                },
                DeviceReply::Applied(Err(f)) => finish(
                    CaptureController { applied: false, ..self },
                    Err(
                        NokhwaError::CouldntSetProperty {
                            property: DeviceProperty::Framerate,
                            value: f.value,
                            error: f.error,
                        },
                    ),
                ),
                _ => (self, DeviceRequest::Finished(Ok(()))),
            },
            Phase::OpeningStream { target, prev_format, prev_params } => match reply {
                DeviceReply::StreamOpened(Ok(())) => commit(self, target, true),
                DeviceReply::StreamOpened(Err(stream_error)) => (
                    with_phase(self, Phase::RestoringFormat { prev_params, stream_error }),
                    DeviceRequest::RestoreFormat(prev_format),
                ),
                _ => (self, DeviceRequest::Finished(Ok(()))),
            },
            Phase::RestoringFormat { prev_params, stream_error } => match reply {
                DeviceReply::Applied(Ok(())) => (
                    with_phase(self, Phase::RestoringFramerate { stream_error }),
                    DeviceRequest::RestoreFramerate(prev_params),
                ),
                DeviceReply::Applied(Err(f)) => fault(
                    self,
                    DeviceProperty::UndoResolutionFrameFormat,
                    f,
                ),
                _ => (self, DeviceRequest::Finished(Ok(()))),
            },
            Phase::RestoringFramerate { stream_error } => match reply {
                DeviceReply::Applied(Ok(())) => finish(
                    CaptureController { stream_open: false, ..self },
                    Err(NokhwaError::CouldntOpenStream(stream_error)),
                ),
                DeviceReply::Applied(Err(f)) => fault(self, DeviceProperty::UndoFramerate, f),
                _ => (self, DeviceRequest::Finished(Ok(()))),
            },
            Phase::OpeningCurrent => match reply {
                DeviceReply::StreamOpened(Ok(())) => finish(
                    CaptureController {
                        stream_open: true,
                        stream_format: self.camera_format,
                        ..self
                    },
                    Ok(()),
                ),
                DeviceReply::StreamOpened(Err(error)) => finish(
                    self,
                    Err(NokhwaError::CouldntOpenStream(error)),
                ),
                _ => (self, DeviceRequest::Finished(Ok(()))),
            },
            Phase::Idle => (self, DeviceRequest::Finished(Ok(()))),
        }
    }
}

impl<F, P> CaptureController<F, P> {
    /// A device that has been opened and not yet configured.
    pub fn new() -> (r: Self)
        ensures
            r.ready(),
            r.camera_format is None,
            !r.applied,
            !r.stream_open,
    {
        CaptureController {
            camera_format: None,
            applied: false,
            stream_open: false,
            stream_format: None,
            faulted: false,
            phase: Phase::Idle,
        }
    }

    /// Starts applying `fmt`. The device's current format and framerate are
    /// read first and kept; if a stream is open it is recreated for `fmt`, and
    /// if that fails they are written back. A failure to set the framerate
    /// after the format was set is reported and not undone: the recorded
    /// configuration is then no longer marked as applied.
    pub fn set_camera_format(&mut self, fmt: CameraFormat) -> (r: DeviceRequest<F, P>)
        requires
            old(self).ready(),
        ensures
            (*final(self), r) == set_camera_format_spec(*old(self), fmt),
            final(self).wf(),
    {
        let with_stream = self.stream_open;
        self.phase = Phase::ReadingFormat { target: fmt, with_stream };
        DeviceRequest::ReadFormat
    }

    /// Applies the default configuration if none is recorded, or if
    /// `overwrite` is set; otherwise does nothing.
    pub fn init_camera_format_default(&mut self, overwrite: bool) -> (r: DeviceRequest<F, P>)
        requires
            old(self).ready(),
        ensures
            (*final(self), r) == init_default_spec(*old(self), overwrite),
            final(self).wf(),
            old(self).camera_format is Some && !overwrite ==> *final(self) == *old(self)
                && r == DeviceRequest::<F, P>::Finished(Ok(())),
    {
        if self.camera_format.is_some() && !overwrite {
            DeviceRequest::Finished(Ok(()))
        } else {
            self.set_camera_format(CameraFormat::default_format())
        }
    }

    /// Changes the resolution. With no configuration recorded yet, records
    /// one of this resolution, MJPEG and framerate 0, and asks nothing of the
    /// device.
    pub fn set_resolution(&mut self, resolution: Resolution) -> (r: DeviceRequest<F, P>)
        requires
            old(self).ready(),
        ensures
            (*final(self), r) == change_spec(
                *old(self),
                CameraFormat { resolution, ..old(self).camera_format.unwrap() },
                CameraFormat { resolution, format: FrameFormat::MJPEG, framerate: 0 },
            ),
            final(self).wf(),
            old(self).camera_format is None ==> r == DeviceRequest::<F, P>::Finished(Ok(()))
                && final(self).camera_format == Some(
                CameraFormat { resolution, format: FrameFormat::MJPEG, framerate: 0 },
            ),
    {
        match self.camera_format {
            Some(fmt) => {
                let mut new_fmt = fmt;
                new_fmt.set_resolution(resolution);
                self.set_camera_format(new_fmt)
            },
            None => {
                self.camera_format = Some(CameraFormat::new(resolution, FrameFormat::MJPEG, 0));
                DeviceRequest::Finished(Ok(()))
            },
        }
    }

    /// Changes the framerate. With no configuration recorded yet, records one
    /// of resolution 0x0, MJPEG and this framerate, and asks nothing of the
    /// device.
    pub fn set_framerate(&mut self, framerate: u32) -> (r: DeviceRequest<F, P>)
        requires
            old(self).ready(),
        ensures
            (*final(self), r) == change_spec(
                *old(self),
                CameraFormat { framerate, ..old(self).camera_format.unwrap() },
                CameraFormat {
                    resolution: Resolution { width_x: 0, height_y: 0 },
                    format: FrameFormat::MJPEG,
                    framerate,
                },
            ),
            final(self).wf(),
            old(self).camera_format is None ==> r == DeviceRequest::<F, P>::Finished(Ok(()))
                && final(self).camera_format == Some(
                CameraFormat {
                    resolution: Resolution { width_x: 0, height_y: 0 },
                    format: FrameFormat::MJPEG,
                    framerate,
                },
            ),
    {
        match self.camera_format {
            Some(fmt) => {
                let mut new_fmt = fmt;
                new_fmt.set_framerate(framerate);
                self.set_camera_format(new_fmt)
            },
            None => {
                self.camera_format = Some(
                    CameraFormat::new(Resolution::new(0, 0), FrameFormat::MJPEG, framerate),
                );
                DeviceRequest::Finished(Ok(()))
            },
        }
    }

    /// Changes the encoding. With no configuration recorded yet, records one
    /// of resolution 0x0, this encoding and framerate 0, and asks nothing of
    /// the device.
    pub fn set_frameformat(&mut self, format: FrameFormat) -> (r: DeviceRequest<F, P>)
        requires
            old(self).ready(),
        ensures
            (*final(self), r) == change_spec(
                *old(self),
                CameraFormat { format, ..old(self).camera_format.unwrap() },
                CameraFormat {
                    resolution: Resolution { width_x: 0, height_y: 0 },
                    format,
                    framerate: 0,
                },
            ),
            final(self).wf(),
            old(self).camera_format is None ==> r == DeviceRequest::<F, P>::Finished(Ok(()))
                && final(self).camera_format == Some(
                CameraFormat {
                    resolution: Resolution { width_x: 0, height_y: 0 },
                    format,
                    framerate: 0,
                },
            ),
    {
        match self.camera_format {
            Some(fmt) => {
                let mut new_fmt = fmt;
                new_fmt.set_format(format);
                self.set_camera_format(new_fmt)
            },
            None => {
                self.camera_format = Some(CameraFormat::new(Resolution::new(0, 0), format, 0));
                DeviceRequest::Finished(Ok(()))
            },
        }
    }

    /// Starts streaming. A pending configuration is applied first; if the
    /// stream then cannot be created, the device's previous configuration is
    /// written back.
    pub fn open_stream(&mut self) -> (r: DeviceRequest<F, P>)
        requires
            old(self).ready(),
        ensures
            (*final(self), r) == open_stream_spec(*old(self)),
            final(self).wf(),
    {
        if self.stream_open {
            DeviceRequest::Finished(Ok(()))
        } else {
            match self.camera_format {
                Some(fmt) => {
                    if !self.applied {
                        self.phase = Phase::ReadingFormat { target: fmt, with_stream: true };
                        DeviceRequest::ReadFormat
                    } else {
                        self.phase = Phase::OpeningCurrent;
                        DeviceRequest::OpenStream
                    }
                },
                None => {
                    self.phase = Phase::OpeningCurrent;
                    DeviceRequest::OpenStream
                },
            }
        }
    }

    /// Stops streaming: the caller drops its stream.
    pub fn stop_stream(&mut self)
        requires
            old(self).ready(),
        ensures
            *final(self) == (CaptureController { stream_open: false, ..*old(self) }),
            final(self).ready(),
    {
        self.stream_open = false;
    }

    pub fn get_camera_format(&self) -> (r: Option<CameraFormat>)
        ensures
            r == self.camera_format,
    {
        self.camera_format
    }

    pub fn get_resolution(&self) -> (r: Option<Resolution>)
        ensures
            r == match self.camera_format {
                Some(f) => Some(f.resolution),
                None => None::<Resolution>,
            },
    {
        match self.camera_format {
            Some(f) => Some(f.resolution()),
            None => None,
        }
    }

    pub fn get_framerate(&self) -> (r: Option<u32>)
        ensures
            r == match self.camera_format {
                Some(f) => Some(f.framerate),
                None => None::<u32>,
            },
    {
        match self.camera_format {
            Some(f) => Some(f.framerate()),
            None => None,
        }
    }

    pub fn get_frameformat(&self) -> (r: Option<FrameFormat>)
        ensures
            r == match self.camera_format {
                Some(f) => Some(f.format),
                None => None::<FrameFormat>,
            },
    {
        match self.camera_format {
            Some(f) => Some(f.format()),
            None => None,
        }
    }

    pub fn is_stream_open(&self) -> (r: bool)
        ensures
            r == self.stream_open,
    {
        self.stream_open
    }

    /// Whether an undo failed, leaving the device in an unknown state.
    pub fn is_faulted(&self) -> (r: bool)
        ensures
            r == self.faulted,
    {
        self.faulted
    }

    /// Whether no operation is running.
    pub fn is_idle(&self) -> (r: bool)
        ensures
            r == (self.phase is Idle),
    {
        match self.phase {
            Phase::Idle => true,
            _ => false,
        }
    }

    /// Takes in the outcome of the last request and says what to do next.
    pub fn step(&mut self, reply: DeviceReply<F, P>) -> (r: DeviceRequest<F, P>)
        requires
            old(self).wf(),
            old(self).phase.accepts(reply),
        ensures
            (*final(self), r) == old(self).next(reply),
            final(self).wf(),
    {
        let mut phase = Phase::Idle;
        core::mem::swap(&mut phase, &mut self.phase);
        match phase {
            Phase::ReadingFormat { target, with_stream } => match reply {
                DeviceReply::FormatRead(Ok(prev_format)) => {
                    self.phase = Phase::ReadingFramerate { target, with_stream, prev_format };
                    DeviceRequest::ReadFramerate
                },
                DeviceReply::FormatRead(Err(error)) => DeviceRequest::Finished(
                    Err(
                        NokhwaError::CouldntQueryDevice {
                            property: DeviceProperty::ResolutionFrameFormat,
                            error,
                        },
                    ),
                ),
                _ => vstd::pervasive::unreached(),
            },
            Phase::ReadingFramerate { target, with_stream, prev_format } => match reply {
                DeviceReply::FramerateRead(Ok(prev_params)) => {
                    self.phase = Phase::ApplyingFormat { target, with_stream, prev_format, prev_params };
                    DeviceRequest::ApplyFormat(target)
                },
                DeviceReply::FramerateRead(Err(error)) => DeviceRequest::Finished(
                    Err(
                        NokhwaError::CouldntQueryDevice { property: DeviceProperty::Framerate, error },
                    ),
                ),
                _ => vstd::pervasive::unreached(),
            },
            Phase::ApplyingFormat { target, with_stream, prev_format, prev_params } => match reply {
                DeviceReply::Applied(Ok(())) => {
                    self.phase = Phase::ApplyingFramerate { target, with_stream, prev_format, prev_params };
                    DeviceRequest::ApplyFramerate(target.framerate)
                },
                DeviceReply::Applied(Err(f)) => DeviceRequest::Finished(
                    Err(
                        NokhwaError::CouldntSetProperty {
                            property: DeviceProperty::ResolutionFrameFormat,
                            value: f.value,
                            error: f.error,
                        },
                    ),
                ),
                _ => vstd::pervasive::unreached(),
            },
            Phase::ApplyingFramerate { target, with_stream, prev_format, prev_params } => match reply {
                DeviceReply::Applied(Ok(())) => {
                    if with_stream {
                        self.phase = Phase::OpeningStream { target, prev_format, prev_params };
                        DeviceRequest::OpenStream
                    } else {
                        self.camera_format = Some(target);
                        self.applied = true;
                        self.stream_open = false;
                        DeviceRequest::Finished(Ok(()))
                    }
                },
                DeviceReply::Applied(Err(f)) => {
                    self.applied = false;
                    DeviceRequest::Finished(
                        Err(
                            NokhwaError::CouldntSetProperty {
                                property: DeviceProperty::Framerate,
                                value: f.value,
                                error: f.error,
                            },
                        ),
                    )
                },
                _ => vstd::pervasive::unreached(),
            },
            Phase::OpeningStream { target, prev_format, prev_params } => match reply {
                DeviceReply::StreamOpened(Ok(())) => {
                    self.camera_format = Some(target);
                    self.applied = true;
                    self.stream_open = true;
                    self.stream_format = Some(target);
                    DeviceRequest::Finished(Ok(()))
                },
                DeviceReply::StreamOpened(Err(stream_error)) => {
                    self.phase = Phase::RestoringFormat { prev_params, stream_error };
                    DeviceRequest::RestoreFormat(prev_format)
                },
                _ => vstd::pervasive::unreached(),
            },
            Phase::RestoringFormat { prev_params, stream_error } => match reply {
                DeviceReply::Applied(Ok(())) => {
                    self.phase = Phase::RestoringFramerate { stream_error };
                    DeviceRequest::RestoreFramerate(prev_params)
                },
                DeviceReply::Applied(Err(f)) => {
                    self.stream_open = false;
                    self.faulted = true;
                    DeviceRequest::Finished(
                        Err(
                            NokhwaError::CouldntSetProperty {
                                property: DeviceProperty::UndoResolutionFrameFormat,
                                value: f.value,
                                error: f.error,
                            },
                        ),
                    )
                },
                _ => vstd::pervasive::unreached(),
            },
            Phase::RestoringFramerate { stream_error } => match reply {
                DeviceReply::Applied(Ok(())) => {
                    self.stream_open = false;
                    DeviceRequest::Finished(Err(NokhwaError::CouldntOpenStream(stream_error)))
                },
                DeviceReply::Applied(Err(f)) => {
                    self.stream_open = false;
                    self.faulted = true;
                    DeviceRequest::Finished(
                        Err(
                            NokhwaError::CouldntSetProperty {
                                property: DeviceProperty::UndoFramerate,
                                value: f.value,
                                error: f.error,
                            },
                        ),
                    )
                },
                _ => vstd::pervasive::unreached(),
            },
            Phase::OpeningCurrent => match reply {
                DeviceReply::StreamOpened(Ok(())) => {
                    self.stream_open = true;
                    self.stream_format = self.camera_format;
                    DeviceRequest::Finished(Ok(()))
                },
                DeviceReply::StreamOpened(Err(error)) => DeviceRequest::Finished(
                    Err(NokhwaError::CouldntOpenStream(error)),
                ),
                _ => vstd::pervasive::unreached(),
            },
            Phase::Idle => vstd::pervasive::unreached(),
        }
    }
}

} // verus!
