//! Properties of the configuration transaction, proved over the controller's
//! transition function.
use vstd::prelude::*;

use crate::controller::{
    set_camera_format_spec, CaptureController, DeviceReply, DeviceRequest, SetFailure,
};
use crate::error::NokhwaError;
use crate::format::CameraFormat;

verus! {

/// How one reply ends a transaction. If it finishes with success, the
/// recorded configuration becomes the one the transaction applied; if a stream
/// was open, it is now open again and was created for that configuration. If
/// it finishes with a failure, the recorded configuration is unchanged. While
/// it runs, the recorded configuration is unchanged too.
pub proof fn lemma_transaction_outcome<F, P>(c: CaptureController<F, P>, reply: DeviceReply<F, P>)
    requires
        c.wf(),
        c.phase.accepts(reply),
        c.phase.target() is Some,
    ensures
        ({
            let (d, q) = c.next(reply);
            &&& q == DeviceRequest::<F, P>::Finished(Ok(())) ==> {
                &&& d.camera_format == c.phase.target()
                &&& d.applied
                &&& c.stream_open ==> d.stream_open && d.stream_format == c.phase.target()
            }
            &&& (q is Finished && q->Finished_0 is Err) ==> d.camera_format == c.camera_format
            &&& !(q is Finished) ==> d.camera_format == c.camera_format && !(d.phase is Idle)
            &&& d.wf()
        }),
{
}

/// Undo after a failed stream. The device is configured and streaming; its
/// format reads `prev_format` and its framerate `prev_params`. A transaction
/// to `fmt` whose writes succeed but whose new stream cannot be created writes
/// back exactly the values it read, reports the stream failure, keeps the
/// recorded configuration, and leaves the stream closed.
pub proof fn lemma_rollback_restores_previous<F, P>(
    c: CaptureController<F, P>,
    fmt: CameraFormat,
    prev_format: F,
    prev_params: P,
    stream_error: String,
)
    requires
        c.ready(),
        c.stream_open,
    ensures
        ({
            let (c1, q1) = set_camera_format_spec(c, fmt);
            let (c2, q2) = c1.next(DeviceReply::FormatRead(Ok(prev_format)));
            let (c3, q3) = c2.next(DeviceReply::FramerateRead(Ok(prev_params)));
            let (c4, q4) = c3.next(DeviceReply::Applied(Ok(())));
            let (c5, q5) = c4.next(DeviceReply::Applied(Ok(())));
            let (c6, q6) = c5.next(DeviceReply::StreamOpened(Err(stream_error)));
            let (c7, q7) = c6.next(DeviceReply::Applied(Ok(())));
            let (c8, q8) = c7.next(DeviceReply::Applied(Ok(())));
            &&& q1 is ReadFormat
            &&& q2 is ReadFramerate
            &&& q3 == DeviceRequest::<F, P>::ApplyFormat(fmt)
            &&& q4 == DeviceRequest::<F, P>::ApplyFramerate(fmt.framerate)
            &&& q5 is OpenStream
            &&& q6 == DeviceRequest::<F, P>::RestoreFormat(prev_format)
            &&& q7 == DeviceRequest::<F, P>::RestoreFramerate(prev_params)
            &&& q8 == DeviceRequest::<F, P>::Finished(
                Err(NokhwaError::CouldntOpenStream(stream_error)),
            )
            &&& c8.camera_format == c.camera_format
            &&& c8.applied == c.applied
            &&& !c8.stream_open
            &&& c8.ready()
        }),
{
}

/// A failed undo is terminal: it reports the write that failed, marked as an
/// undo, and no further operation may start.
pub proof fn lemma_failed_undo_faults<F, P>(c: CaptureController<F, P>, failure: SetFailure)
    requires
        c.wf(),
        c.phase is RestoringFormat || c.phase is RestoringFramerate,
    ensures
        ({
            let (d, q) = c.next(DeviceReply::Applied(Err(failure)));
            &&& d.faulted
            &&& !d.stream_open
            &&& !d.ready()
            &&& q is Finished
            &&& q->Finished_0 is Err
            &&& q->Finished_0->Err_0 is CouldntSetProperty
            &&& q->Finished_0->Err_0->CouldntSetProperty_property.is_undo_spec()
        }),
{
}

} // verus!
