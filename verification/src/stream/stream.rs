use crate::format::Format;
use crate::frames::Frames;
use crate::frames::FramesMut;
use vstd::prelude::*;

verus! {

/// Whether `callback` can be called on any pair of views of `format` and
/// `channels`.
pub open spec fn accepts_frames<F: Fn(&Frames, FramesMut)>(
    callback: F,
    format: Format,
    channels: nat,
) -> bool {
    forall|input: Frames, output: FramesMut|
        {
            &&& input.well_formed()
            &&& input@.format == format
            &&& input@.channels == channels
            &&& output.well_formed()
            &&& output@.format == format
            &&& output@.channels == channels
        } ==> #[trigger] call_requires(callback, (&input, output))
}

/// Which handles of a stream are to be handed back to the engine, now that
/// the stream has let go of them.
#[derive(Debug, Clone, Copy, PartialEq, Eq, Structural)]
pub struct Released {
    /// The handle of the file that the source reads.
    pub source: bool,
    /// The handle of the file that the sink writes.
    pub sink: bool,
    /// The handle of the device.
    pub device: bool,
}

/// A source and a sink of frames with a transform between them, which is
/// the logic of the stream's user.
pub trait Stream {
    type Error;

    /// The transform that the stream calls for each period.
    type Callback;

    /// Whether the stream is as its constructor and its methods leave it.
    spec fn well_formed(&self) -> bool;

    /// Whether `callback` can be called on the views that this stream makes.
    spec fn accepts(&self, callback: Self::Callback) -> bool;

    /// Whether periods reach the transform.
    spec fn running(&self) -> bool;

    /// Arms the stream: from now on each period reaches `callback`.
    fn start(&mut self, callback: Self::Callback) -> (result: Result<(), Self::Error>)
        requires
            old(self).well_formed(),
            old(self).accepts(callback),
        ensures
            final(self).well_formed(),
            result is Ok ==> final(self).running(),
            result is Err ==> final(self).running() == old(self).running(),
    ;

    /// Disarms the stream: from now on no period reaches the transform. The
    /// source and the sink stay open.
    fn stop(&mut self) -> (result: Result<(), Self::Error>)
        requires
            old(self).well_formed(),
        ensures
            final(self).well_formed(),
            !final(self).running(),
    ;
}

} // verus!
