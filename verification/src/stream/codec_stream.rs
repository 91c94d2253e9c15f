use crate::decoder::Decoder;
use crate::decoder::DecoderView;
use crate::encoder::Encoder;
use crate::encoder::EncoderConfig;
use crate::encoder::EncoderConfigView;
use crate::encoder::EncoderError;
use crate::encoder::EncoderView;
use crate::encoder::EncodingFormat;
use crate::format::Format;
use crate::frames::frame_width;
use crate::frames::lemma_whole_frames;
use crate::frames::Frames;
use crate::frames::FramesMut;
use crate::frames::FramesView;
use crate::miniaudio_error::MiniaudioError;
use crate::stream::stream::accepts_frames;
use crate::stream::stream::Released;
use crate::stream::stream::Stream;
use vstd::prelude::*;
use vstd::slice::slice_subrange;

verus! {

/// Why an operation on a stream between two files did not succeed.
#[derive(Debug, Clone, Copy, PartialEq, Eq, Structural)]
pub enum Error {
    /// Reading from the source failed.
    DecoderError(crate::decoder::Error),
    /// Writing to the sink failed.
    EncoderError(EncoderError),
    /// The sink does not take frames of the source's format, channel count
    /// and rate.
    Mismatch,
    /// The period has no frame, or more than the machine can hold.
    InvalidPeriod,
    /// The stream is running, and was asked to start.
    AlreadyStarted,
    /// The stream is not at the step that was asked for.
    OutOfStep,
}

impl From<crate::decoder::Error> for Error {
    fn from(cause: crate::decoder::Error) -> (error: Error) {
        Error::DecoderError(cause)
    }
}

impl vstd::std_specs::convert::FromSpecImpl<crate::decoder::Error> for Error {
    open spec fn obeys_from_spec() -> bool {
        true
    }

    open spec fn from_spec(cause: crate::decoder::Error) -> Error {
        Error::DecoderError(cause)
    }
}

impl From<EncoderError> for Error {
    fn from(cause: EncoderError) -> (error: Error) {
        Error::EncoderError(cause)
    }
}

impl vstd::std_specs::convert::FromSpecImpl<EncoderError> for Error {
    open spec fn obeys_from_spec() -> bool {
        true
    }

    open spec fn from_spec(cause: EncoderError) -> Error {
        Error::EncoderError(cause)
    }
}

/// Where a stream between two files stands.
#[derive(Debug, Clone, Copy, PartialEq, Eq, Structural)]
pub enum Phase {
    /// No period reaches the transform.
    Idle,
    /// The next period is to be read from the source.
    Reading,
    /// The transformed period is to be written to the sink.
    Writing,
    /// The source has no more frames.
    Finished,
}

/// What is to be done after a period has been read.
#[derive(Debug, Clone, Copy, PartialEq, Eq, Structural)]
pub enum Step {
    /// The output view is to be written to the sink.
    Write,
    /// The source has no more frames: the stream is finished.
    Done,
}

/// `bytes` cut, or filled up with zeros, to `len` bytes.
pub open spec fn fitted(bytes: Seq<u8>, len: nat) -> Seq<u8> {
    if bytes.len() >= len {
        bytes.subrange(0, len as int)
    } else {
        bytes + Seq::new((len - bytes.len()) as nat, |i: int| 0u8)
    }
}

/// What a stream between two files is: its source and its sink, the number
/// of frames of a period, its two buffers of one period each, the transform
/// and the step it stands at.
pub struct CodecStreamView<F> {
    pub decoder: DecoderView,
    pub encoder: EncoderView,
    pub frame_count: nat,
    pub input: Seq<u8>,
    pub output: Seq<u8>,
    pub callback: Option<F>,
    pub phase: Phase,
}

impl<F: Fn(&Frames, FramesMut)> CodecStreamView<F> {
    pub open spec fn format(self) -> Format {
        self.decoder.format
    }

    pub open spec fn channels(self) -> nat {
        self.decoder.channels
    }

    /// The number of bytes of each of the two buffers.
    pub open spec fn buffer_len(self) -> nat {
        frame_width(self.format(), self.channels()) * self.frame_count
    }

    pub open spec fn running(self) -> bool {
        self.phase == Phase::Reading || self.phase == Phase::Writing
    }

    pub open spec fn well_formed(self) -> bool {
        &&& self.decoder.well_formed()
        &&& self.encoder.config.format == self.decoder.format
        &&& self.encoder.config.channels == self.decoder.channels
        &&& self.frame_count > 0
        &&& self.input.len() == self.buffer_len()
        &&& self.output.len() == self.buffer_len()
        &&& self.buffer_len() <= usize::MAX
        &&& self.running() ==> self.callback is Some
        &&& self.callback matches Some(callback) ==> accepts_frames(
            callback,
            self.format(),
            self.channels(),
        )
    }

    /// The view of the input buffer.
    pub open spec fn input_view(self) -> FramesView {
        FramesView { bytes: self.input, format: self.format(), channels: self.channels() }
    }

    /// The view of the output buffer.
    pub open spec fn output_view(self) -> FramesView {
        FramesView { bytes: self.output, format: self.format(), channels: self.channels() }
    }

    /// What the source returns for a read of one period, the engine having
    /// answered `status` and a count of `frames_read`.
    pub open spec fn read_result(self, status: Result<(), MiniaudioError>, frames_read: usize)
        -> Result<usize, crate::decoder::Error> {
        self.decoder.read_result(
            self.format(),
            self.channels(),
            self.input_view().frame_count(),
            status,
            frames_read,
        )
    }

    /// The source after that read.
    pub open spec fn decoder_after_read(
        self,
        status: Result<(), MiniaudioError>,
        frames_read: usize,
    ) -> DecoderView {
        self.decoder.after_read(
            self.format(),
            self.channels(),
            self.input_view().frame_count(),
            status,
            frames_read,
        )
    }

    /// What the sink returns for a write of the output buffer, the engine
    /// having answered `outcome`.
    pub open spec fn write_result(self, outcome: Result<usize, MiniaudioError>) -> Result<
        usize,
        EncoderError,
    > {
        self.encoder.write_result(
            self.format(),
            self.channels(),
            self.output_view().frame_count(),
            outcome,
        )
    }

    /// The sink after that write.
    pub open spec fn encoder_after_write(self, outcome: Result<usize, MiniaudioError>)
        -> EncoderView {
        self.encoder.after_write(
            self.format(),
            self.channels(),
            self.output_view().frame_count(),
            outcome,
        )
    }
}

/// A stream that reads periods from a decoder, hands each to a transform and
/// writes what the transform leaves to an encoder. It holds one period at a
/// time, whatever the length of the source.
pub struct CodecStream<F> {
    decoder: Decoder,
    encoder: Encoder,
    frame_count: usize,
    input_buffer: Vec<u8>,
    output_buffer: Vec<u8>,
    callback: Option<F>,
    phase: Phase,
}

impl<F> View for CodecStream<F> {
    type V = CodecStreamView<F>;

    closed spec fn view(&self) -> CodecStreamView<F> {
        CodecStreamView {
            decoder: self.decoder@,
            encoder: self.encoder@,
            frame_count: self.frame_count as nat,
            input: self.input_buffer@,
            output: self.output_buffer@,
            callback: self.callback,
            phase: self.phase,
        }
    }
}

/// The configuration of the sink that takes what `decoder` produces: a WAV
/// container of the decoder's format, channel count and rate.
pub fn encoder_config(decoder: &Decoder) -> (config: EncoderConfig)
    ensures
        config@ == (EncoderConfigView {
            encoding_format: EncodingFormat::Wav,
            format: decoder@.format,
            channels: decoder@.channels,
            sample_rate: decoder@.sample_rate,
        }),
{
    EncoderConfig::new(
        EncodingFormat::Wav,
        decoder.format(),
        decoder.channels(),
        decoder.sample_rate(),
    )
}

impl<F: Fn(&Frames, FramesMut)> CodecStream<F> {
    pub open spec fn well_formed(&self) -> bool {
        self@.well_formed()
    }

    /// Why no stream can be made of this source and this sink with periods
    /// of `frame_count` frames, if none can.
    pub open spec fn refusal(decoder: DecoderView, encoder: EncoderView, frame_count: nat)
        -> Option<Error> {
        if encoder.config.format != decoder.format || encoder.config.channels != decoder.channels
            || encoder.config.sample_rate != decoder.sample_rate {
            Some(Error::Mismatch)
        } else if frame_count == 0 || frame_width(decoder.format, decoder.channels) * frame_count
            > usize::MAX {
            Some(Error::InvalidPeriod)
        } else {
            None
        }
    }

    /// Makes the stream from `decoder` to `encoder` with periods of
    /// `frame_count` frames. Its buffers hold zeros, and it is not started.
    pub fn new(decoder: Decoder, encoder: Encoder, frame_count: usize) -> (result: Result<
        Self,
        Error,
    >)
        requires
            decoder.well_formed(),
        ensures
            match result {
                Ok(stream) => {
                    &&& Self::refusal(decoder@, encoder@, frame_count as nat) is None
                    &&& stream.well_formed()
                    &&& stream@.decoder == decoder@
                    &&& stream@.encoder == encoder@
                    &&& stream@.frame_count == frame_count
                    &&& stream@.input == Seq::new(stream@.buffer_len(), |i: int| 0u8)
                    &&& stream@.output == stream@.input
                    &&& stream@.callback is None
                    &&& stream@.phase == Phase::Idle
                },
                Err(error) => Self::refusal(decoder@, encoder@, frame_count as nat) == Some(error),
            },
    {
        if encoder.format() != decoder.format() || encoder.channels() != decoder.channels()
            || encoder.sample_rate() != decoder.sample_rate() {
            return Err(Error::Mismatch);
        }
        if frame_count == 0 {
            return Err(Error::InvalidPeriod);
        }
        let width = decoder.format().size_in_bytes();
        let size = match width.checked_mul(decoder.channels()) {
            Some(frame_bytes) => match frame_bytes.checked_mul(frame_count) {
                Some(size) => size,
                None => {
                    return Err(Error::InvalidPeriod);
                },
            },
            None => {
                proof {
                    let frame_bytes = frame_width(decoder@.format, decoder@.channels);
                    assert(frame_bytes * frame_count >= frame_bytes) by (nonlinear_arith)
                        requires
                            frame_count > 0,
                            frame_bytes >= 0,
                    ;
                }
                return Err(Error::InvalidPeriod);
            },
        };
        let input_buffer: Vec<u8> = vec![0u8; size];
        let output_buffer: Vec<u8> = vec![0u8; size];
        let stream = CodecStream {
            decoder,
            encoder,
            frame_count,
            input_buffer,
            output_buffer,
            callback: None,
            phase: Phase::Idle,
        };
        proof {
            assert(stream@.input =~= Seq::new(stream@.buffer_len(), |i: int| 0u8));
            assert(stream@.output =~= stream@.input);
        }
        Ok(stream)
    }

    pub fn format(&self) -> (format: Format)
        ensures
            format == self@.format(),
    {
        self.decoder.format()
    }

    pub fn channels(&self) -> (channels: usize)
        ensures
            channels == self@.channels(),
    {
        self.decoder.channels()
    }

    pub fn sample_rate(&self) -> (sample_rate: usize)
        ensures
            sample_rate == self@.decoder.sample_rate,
    {
        self.decoder.sample_rate()
    }

    pub fn frame_count(&self) -> (frame_count: usize)
        ensures
            frame_count == self@.frame_count,
    {
        self.frame_count
    }

    pub fn phase(&self) -> (phase: Phase)
        ensures
            phase == self@.phase,
    {
        self.phase
    }

    pub fn decoder(&self) -> (decoder: &Decoder)
        ensures
            decoder@ == self@.decoder,
    {
        &self.decoder
    }

    pub fn encoder(&self) -> (encoder: &Encoder)
        ensures
            encoder@ == self@.encoder,
    {
        &self.encoder
    }

    /// Hands out the input buffer for the engine to read the next period
    /// into. The stream is as it was, but for the bytes that the caller
    /// leaves in the buffer.
    pub fn input_frames(&mut self) -> (frames: FramesMut<'_>)
        requires
            old(self).well_formed(),
        ensures
            frames@ == old(self)@.input_view(),
            frames.well_formed(),
            final(self)@ == (CodecStreamView { input: final(frames.span())@, ..old(self)@ }),
    {
        proof {
            lemma_whole_frames(self@.format(), self@.channels(), self@.frame_count, 0);
        }
        let format = self.decoder.format();
        let channels = self.decoder.channels();
        FramesMut::wrap(self.input_buffer.as_mut_slice(), format, channels)
    }

    /// The view of the output buffer, for the engine to write the period
    /// from.
    pub fn output_frames(&self) -> (frames: Frames<'_>)
        requires
            self.well_formed(),
        ensures
            frames@ == self@.output_view(),
            frames.well_formed(),
    {
        proof {
            lemma_whole_frames(self@.format(), self@.channels(), self@.frame_count, 0);
        }
        Frames::wrap(self.output_buffer.as_slice(), self.decoder.format(), self.decoder.channels())
    }
}

impl<F: Fn(&Frames, FramesMut)> CodecStream<F> {
    /// Accounts for the read of a period into the input buffer, the engine
    /// having answered `status` and a count of `frames_read`, and decides
    /// what comes next.
    ///
    /// A fault of the source stops the stream. At the end of the source the
    /// stream is finished. Otherwise the transform is called once, on a view
    /// of the frames that were read and on a view of the whole output
    /// buffer, and the output buffer is to be written to the sink.
    pub fn decoded(&mut self, status: Result<(), MiniaudioError>, frames_read: usize) -> (result:
        Result<Step, Error>)
        requires
            old(self).well_formed(),
        ensures
            final(self).well_formed(),
            final(self)@.encoder == old(self)@.encoder,
            final(self)@.frame_count == old(self)@.frame_count,
            final(self)@.input == old(self)@.input,
            final(self)@.callback == old(self)@.callback,
            old(self)@.phase != Phase::Reading ==> {
                &&& result == Err::<Step, Error>(Error::OutOfStep)
                &&& final(self)@ == old(self)@
            },
            old(self)@.phase == Phase::Reading ==> {
                &&& final(self)@.decoder == old(self)@.decoder_after_read(status, frames_read)
                &&& match old(self)@.read_result(status, frames_read) {
                    Err(error) => {
                        &&& result == Err::<Step, Error>(Error::DecoderError(error))
                        &&& final(self)@.phase == Phase::Idle
                        &&& final(self)@.output == old(self)@.output
                    },
                    Ok(count) => if count == 0 {
                        &&& result == Ok::<Step, Error>(Step::Done)
                        &&& final(self)@.phase == Phase::Finished
                        &&& final(self)@.output == old(self)@.output
                    } else {
                        &&& result == Ok::<Step, Error>(Step::Write)
                        &&& final(self)@.phase == Phase::Writing
                        &&& exists|input: Frames, output: FramesMut|
                            {
                                &&& input@ == (FramesView {
                                    bytes: old(self)@.input_view().prefix(count as int),
                                    ..old(self)@.input_view()
                                })
                                &&& output@ == old(self)@.output_view()
                                &&& #[trigger] call_ensures(
                                    old(self)@.callback->0,
                                    (&input, output),
                                    (),
                                )
                                &&& final(self)@.output == fitted(
                                    final(output.span())@,
                                    old(self)@.buffer_len(),
                                )
                            }
                    },
                }
            },
    {
        match self.phase {
            Phase::Reading => {},
            _ => {
                return Err(Error::OutOfStep);
            },
        }
        let format = self.decoder.format();
        let channels = self.decoder.channels();
        proof {
            lemma_whole_frames(self@.format(), self@.channels(), self@.frame_count, 0);
        }
        let read = {
            let capacity = FramesMut::wrap(self.input_buffer.as_mut_slice(), format, channels);
            let read = self.decoder.read(&capacity, status, frames_read);
            proof {
                capacity.lemma_released();
            }
            read
        };
        let count = match read {
            Err(error) => {
                self.phase = Phase::Idle;
                return Err(Error::DecoderError(error));
            },
            Ok(count) => count,
        };
        if count == 0 {
            self.phase = Phase::Finished;
            return Ok(Step::Done);
        }
        let size = self.output_buffer.len();
        proof {
            let width = frame_width(self@.format(), self@.channels());
            let frames = self@.frame_count;
            assert(width <= width * frames) by (nonlinear_arith)
                requires
                    frames > 0,
                    width >= 0,
            ;
        }
        let frame_bytes = format.size_in_bytes() * channels;
        proof {
            lemma_whole_frames(
                self@.format(),
                self@.channels(),
                self@.frame_count,
                count as nat,
            );
        }
        let input = Frames::wrap(
            slice_subrange(self.input_buffer.as_slice(), 0, count * frame_bytes),
            format,
            channels,
        );
        let output = FramesMut::wrap(self.output_buffer.as_mut_slice(), format, channels);
        match &self.callback {
            Some(callback) => {
                callback(&input, output);
            },
            None => {},
        }
        // A view cannot resize the buffer that it borrows, so this changes
        // nothing. Verus does not know that, and learns the length here.
        self.output_buffer.resize(size, 0u8);
        self.phase = Phase::Writing;
        Ok(Step::Write)
    }

    /// Accounts for the write of the output buffer, the engine having
    /// answered `outcome`: the number of frames that it wrote, or a fault. A
    /// fault of the sink stops the stream; otherwise the next period is to
    /// be read.
    pub fn encoded(&mut self, outcome: Result<usize, MiniaudioError>) -> (result: Result<
        usize,
        Error,
    >)
        requires
            old(self).well_formed(),
        ensures
            final(self).well_formed(),
            old(self)@.phase != Phase::Writing ==> {
                &&& result == Err::<usize, Error>(Error::OutOfStep)
                &&& final(self)@ == old(self)@
            },
            old(self)@.phase == Phase::Writing ==> {
                &&& final(self)@ == (CodecStreamView {
                    encoder: old(self)@.encoder_after_write(outcome),
                    phase: if old(self)@.write_result(outcome) is Ok {
                        Phase::Reading
                    } else {
                        Phase::Idle
                    },
                    ..old(self)@
                })
                &&& result == match old(self)@.write_result(outcome) {
                    Ok(count) => Ok::<usize, Error>(count),
                    Err(error) => Err(Error::EncoderError(error)),
                }
            },
    {
        match self.phase {
            Phase::Writing => {},
            _ => {
                return Err(Error::OutOfStep);
            },
        }
        proof {
            lemma_whole_frames(self@.format(), self@.channels(), self@.frame_count, 0);
        }
        let written = {
            let offered = Frames::wrap(
                self.output_buffer.as_slice(),
                self.decoder.format(),
                self.decoder.channels(),
            );
            self.encoder.write(&offered, outcome)
        };
        match written {
            Ok(count) => {
                self.phase = Phase::Reading;
                Ok(count)
            },
            Err(error) => {
                self.phase = Phase::Idle;
                Err(Error::EncoderError(error))
            },
        }
    }
}

impl<F: Fn(&Frames, FramesMut)> CodecStream<F> {
    /// Ends the life of the stream: the source and the sink are closed, and
    /// no further period reaches the transform. Returns which handles are to
    /// be released now, which are those that were still held.
    pub fn close(&mut self) -> (released: Released)
        requires
            old(self).well_formed(),
        ensures
            final(self).well_formed(),
            released == (Released {
                source: old(self)@.decoder.open,
                sink: old(self)@.encoder.open,
                device: false,
            }),
            final(self)@ == (CodecStreamView {
                decoder: old(self)@.decoder.after_close(),
                encoder: old(self)@.encoder.after_close(),
                phase: Phase::Idle,
                ..old(self)@
            }),
    {
        let source = self.decoder.close();
        let sink = self.encoder.close();
        self.phase = Phase::Idle;
        Released { source, sink, device: false }
    }
}

impl<F: Fn(&Frames, FramesMut)> Stream for CodecStream<F> {
    type Error = Error;

    type Callback = F;

    open spec fn well_formed(&self) -> bool {
        self@.well_formed()
    }

    open spec fn accepts(&self, callback: F) -> bool {
        accepts_frames(callback, self@.format(), self@.channels())
    }

    open spec fn running(&self) -> bool {
        self@.running()
    }

    /// Installs `callback` and asks for the first period to be read. A
    /// stream that is running is left as it is, and the callback is dropped.
    fn start(&mut self, callback: F) -> (result: Result<(), Error>)
        ensures
            result == if old(self)@.running() {
                Err::<(), Error>(Error::AlreadyStarted)
            } else {
                Ok(())
            },
            final(self)@ == if old(self)@.running() {
                old(self)@
            } else {
                CodecStreamView {
                    callback: Some(callback),
                    phase: Phase::Reading,
                    ..old(self)@
                }
            },
    {
        match self.phase {
            Phase::Reading | Phase::Writing => {
                return Err(Error::AlreadyStarted);
            },
            _ => {},
        }
        self.callback = Some(callback);
        self.phase = Phase::Reading;
        Ok(())
    }

    /// Takes the stream out of its loop: no further period reaches the
    /// transform until the stream is started again. The transform stays
    /// installed, and the source and the sink stay open.
    fn stop(&mut self) -> (result: Result<(), Error>)
        ensures
            result == Ok::<(), Error>(()),
            final(self)@ == (CodecStreamView { phase: Phase::Idle, ..old(self)@ }),
    {
        self.phase = Phase::Idle;
        Ok(())
    }
}

/// What the words of `Stream` mean for a stream between two files.
pub proof fn lemma_stream_words<F: Fn(&Frames, FramesMut)>(stream: &CodecStream<F>, callback: F)
    ensures
        Stream::well_formed(stream) == stream@.well_formed(),
        Stream::accepts(stream, callback) == accepts_frames(
            callback,
            stream@.format(),
            stream@.channels(),
        ),
        Stream::running(stream) == stream@.running(),
{
}

} // verus!
