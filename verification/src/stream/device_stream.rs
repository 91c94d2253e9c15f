use crate::decoder::Decoder;
use crate::decoder::DecoderView;
use crate::device::buffers_fit;
use crate::device::device_data_callback;
use crate::device::period_view;
use crate::device::DataCallback;
use crate::device::Device;
use crate::device::DeviceConfig;
use crate::device::DeviceConfigView;
use crate::device::DeviceInfo;
use crate::device::DeviceState;
use crate::device::DeviceType;
use crate::device::DeviceView;
use crate::encoder::Encoder;
use crate::encoder::EncoderError;
use crate::encoder::EncoderView;
use crate::format::Format;
use crate::frames::frame_width;
use crate::frames::lemma_whole_frames;
use crate::frames::Frames;
use crate::frames::FramesMut;
use crate::frames::FramesView;
use crate::miniaudio_error::MiniaudioError;
use crate::stream::stream::accepts_frames;
use crate::stream::stream::Released;
use crate::stream::stream::Stream;
use vstd::prelude::*;
use vstd::slice::slice_subrange;

verus! {

/// Why an operation on a stream through a device did not succeed.
#[derive(Debug, Clone, Copy, PartialEq, Eq, Structural)]
pub enum Error {
    /// The device refused.
    DeviceError(crate::device::Error),
    /// Reading from the source failed.
    DecoderError(crate::decoder::Error),
    /// Writing to the sink failed.
    EncoderError(EncoderError),
    /// The source or the sink has another format, channel count or rate than
    /// the device.
    Mismatch,
    /// One period of the source is more than the machine can hold.
    InvalidPeriod,
}

impl From<crate::device::Error> for Error {
    fn from(cause: crate::device::Error) -> (error: Error) {
        Error::DeviceError(cause)
    }
}

impl vstd::std_specs::convert::FromSpecImpl<crate::device::Error> for Error {
    open spec fn obeys_from_spec() -> bool {
        true
    }

    open spec fn from_spec(cause: crate::device::Error) -> Error {
        Error::DeviceError(cause)
    }
}

impl From<crate::decoder::Error> for Error {
    fn from(cause: crate::decoder::Error) -> (error: Error) {
        Error::DecoderError(cause)
    }
}

impl vstd::std_specs::convert::FromSpecImpl<crate::decoder::Error> for Error {
    open spec fn obeys_from_spec() -> bool {
        true
    }

    open spec fn from_spec(cause: crate::decoder::Error) -> Error {
        Error::DecoderError(cause)
    }
}

impl From<EncoderError> for Error {
    fn from(cause: EncoderError) -> (error: Error) {
        Error::EncoderError(cause)
    }
}

impl vstd::std_specs::convert::FromSpecImpl<EncoderError> for Error {
    open spec fn obeys_from_spec() -> bool {
        true
    }

    open spec fn from_spec(cause: EncoderError) -> Error {
        Error::EncoderError(cause)
    }
}

/// The callback of a stream's device: it hands each period to the stream's
/// transform.
pub struct Relay<F> {
    callback: F,
}

impl<F> Relay<F> {
    /// The transform that the periods are handed to.
    pub closed spec fn transform(self) -> F {
        self.callback
    }

    pub fn new(callback: F) -> (relay: Relay<F>)
        ensures
            relay.transform() == callback,
    {
        Relay { callback }
    }
}

impl<F: Fn(&Frames, FramesMut)> DataCallback<()> for Relay<F> {
    open spec fn accepts(
        &self,
        info: DeviceInfo,
        payload: Option<&mut ()>,
        input: Frames,
        output: FramesMut,
    ) -> bool {
        call_requires(self.transform(), (&input, output))
    }

    open spec fn effect(
        &self,
        info: DeviceInfo,
        payload: Option<&mut ()>,
        input: Frames,
        output: FramesMut,
    ) -> bool {
        call_ensures(self.transform(), (&input, output), ())
    }

    fn call(&self, info: &DeviceInfo, payload: Option<&mut ()>, input: &Frames, output: FramesMut) {
        (self.callback)(input, output)
    }
}

/// The first `filled` bytes of `buffer`, followed by zeros up to `total`
/// bytes.
pub open spec fn padded(buffer: Seq<u8>, filled: int, total: int) -> Seq<u8> {
    buffer.subrange(0, filled) + Seq::new((total - filled) as nat, |i: int| 0u8)
}

/// What the engine answers to the read of a period: its status, and the
/// number of frames that it read.
#[derive(Debug, Clone, Copy)]
pub struct Decoded {
    pub status: Result<(), MiniaudioError>,
    pub frames_read: usize,
}

/// What a stream through a device is: the device, the source that stands in
/// for the device's input, if there is one, with its buffer of one period,
/// and the sink that takes the device's output, if there is one.
pub struct DeviceStreamView<F> {
    pub device: DeviceView<(), Relay<F>>,
    pub decoder: Option<DecoderView>,
    pub buffer: Seq<u8>,
    pub encoder: Option<EncoderView>,
}

impl<F: Fn(&Frames, FramesMut)> DeviceStreamView<F> {
    pub open spec fn info(self) -> DeviceInfo {
        self.device.info
    }

    /// The number of bytes of one period of the device.
    pub open spec fn period_len(self) -> nat {
        self.info().byte_count(self.info().frame_count as nat)
    }

    pub open spec fn well_formed(self) -> bool {
        &&& self.device.well_formed()
        &&& self.device.user_data is None
        &&& match self.decoder {
            Some(decoder) => {
                &&& decoder.well_formed()
                &&& decoder.format == self.info().format
                &&& decoder.channels == self.info().channels
                &&& self.buffer.len() == self.period_len()
            },
            None => self.buffer.len() == 0,
        }
        &&& self.encoder matches Some(encoder) ==> {
            &&& encoder.config.format == self.info().format
            &&& encoder.config.channels == self.info().channels
        }
    }

    /// What the source returns for the read of `frame_count` frames, the
    /// engine having answered `decoded`.
    pub open spec fn read_result(self, frame_count: nat, decoded: Decoded) -> Result<
        usize,
        crate::decoder::Error,
    > {
        self.decoder->0.read_result(
            self.info().format,
            self.info().channels as nat,
            frame_count,
            decoded.status,
            decoded.frames_read,
        )
    }

    /// Whether the source fails a period of `frame_count` frames: the engine
    /// was not asked, the period is longer than the buffer, or the read
    /// failed.
    pub open spec fn source_fails(self, frame_count: nat, decoded: Option<Decoded>) -> bool {
        &&& self.decoder is Some
        &&& {
            ||| decoded is None
            ||| frame_count > self.info().frame_count
            ||| self.read_result(frame_count, decoded->0) is Err
        }
    }

    /// The source after a period of `frame_count` frames that the device
    /// invokes.
    pub open spec fn decoder_after(self, frame_count: nat, decoded: Option<Decoded>) -> Option<
        DecoderView,
    > {
        match self.decoder {
            None => None,
            Some(decoder) => if decoded is None || frame_count > self.info().frame_count {
                Some(decoder)
            } else {
                Some(
                    decoder.after_read(
                        self.info().format,
                        self.info().channels as nat,
                        frame_count,
                        decoded->0.status,
                        decoded->0.frames_read,
                    ),
                )
            },
        }
    }

    /// The buffer after a period of `frame_count` frames that the source
    /// does not fail: what was read, then zeros up to the end of the period,
    /// then what it held.
    pub open spec fn buffer_after(self, frame_count: nat, decoded: Option<Decoded>) -> Seq<u8> {
        if self.decoder is Some {
            let filled = self.read_result(frame_count, decoded->0)->Ok_0 * frame_width(
                self.info().format,
                self.info().channels as nat,
            );
            let total = self.info().byte_count(frame_count);
            padded(self.buffer, filled, total as int) + self.buffer.subrange(
                total as int,
                self.buffer.len() as int,
            )
        } else {
            self.buffer
        }
    }

    /// The input of a period of `frame_count` frames that the source does
    /// not fail: what the source read, filled up with zeros, where there is a
    /// source, and what the backend handed over where there is none.
    pub open spec fn period_input(
        self,
        input: Option<Seq<u8>>,
        frame_count: nat,
        decoded: Option<Decoded>,
    ) -> Option<Seq<u8>> {
        if self.decoder is Some {
            Some(
                self.buffer_after(frame_count, decoded).subrange(
                    0,
                    self.info().byte_count(frame_count) as int,
                ),
            )
        } else {
            input
        }
    }
}

/// A stream that hands each period of a device to a transform. Where it has
/// a source, the frames of the source stand in for the device's input; where
/// it has a sink, the sink takes what the transform leaves in the device's
/// output.
pub struct DeviceStream<F> {
    device: Device<(), Relay<F>>,
    decoder: Option<Decoder>,
    decoder_buffer: Vec<u8>,
    encoder: Option<Encoder>,
}

impl<F> View for DeviceStream<F> {
    type V = DeviceStreamView<F>;

    closed spec fn view(&self) -> DeviceStreamView<F> {
        DeviceStreamView {
            device: self.device@,
            decoder: match self.decoder {
                Some(decoder) => Some(decoder@),
                None => None,
            },
            buffer: self.decoder_buffer@,
            encoder: match self.encoder {
                Some(encoder) => Some(encoder@),
                None => None,
            },
        }
    }
}

/// Fills the bytes of `buffer` from `from` up to `to` with zeros.
fn fill_zeros(buffer: &mut Vec<u8>, from: usize, to: usize)
    requires
        from <= to <= old(buffer)@.len(),
    ensures
        final(buffer)@ == padded(old(buffer)@, from as int, to as int) + old(buffer)@.subrange(
            to as int,
            old(buffer)@.len() as int,
        ),
        final(buffer)@.len() == old(buffer)@.len(),
{
    let mut index: usize = from;
    while index < to
        invariant
            from <= index <= to <= buffer@.len(),
            buffer@.len() == old(buffer)@.len(),
            buffer@ == padded(old(buffer)@, from as int, index as int) + old(buffer)@.subrange(
                index as int,
                old(buffer)@.len() as int,
            ),
        decreases to - index,
    {
        buffer[index] = 0u8;
        index += 1;
    }
}

/// The kind of device of a stream: one that plays where a source stands in
/// for its input, one that captures and plays where none does.
pub open spec fn device_type_for(has_source: bool) -> DeviceType {
    if has_source {
        DeviceType::Playback
    } else {
        DeviceType::Duplex
    }
}

/// The configuration of the device of a stream with or without a source.
pub fn device_config(
    format: Format,
    channels: usize,
    sample_rate: usize,
    frame_count: usize,
    has_source: bool,
) -> (config: DeviceConfig<()>)
    ensures
        config@ == (DeviceConfigView {
            info: DeviceInfo {
                device_type: device_type_for(has_source),
                format,
                channels,
                sample_rate,
                frame_count,
            },
            user_data: None::<()>,
        }),
{
    let device_type = if has_source {
        DeviceType::Playback
    } else {
        DeviceType::Duplex
    };
    DeviceConfig::new(device_type, format, channels, sample_rate, frame_count, None)
}

impl<F: Fn(&Frames, FramesMut)> DeviceStream<F> {
    pub open spec fn well_formed(&self) -> bool {
        self@.well_formed()
    }

    /// Why no stream can be made of this device configuration, this source
    /// and this sink, the backend having answered `opened` to the request to
    /// open the device, if none can.
    pub open spec fn refusal(
        info: DeviceInfo,
        decoder: Option<DecoderView>,
        encoder: Option<EncoderView>,
        opened: Result<(), MiniaudioError>,
    ) -> Option<Error> {
        if decoder matches Some(source) && (source.format != info.format || source.channels
            != info.channels || source.sample_rate != info.sample_rate) {
            Some(Error::Mismatch)
        } else if encoder matches Some(sink) && (sink.config.format != info.format
            || sink.config.channels != info.channels || sink.config.sample_rate
            != info.sample_rate) {
            Some(Error::Mismatch)
        } else if !info.valid() {
            Some(Error::DeviceError(crate::device::Error::InvalidConfig))
        } else if decoder is Some && info.byte_count(info.frame_count as nat) > usize::MAX {
            Some(Error::InvalidPeriod)
        } else {
            match opened {
                Err(fault) => Some(Error::DeviceError(crate::device::Error::MiniaudioError(fault))),
                Ok(()) => None,
            }
        }
    }

    /// Makes the stream through the device that the backend was asked to
    /// open with `config`, from what the backend answered. The stream is not
    /// started, and the buffer of its source holds zeros.
    pub fn new(
        config: DeviceConfig<()>,
        decoder: Option<Decoder>,
        encoder: Option<Encoder>,
        opened: Result<(), MiniaudioError>,
    ) -> (result: Result<Self, Error>)
        requires
            decoder matches Some(source) ==> source.well_formed(),
            config@.user_data is None,
        ensures
            match result {
                Ok(stream) => {
                    &&& Self::refusal(
                        config@.info,
                        match decoder {
                            Some(source) => Some(source@),
                            None => None,
                        },
                        match encoder {
                            Some(sink) => Some(sink@),
                            None => None,
                        },
                        opened,
                    ) is None
                    &&& stream.well_formed()
                    &&& stream@.device == (DeviceView::<(), Relay<F>> {
                        info: config@.info,
                        state: DeviceState::Initialized,
                        poisoned: false,
                        data_callback: None,
                        user_data: None,
                    })
                    &&& stream@.decoder == match decoder {
                        Some(source) => Some(source@),
                        None => None,
                    }
                    &&& stream@.encoder == match encoder {
                        Some(sink) => Some(sink@),
                        None => None,
                    }
                    &&& stream@.buffer == Seq::new(stream@.buffer.len(), |i: int| 0u8)
                },
                Err(error) => Self::refusal(
                    config@.info,
                    match decoder {
                        Some(source) => Some(source@),
                        None => None,
                    },
                    match encoder {
                        Some(sink) => Some(sink@),
                        None => None,
                    },
                    opened,
                ) == Some(error),
            },
    {
        let info = config.info();
        if let Some(source) = &decoder {
            if source.format() != info.format || source.channels() != info.channels
                || source.sample_rate() != info.sample_rate {
                return Err(Error::Mismatch);
            }
        }
        if let Some(sink) = &encoder {
            if sink.format() != info.format || sink.channels() != info.channels
                || sink.sample_rate() != info.sample_rate {
                return Err(Error::Mismatch);
            }
        }
        if let Err(error) = info.validate() {
            return Err(Error::DeviceError(error));
        }
        let size: usize = if decoder.is_some() {
            match info.period_byte_count(info.frame_count as u32) {
                Some(size) => size,
                None => {
                    return Err(Error::InvalidPeriod);
                },
            }
        } else {
            0
        };
        let device = match Device::new(config, opened) {
            Ok(device) => device,
            Err(error) => {
                return Err(Error::DeviceError(error));
            },
        };
        let decoder_buffer: Vec<u8> = vec![0u8; size];
        let stream = DeviceStream { device, decoder, decoder_buffer, encoder };
        proof {
            assert(stream@.buffer =~= Seq::new(stream@.buffer.len(), |i: int| 0u8));
        }
        Ok(stream)
    }

    pub fn format(&self) -> (format: Format)
        ensures
            format == self@.info().format,
    {
        self.device.format()
    }

    pub fn channels(&self) -> (channels: usize)
        ensures
            channels == self@.info().channels,
    {
        self.device.channels()
    }

    pub fn sample_rate(&self) -> (sample_rate: usize)
        ensures
            sample_rate == self@.info().sample_rate,
    {
        self.device.sample_rate()
    }

    pub fn frame_count(&self) -> (frame_count: usize)
        ensures
            frame_count == self@.info().frame_count,
    {
        self.device.frame_count()
    }

    pub fn device(&self) -> (device: &Device<(), Relay<F>>)
        ensures
            device@ == self@.device,
    {
        &self.device
    }

    pub fn has_source(&self) -> (has_source: bool)
        ensures
            has_source == (self@.decoder is Some),
    {
        self.decoder.is_some()
    }

    pub fn has_sink(&self) -> (has_sink: bool)
        ensures
            has_sink == (self@.encoder is Some),
    {
        self.encoder.is_some()
    }
}

impl<F: Fn(&Frames, FramesMut)> Stream for DeviceStream<F> {
    type Error = Error;

    type Callback = F;

    open spec fn well_formed(&self) -> bool {
        self@.well_formed()
    }

    open spec fn accepts(&self, callback: F) -> bool {
        accepts_frames(callback, self@.info().format, self@.info().channels as nat)
    }

    open spec fn running(&self) -> bool {
        self@.device.invokes()
    }

    /// Starts the device with `callback` as the transform, after which the
    /// backend is to be armed. A device that is started, torn down or
    /// poisoned is left as it is, and the callback is dropped.
    fn start(&mut self, callback: F) -> (result: Result<(), Error>)
        ensures
            result == match old(self)@.device.start_refusal() {
                Some(error) => Err::<(), Error>(Error::DeviceError(error)),
                None => Ok(()),
            },
            exists|relay: Relay<F>|
                relay.transform() == callback && final(self)@ == (DeviceStreamView {
                    device: old(self)@.device.after_start(relay, None),
                    ..old(self)@
                }),
    {
        let relay = Relay::new(callback);
        assert(crate::device::accepts_periods::<(), Relay<F>>(relay, self@.info()));
        match self.device.start(relay, None) {
            Ok(()) => Ok(()),
            Err(error) => Err(Error::DeviceError(error)),
        }
    }

    /// Stops the device, after which the backend is to be disarmed. A fault
    /// inside an earlier period is reported here.
    fn stop(&mut self) -> (result: Result<(), Error>)
        ensures
            result == match old(self)@.device.stop_result() {
                Ok(()) => Ok::<(), Error>(()),
                Err(error) => Err(Error::DeviceError(error)),
            },
            final(self)@ == (DeviceStreamView {
                device: old(self)@.device.after_stop(),
                ..old(self)@
            }),
    {
        match self.device.stop() {
            Ok(()) => Ok(()),
            Err(error) => Err(Error::DeviceError(error)),
        }
    }
}

impl<F: Fn(&Frames, FramesMut)> DeviceStream<F> {
    /// Takes back a `start` that the backend refused with `fault`. Returns
    /// the error to report.
    pub fn start_failed(&mut self, fault: MiniaudioError) -> (error: Error)
        requires
            old(self).well_formed(),
        ensures
            error == Error::DeviceError(crate::device::Error::MiniaudioError(fault)),
            final(self)@ == (DeviceStreamView {
                device: old(self)@.device.after_start_failed(),
                ..old(self)@
            }),
            final(self).well_formed(),
    {
        Error::DeviceError(self.device.start_failed(fault))
    }

    /// Takes back a `stop` that the backend refused with `fault`. Returns
    /// the error to report.
    pub fn stop_failed(&mut self, fault: MiniaudioError) -> (error: Error)
        requires
            old(self).well_formed(),
        ensures
            error == Error::DeviceError(crate::device::Error::MiniaudioError(fault)),
            final(self)@ == (DeviceStreamView {
                device: old(self)@.device.after_stop_failed(),
                ..old(self)@
            }),
            final(self).well_formed(),
    {
        Error::DeviceError(self.device.stop_failed(fault))
    }

    /// Records a fault inside a period: from now on no period reaches the
    /// transform, and `start` and `stop` report the fault.
    pub fn poison(&mut self)
        requires
            old(self).well_formed(),
        ensures
            final(self)@ == (DeviceStreamView {
                device: old(self)@.device.after_poison(),
                ..old(self)@
            }),
            final(self).well_formed(),
    {
        self.device.poison();
    }

    /// The number of frames that the engine is to read into the buffer of
    /// the source for a period of `frame_count` frames: none where the
    /// period does not reach the transform, where the stream has no open
    /// source, or where the period is longer than the buffer.
    pub fn decode_request(&self, frame_count: u32) -> (request: Option<usize>)
        requires
            self.well_formed(),
        ensures
            request == if self@.device.invokes() && self@.decoder is Some
                && self@.decoder->0.open && frame_count <= self@.info().frame_count {
                Some(frame_count as usize)
            } else {
                None
            },
    {
        if !self.device.invokes() {
            return None;
        }
        match &self.decoder {
            Some(decoder) => {
                if decoder.is_open() && frame_count as usize <= self.device.frame_count() {
                    Some(frame_count as usize)
                } else {
                    None
                }
            },
            None => None,
        }
    }

    /// Hands out the buffer of the source for the engine to read a period
    /// into. The stream is as it was, but for the bytes that the caller
    /// leaves in the buffer.
    pub fn decoder_frames(&mut self) -> (frames: FramesMut<'_>)
        requires
            old(self).well_formed(),
        ensures
            frames@ == (FramesView {
                bytes: old(self)@.buffer,
                format: old(self)@.info().format,
                channels: old(self)@.info().channels as nat,
            }),
            frames.well_formed(),
            final(self)@ == (DeviceStreamView { buffer: final(frames.span())@, ..old(self)@ }),
    {
        proof {
            lemma_whole_frames(
                self@.info().format,
                self@.info().channels as nat,
                self@.info().frame_count as nat,
                0,
            );
        }
        let format = self.device.format();
        let channels = self.device.channels();
        FramesMut::wrap(self.decoder_buffer.as_mut_slice(), format, channels)
    }

    /// Accounts for the write of a period's output to the sink, the engine
    /// having answered `outcome`. A fault of the sink poisons the device. A
    /// stream without a sink is left as it is.
    pub fn encoded(&mut self, frames: &Frames, outcome: Result<usize, MiniaudioError>)
        requires
            old(self).well_formed(),
            frames.well_formed(),
        ensures
            final(self).well_formed(),
            final(self)@.decoder == old(self)@.decoder,
            final(self)@.buffer == old(self)@.buffer,
            match old(self)@.encoder {
                None => final(self)@ == old(self)@,
                Some(sink) => {
                    &&& final(self)@.encoder == Some(
                        sink.after_write(
                            frames@.format,
                            frames@.channels,
                            frames@.frame_count(),
                            outcome,
                        ),
                    )
                    &&& final(self)@.device == if sink.write_result(
                        frames@.format,
                        frames@.channels,
                        frames@.frame_count(),
                        outcome,
                    ) is Ok {
                        old(self)@.device
                    } else {
                        old(self)@.device.after_poison()
                    }
                },
            },
    {
        let failed = match self.encoder.take() {
            None => false,
            Some(mut sink) => {
                let written = sink.write(frames, outcome);
                self.encoder = Some(sink);
                written.is_err()
            },
        };
        if failed {
            self.device.poison();
        }
    }

    /// Ends the life of the stream: the source and the sink are closed and
    /// the device is torn down. Returns which handles are to be released
    /// now, which are those that were still held.
    pub fn teardown(&mut self) -> (released: Released)
        requires
            old(self).well_formed(),
        ensures
            final(self).well_formed(),
            released == (Released {
                source: old(self)@.decoder matches Some(source) && source.open,
                sink: old(self)@.encoder matches Some(sink) && sink.open,
                device: old(self)@.device.state != DeviceState::Destroyed,
            }),
            final(self)@ == (DeviceStreamView {
                device: old(self)@.device.after_teardown(),
                decoder: match old(self)@.decoder {
                    Some(source) => Some(source.after_close()),
                    None => None,
                },
                encoder: match old(self)@.encoder {
                    Some(sink) => Some(sink.after_close()),
                    None => None,
                },
                ..old(self)@
            }),
    {
        let source = match self.decoder.take() {
            None => false,
            Some(mut decoder) => {
                let release = decoder.close();
                self.decoder = Some(decoder);
                release
            },
        };
        let sink = match self.encoder.take() {
            None => false,
            Some(mut encoder) => {
                let release = encoder.close();
                self.encoder = Some(encoder);
                release
            },
        };
        let device = self.device.teardown();
        Released { source, sink, device }
    }
}

impl<F: Fn(&Frames, FramesMut)> DeviceStream<F> {
    /// Serves one period that the backend calls for: `frame_count` frames to
    /// take from `input` and as many to leave in `output`. Where the stream
    /// has a source, `decoded` is what the engine answered to the read of
    /// `frame_count` frames into the buffer of the source. Returns whether
    /// the transform was called.
    ///
    /// A device that does not invoke leaves the period alone. Otherwise a
    /// source that fails poisons the device, and the transform is not
    /// called. Otherwise the frames that the source read, filled up with
    /// zeros to the length of the period, stand in for `input`, and the
    /// period is served as the device serves it: a buffer that does not hold
    /// `frame_count` frames poisons the device, and else the transform is
    /// called once on views of the two buffers.
    pub fn period(
        &mut self,
        output: Option<&mut [u8]>,
        input: Option<&[u8]>,
        frame_count: u32,
        decoded: Option<Decoded>,
    ) -> (ran: bool)
        requires
            old(self).well_formed(),
        ensures
            final(self).well_formed(),
            final(self)@.encoder == old(self)@.encoder,
            final(self)@.device.info == old(self)@.device.info,
            final(self)@.device.state == old(self)@.device.state,
            final(self)@.device.data_callback == old(self)@.device.data_callback,
            ran ==> !final(self)@.device.poisoned,
            !old(self)@.device.invokes() ==> {
                &&& !ran
                &&& final(self)@ == old(self)@
                &&& output matches Some(bytes) ==> final(bytes)@ == bytes@
            },
            old(self)@.device.invokes() && old(self)@.source_fails(frame_count as nat, decoded)
                ==> {
                &&& !ran
                &&& final(self)@ == (DeviceStreamView {
                    device: old(self)@.device.after_poison(),
                    decoder: old(self)@.decoder_after(frame_count as nat, decoded),
                    ..old(self)@
                })
                &&& output matches Some(bytes) ==> final(bytes)@ == bytes@
            },
            old(self)@.device.invokes() && !old(self)@.source_fails(frame_count as nat, decoded)
                ==> {
                &&& final(self)@.decoder == old(self)@.decoder_after(frame_count as nat, decoded)
                &&& final(self)@.buffer == old(self)@.buffer_after(frame_count as nat, decoded)
                &&& !buffers_fit(
                    old(self)@.info(),
                    old(self)@.period_input(
                        match input {
                            Some(bytes) => Some(bytes@),
                            None => None,
                        },
                        frame_count as nat,
                        decoded,
                    ),
                    match output {
                        Some(bytes) => Some(bytes@),
                        None => None,
                    },
                    frame_count as nat,
                ) ==> {
                    &&& !ran
                    &&& final(self)@.device == old(self)@.device.after_poison()
                    &&& output matches Some(bytes) ==> final(bytes)@ == bytes@
                }
                &&& buffers_fit(
                    old(self)@.info(),
                    old(self)@.period_input(
                        match input {
                            Some(bytes) => Some(bytes@),
                            None => None,
                        },
                        frame_count as nat,
                        decoded,
                    ),
                    match output {
                        Some(bytes) => Some(bytes@),
                        None => None,
                    },
                    frame_count as nat,
                ) ==> {
                    &&& ran
                    &&& final(self)@.device == old(self)@.device
                    &&& exists|input_view: Frames, output_view: FramesMut|
                        {
                            &&& input_view@ == period_view(
                                old(self)@.info(),
                                old(self)@.period_input(
                                    match input {
                                        Some(bytes) => Some(bytes@),
                                        None => None,
                                    },
                                    frame_count as nat,
                                    decoded,
                                ),
                            )
                            &&& output_view@ == period_view(
                                old(self)@.info(),
                                match output {
                                    Some(bytes) => Some(bytes@),
                                    None => None,
                                },
                            )
                            &&& output matches Some(bytes) ==> final(output_view.span())@
                                == final(bytes)@
                            &&& #[trigger] call_ensures(
                                old(self)@.device.data_callback->0.transform(),
                                (&input_view, output_view),
                                (),
                            )
                        }
                }
            },
    {
        if !self.device.invokes() {
            return false;
        }
        let info = self.device.info();
        match self.decoder.take() {
            None => {
                device_data_callback(&mut self.device, output, input, frame_count);
            },
            Some(mut source) => {
                let answer = match decoded {
                    Some(answer) => answer,
                    None => {
                        self.decoder = Some(source);
                        self.device.poison();
                        return false;
                    },
                };
                if frame_count as usize > info.frame_count {
                    self.decoder = Some(source);
                    self.device.poison();
                    return false;
                }
                let size = self.decoder_buffer.len();
                proof {
                    lemma_whole_frames(
                        info.format,
                        info.channels as nat,
                        info.frame_count as nat,
                        frame_count as nat,
                    );
                    lemma_whole_frames(info.format, info.channels as nat, frame_count as nat, 0);
                    lemma_whole_frames(
                        info.format,
                        info.channels as nat,
                        info.frame_count as nat,
                        1,
                    );
                    assert(size == old(self)@.period_len());
                    assert(info.byte_count(frame_count as nat) <= size);
                }
                let frame_bytes = info.format.size_in_bytes() * info.channels;
                let total = frame_count as usize * frame_bytes;
                let read = {
                    let (head, tail) = self.decoder_buffer.as_mut_slice().split_at_mut(total);
                    let capacity = FramesMut::wrap(head, info.format, info.channels);
                    let read = source.read(&capacity, answer.status, answer.frames_read);
                    proof {
                        capacity.lemma_released();
                    }
                    read
                };
                assert(self.decoder_buffer@ =~= old(self)@.buffer);
                self.decoder = Some(source);
                let count = match read {
                    Ok(count) => count,
                    Err(_) => {
                        self.device.poison();
                        return false;
                    },
                };
                proof {
                    lemma_whole_frames(
                        info.format,
                        info.channels as nat,
                        frame_count as nat,
                        count as nat,
                    );
                }
                fill_zeros(&mut self.decoder_buffer, count * frame_bytes, total);
                let fed = slice_subrange(self.decoder_buffer.as_slice(), 0, total);
                device_data_callback(&mut self.device, output, Some(fed), frame_count);
            },
        }
        !self.device.is_poisoned()
    }
}

/// What the words of `Stream` mean for a stream through a device.
pub proof fn lemma_stream_words<F: Fn(&Frames, FramesMut)>(stream: &DeviceStream<F>, callback: F)
    ensures
        Stream::well_formed(stream) == stream@.well_formed(),
        Stream::accepts(stream, callback) == accepts_frames(
            callback,
            stream@.info().format,
            stream@.info().channels as nat,
        ),
        Stream::running(stream) == stream@.device.invokes(),
{
}

} // verus!
