use crate::format::Format;
use crate::frames::FramesMut;
use crate::miniaudio_error::MiniaudioError;
use vstd::prelude::*;

verus! {

/// Why an operation on a decoder did not succeed.
#[derive(Debug, Clone, Copy, PartialEq, Eq, Structural)]
pub enum Error {
    /// The engine reported a fault.
    MiniaudioError(MiniaudioError),
    /// What the engine says of the opened stream cannot be decoded from, or
    /// is not what was asked for.
    InvalidStream,
    /// The decoder has been closed.
    Closed,
    /// The frame to seek to lies beyond the last frame.
    SeekPastEnd,
    /// The view to read into has another format or channel count than the
    /// decoder.
    ShapeMismatch,
    /// The engine claims to have read more frames than the view can hold.
    ReadOverrun,
}

impl From<MiniaudioError> for Error {
    fn from(fault: MiniaudioError) -> (error: Error) {
        Error::MiniaudioError(fault)
    }
}

impl vstd::std_specs::convert::FromSpecImpl<MiniaudioError> for Error {
    open spec fn obeys_from_spec() -> bool {
        true
    }

    open spec fn from_spec(fault: MiniaudioError) -> Error {
        Error::MiniaudioError(fault)
    }
}

/// The output that a decoder is asked to produce. `Format::Unknown` and a
/// count of zero leave the choice to the stream.
#[derive(Debug, Clone, Copy, PartialEq, Eq, Structural)]
pub struct DecoderConfig {
    format: Format,
    channels: usize,
    sample_rate: usize,
}

impl DecoderConfig {
    pub closed spec fn spec_format(&self) -> Format {
        self.format
    }

    pub closed spec fn spec_channels(&self) -> usize {
        self.channels
    }

    pub closed spec fn spec_sample_rate(&self) -> usize {
        self.sample_rate
    }

    pub fn new(output_format: Format, output_channels: usize, output_sample_rate: usize) -> (config:
        Self)
        ensures
            config.spec_format() == output_format,
            config.spec_channels() == output_channels,
            config.spec_sample_rate() == output_sample_rate,
    {
        DecoderConfig {
            format: output_format,
            channels: output_channels,
            sample_rate: output_sample_rate,
        }
    }

    #[verifier::when_used_as_spec(spec_format)]
    pub fn format(&self) -> (format: Format)
        ensures
            format == self.spec_format(),
    {
        self.format
    }

    pub fn set_format(&mut self, format: Format)
        ensures
            final(self).spec_format() == format,
            final(self).spec_channels() == old(self).spec_channels(),
            final(self).spec_sample_rate() == old(self).spec_sample_rate(),
    {
        self.format = format;
    }

    #[verifier::when_used_as_spec(spec_channels)]
    pub fn channels(&self) -> (channels: usize)
        ensures
            channels == self.spec_channels(),
    {
        self.channels
    }

    pub fn set_channels(&mut self, channels: usize)
        ensures
            final(self).spec_format() == old(self).spec_format(),
            final(self).spec_channels() == channels,
            final(self).spec_sample_rate() == old(self).spec_sample_rate(),
    {
        self.channels = channels;
    }

    #[verifier::when_used_as_spec(spec_sample_rate)]
    pub fn sample_rate(&self) -> (sample_rate: usize)
        ensures
            sample_rate == self.spec_sample_rate(),
    {
        self.sample_rate
    }

    pub fn set_sample_rate(&mut self, sample_rate: usize)
        ensures
            final(self).spec_format() == old(self).spec_format(),
            final(self).spec_channels() == old(self).spec_channels(),
            final(self).spec_sample_rate() == sample_rate,
    {
        self.sample_rate = sample_rate;
    }

    /// Whether a stream of this output is what the configuration asks for.
    pub open spec fn admits(&self, info: StreamInfo) -> bool {
        &&& self.spec_format() != Format::Unknown ==> info.format == self.spec_format()
        &&& self.spec_channels() != 0 ==> info.channels == self.spec_channels()
        &&& self.spec_sample_rate() != 0 ==> info.sample_rate == self.spec_sample_rate()
    }
}

impl Default for DecoderConfig {
    /// The configuration that leaves every choice to the stream.
    fn default() -> (config: Self)
        ensures
            config.spec_format() == Format::Unknown,
            config.spec_channels() == 0,
            config.spec_sample_rate() == 0,
    {
        DecoderConfig { format: Format::Unknown, channels: 0, sample_rate: 0 }
    }
}

/// What the engine says of a stream that it has opened for reading.
#[derive(Debug, Clone, Copy, PartialEq, Eq, Structural)]
pub struct StreamInfo {
    pub format: Format,
    pub channels: usize,
    pub sample_rate: usize,
    pub total_frame_count: usize,
}

impl StreamInfo {
    /// Whether frames can be read from a stream of this description.
    pub open spec fn readable(self) -> bool {
        &&& self.format != Format::Unknown
        &&& self.channels > 0
        &&& self.sample_rate > 0
    }
}

/// What a decoder is: the output it produces, the length of its stream, the
/// frame at which the next read starts, and whether it still holds its
/// stream.
pub struct DecoderView {
    pub format: Format,
    pub channels: nat,
    pub sample_rate: nat,
    pub total_frame_count: nat,
    pub cursor: nat,
    pub open: bool,
}

impl DecoderView {
    pub open spec fn well_formed(self) -> bool {
        &&& self.format != Format::Unknown
        &&& self.channels > 0
        &&& self.sample_rate > 0
    }

    /// The frames between the cursor and the end of the stream; none where
    /// the cursor has passed the end.
    pub open spec fn available(self) -> nat {
        if self.cursor <= self.total_frame_count {
            (self.total_frame_count - self.cursor) as nat
        } else {
            0
        }
    }

    /// Why a seek to `frame_index` is not handed to the engine, if it is not.
    pub open spec fn seek_refusal(self, frame_index: nat) -> Option<Error> {
        if !self.open {
            Some(Error::Closed)
        } else if frame_index > self.total_frame_count {
            Some(Error::SeekPastEnd)
        } else {
            None
        }
    }

    /// What a seek to `frame_index` returns, the engine having answered
    /// `status`.
    pub open spec fn seek_result(self, frame_index: nat, status: Result<(), MiniaudioError>)
        -> Result<(), Error> {
        match self.seek_refusal(frame_index) {
            Some(error) => Err(error),
            None => match status {
                Err(fault) => Err(Error::MiniaudioError(fault)),
                Ok(()) => Ok(()),
            },
        }
    }

    /// The decoder after that seek.
    pub open spec fn after_seek(self, frame_index: nat, status: Result<(), MiniaudioError>)
        -> DecoderView {
        if self.seek_result(frame_index, status) is Ok {
            DecoderView { cursor: frame_index, ..self }
        } else {
            self
        }
    }

    /// Why a read into a view of `format` and `channels` is not handed to the
    /// engine, if it is not.
    pub open spec fn read_refusal(self, format: Format, channels: nat) -> Option<Error> {
        if !self.open {
            Some(Error::Closed)
        } else if format != self.format || channels != self.channels {
            Some(Error::ShapeMismatch)
        } else {
            None
        }
    }

    /// What a read into a view of `capacity` frames returns, the engine
    /// having answered `status` and a count of `frames_read`.
    pub open spec fn read_result(
        self,
        format: Format,
        channels: nat,
        capacity: nat,
        status: Result<(), MiniaudioError>,
        frames_read: usize,
    ) -> Result<usize, Error> {
        match self.read_refusal(format, channels) {
            Some(error) => Err(error),
            None => match status {
                Err(fault) if !fault.is_end_of_stream() => Err(Error::MiniaudioError(fault)),
                _ => if frames_read > capacity {
                    Err(Error::ReadOverrun)
                } else {
                    Ok(frames_read)
                },
            },
        }
    }

    /// The decoder after that read. The cursor stops at the largest count
    /// that the machine can hold.
    pub open spec fn after_read(
        self,
        format: Format,
        channels: nat,
        capacity: nat,
        status: Result<(), MiniaudioError>,
        frames_read: usize,
    ) -> DecoderView {
        if self.read_result(format, channels, capacity, status, frames_read) is Ok {
            DecoderView {
                cursor: if self.cursor + frames_read <= usize::MAX {
                    (self.cursor + frames_read) as nat
                } else {
                    usize::MAX as nat
                },
                ..self
            }
        } else {
            self
        }
    }

    /// The decoder after `close`.
    pub open spec fn after_close(self) -> DecoderView {
        DecoderView { open: false, ..self }
    }
}

/// A source of frames that reads them from a stream which the engine decodes.
#[derive(Debug)]
pub struct Decoder {
    format: Format,
    channels: usize,
    sample_rate: usize,
    total_frame_count: usize,
    cursor: usize,
    open: bool,
}

impl View for Decoder {
    type V = DecoderView;

    closed spec fn view(&self) -> DecoderView {
        DecoderView {
            format: self.format,
            channels: self.channels as nat,
            sample_rate: self.sample_rate as nat,
            total_frame_count: self.total_frame_count as nat,
            cursor: self.cursor as nat,
            open: self.open,
        }
    }
}

impl Decoder {
    /// Every decoder produces frames of a known format with at least one
    /// channel, at a rate that is not zero.
    pub open spec fn well_formed(&self) -> bool {
        self@.well_formed()
    }

    /// What `new` returns for the stream that the engine opened, or the fault
    /// that it reported instead.
    pub open spec fn open_result(
        config: Option<DecoderConfig>,
        opened: Result<StreamInfo, MiniaudioError>,
    ) -> Result<DecoderView, Error> {
        match opened {
            Err(fault) => Err(Error::MiniaudioError(fault)),
            Ok(info) => {
                if !info.readable() || (config matches Some(wanted) && !wanted.admits(info)) {
                    Err(Error::InvalidStream)
                } else {
                    Ok(
                        DecoderView {
                            format: info.format,
                            channels: info.channels as nat,
                            sample_rate: info.sample_rate as nat,
                            total_frame_count: info.total_frame_count as nat,
                            cursor: 0,
                            open: true,
                        },
                    )
                }
            },
        }
    }

    /// Makes the decoder of a stream that the engine was asked to open with
    /// `config`, from what the engine answered.
    pub fn new(
        config: Option<&DecoderConfig>,
        opened: Result<StreamInfo, MiniaudioError>,
    ) -> (result: Result<Decoder, Error>)
        ensures
            match (
                result,
                Self::open_result(
                    match config {
                        Some(wanted) => Some(*wanted),
                        None => None,
                    },
                    opened,
                ),
            ) {
                (Ok(decoder), Ok(view)) => decoder@ == view && decoder.well_formed(),
                (Err(error), Err(expected)) => error == expected,
                _ => false,
            },
    {
        let info = match opened {
            Err(fault) => {
                return Err(Error::MiniaudioError(fault));
            },
            Ok(info) => info,
        };
        if info.format == Format::Unknown || info.channels == 0 || info.sample_rate == 0 {
            return Err(Error::InvalidStream);
        }
        if let Some(wanted) = config {
            if wanted.format != Format::Unknown && wanted.format != info.format {
                return Err(Error::InvalidStream);
            }
            if wanted.channels != 0 && wanted.channels != info.channels {
                return Err(Error::InvalidStream);
            }
            if wanted.sample_rate != 0 && wanted.sample_rate != info.sample_rate {
                return Err(Error::InvalidStream);
            }
        }
        Ok(
            Decoder {
                format: info.format,
                channels: info.channels,
                sample_rate: info.sample_rate,
                total_frame_count: info.total_frame_count,
                cursor: 0,
                open: true,
            },
        )
    }

    pub fn format(&self) -> (format: Format)
        ensures
            format == self@.format,
    {
        self.format
    }

    pub fn channels(&self) -> (channels: usize)
        ensures
            channels == self@.channels,
    {
        self.channels
    }

    pub fn sample_rate(&self) -> (sample_rate: usize)
        ensures
            sample_rate == self@.sample_rate,
    {
        self.sample_rate
    }

    pub fn is_open(&self) -> (open: bool)
        ensures
            open == self@.open,
    {
        self.open
    }

    /// The number of frames of the whole stream.
    pub fn total_frame_count(&self) -> (result: Result<usize, Error>)
        ensures
            result == if self@.open {
                Ok::<usize, Error>(self@.total_frame_count as usize)
            } else {
                Err(Error::Closed)
            },
            result matches Ok(count) ==> count == self@.total_frame_count,
    {
        if self.open {
            Ok(self.total_frame_count)
        } else {
            Err(Error::Closed)
        }
    }

    /// The number of frames that are left to read.
    pub fn available_frame_count(&self) -> (result: Result<usize, Error>)
        ensures
            result == if self@.open {
                Ok::<usize, Error>(self@.available() as usize)
            } else {
                Err(Error::Closed)
            },
            result matches Ok(count) ==> count == self@.available(),
    {
        if !self.open {
            Err(Error::Closed)
        } else if self.cursor <= self.total_frame_count {
            Ok(self.total_frame_count - self.cursor)
        } else {
            Ok(0)
        }
    }

    /// Decides whether a seek to `frame_index` is to be handed to the engine.
    /// A seek to the end of the stream is; one beyond the end fails, and
    /// leaves the cursor where it is.
    pub fn check_seek(&self, frame_index: usize) -> (result: Result<(), Error>)
        ensures
            result == match self@.seek_refusal(frame_index as nat) {
                Some(error) => Err::<(), Error>(error),
                None => Ok(()),
            },
    {
        if !self.open {
            Err(Error::Closed)
        } else if frame_index > self.total_frame_count {
            Err(Error::SeekPastEnd)
        } else {
            Ok(())
        }
    }

    /// Moves the cursor to `frame_index`, the engine having answered `status`
    /// to that seek. A seek that `check_seek` refuses fails in the same way
    /// here, whatever `status` is.
    pub fn seek(&mut self, frame_index: usize, status: Result<(), MiniaudioError>) -> (result:
        Result<(), Error>)
        ensures
            result == old(self)@.seek_result(frame_index as nat, status),
            final(self)@ == old(self)@.after_seek(frame_index as nat, status),
            old(self).well_formed() ==> final(self).well_formed(),
            result is Ok ==> final(self)@.available() == old(self)@.total_frame_count
                - frame_index,
    {
        if let Err(error) = self.check_seek(frame_index) {
            return Err(error);
        }
        match status {
            Err(fault) => Err(Error::MiniaudioError(fault)),
            Ok(()) => {
                self.cursor = frame_index;
                Ok(())
            },
        }
    }

    /// Decides whether a read into `frames` is to be handed to the engine,
    /// and for how many frames at most.
    pub fn check_read(&self, frames: &FramesMut) -> (result: Result<usize, Error>)
        requires
            frames.well_formed(),
        ensures
            result == match self@.read_refusal(frames@.format, frames@.channels) {
                Some(error) => Err::<usize, Error>(error),
                None => Ok(frames@.frame_count() as usize),
            },
            result matches Ok(capacity) ==> capacity == frames@.frame_count(),
    {
        if !self.open {
            Err(Error::Closed)
        } else if frames.format() != self.format || frames.channels() != self.channels {
            Err(Error::ShapeMismatch)
        } else {
            Ok(frames.frame_count())
        }
    }

    /// Accounts for a read into `frames`, the engine having answered `status`
    /// and a count of `frames_read`. The end of the stream is no fault: the
    /// count, which is then zero or short, is returned.
    pub fn read(
        &mut self,
        frames: &FramesMut,
        status: Result<(), MiniaudioError>,
        frames_read: usize,
    ) -> (result: Result<usize, Error>)
        requires
            frames.well_formed(),
        ensures
            result == old(self)@.read_result(
                frames@.format,
                frames@.channels,
                frames@.frame_count(),
                status,
                frames_read,
            ),
            final(self)@ == old(self)@.after_read(
                frames@.format,
                frames@.channels,
                frames@.frame_count(),
                status,
                frames_read,
            ),
            old(self).well_formed() ==> final(self).well_formed(),
            result matches Ok(count) ==> count <= frames@.frame_count(),
    {
        let capacity = match self.check_read(frames) {
            Err(error) => {
                return Err(error);
            },
            Ok(capacity) => capacity,
        };
        if let Err(fault) = status {
            if !fault.at_end() {
                return Err(Error::MiniaudioError(fault));
            }
        }
        if frames_read > capacity {
            return Err(Error::ReadOverrun);
        }
        self.cursor = self.cursor.saturating_add(frames_read);
        Ok(frames_read)
    }

    /// Lets go of the stream. Returns whether the engine's handle is to be
    /// released now, which is so the first time only.
    pub fn close(&mut self) -> (release: bool)
        ensures
            release == old(self)@.open,
            final(self)@ == old(self)@.after_close(),
            old(self).well_formed() ==> final(self).well_formed(),
    {
        let release = self.open;
        self.open = false;
        release
    }
}

/// Closing a decoder twice is closing it once: the second call releases
/// nothing and changes nothing.
pub proof fn lemma_close_is_idempotent(decoder: DecoderView)
    ensures
        !decoder.after_close().open,
        decoder.after_close().after_close() == decoder.after_close(),
{
}

/// At the end of the stream a read returns zero and leaves the decoder as it
/// was, so that the next read returns zero again.
pub proof fn lemma_read_at_end_repeats(decoder: &Decoder, capacity: nat)
    requires
        decoder@.open,
    ensures
        decoder@.read_result(
            decoder@.format,
            decoder@.channels,
            capacity,
            Err(MiniaudioError::AtEnd),
            0,
        ) == Ok::<usize, Error>(0),
        decoder@.after_read(
            decoder@.format,
            decoder@.channels,
            capacity,
            Err(MiniaudioError::AtEnd),
            0,
        ) == decoder@,
{
}

/// The frames left to read are never more than the stream has, wherever the
/// cursor stands.
pub proof fn lemma_available_is_bounded(decoder: DecoderView)
    ensures
        0 <= decoder.available() <= decoder.total_frame_count,
        decoder.cursor >= decoder.total_frame_count ==> decoder.available() == 0,
        decoder.cursor <= decoder.total_frame_count ==> decoder.available() + decoder.cursor
            == decoder.total_frame_count,
{
}

} // verus!
