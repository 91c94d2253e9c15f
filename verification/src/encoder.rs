use crate::format::Format;
use crate::frames::Frames;
use crate::miniaudio_error::MiniaudioError;
use vstd::prelude::*;

verus! {

/// Why an operation on an encoder did not succeed.
#[derive(Debug, Clone, Copy, PartialEq, Eq, Structural)]
pub enum EncoderError {
    /// The engine reported a fault.
    MiniaudioError(MiniaudioError),
    /// The configuration names no container, no format, no channel or no
    /// rate.
    InvalidConfig,
    /// The encoder has been closed.
    Closed,
    /// The view to write from has another format or channel count than the
    /// encoder.
    ShapeMismatch,
    /// The engine claims to have written more frames than the view holds.
    WriteOverrun,
}

impl From<MiniaudioError> for EncoderError {
    fn from(fault: MiniaudioError) -> (error: EncoderError) {
        EncoderError::MiniaudioError(fault)
    }
}

impl vstd::std_specs::convert::FromSpecImpl<MiniaudioError> for EncoderError {
    open spec fn obeys_from_spec() -> bool {
        true
    }

    open spec fn from_spec(fault: MiniaudioError) -> EncoderError {
        EncoderError::MiniaudioError(fault)
    }
}

/// The container that an encoder writes.
#[derive(Debug, Clone, Copy, PartialEq, Eq, Structural)]
pub enum EncodingFormat {
    Unknown,
    Wav,
    Flac,
    Mp3,
    Vorbis,
}

/// What an encoder is asked to write: the container, and the format, channel
/// count and rate of the frames that it will be given.
#[derive(Debug, Clone, Copy, PartialEq, Eq, Structural)]
pub struct EncoderConfig {
    encoding_format: EncodingFormat,
    format: Format,
    channels: usize,
    sample_rate: usize,
}

/// What an encoder configuration holds.
pub struct EncoderConfigView {
    pub encoding_format: EncodingFormat,
    pub format: Format,
    pub channels: nat,
    pub sample_rate: nat,
}

impl EncoderConfigView {
    /// Whether an encoder can be made for this configuration.
    pub open spec fn valid(self) -> bool {
        &&& self.encoding_format != EncodingFormat::Unknown
        &&& self.format != Format::Unknown
        &&& self.channels > 0
        &&& self.sample_rate > 0
    }
}

impl View for EncoderConfig {
    type V = EncoderConfigView;

    closed spec fn view(&self) -> EncoderConfigView {
        EncoderConfigView {
            encoding_format: self.encoding_format,
            format: self.format,
            channels: self.channels as nat,
            sample_rate: self.sample_rate as nat,
        }
    }
}

impl EncoderConfig {
    pub fn new(
        encoding_format: EncodingFormat,
        format: Format,
        channels: usize,
        sample_rate: usize,
    ) -> (config: Self)
        ensures
            config@ == (EncoderConfigView {
                encoding_format,
                format,
                channels: channels as nat,
                sample_rate: sample_rate as nat,
            }),
    {
        EncoderConfig { encoding_format, format, channels, sample_rate }
    }

    pub fn encoding_format(&self) -> (encoding_format: EncodingFormat)
        ensures
            encoding_format == self@.encoding_format,
    {
        self.encoding_format
    }

    pub fn set_encoding_format(&mut self, encoding_format: EncodingFormat)
        ensures
            final(self)@ == (EncoderConfigView { encoding_format, ..old(self)@ }),
    {
        self.encoding_format = encoding_format;
    }

    pub fn format(&self) -> (format: Format)
        ensures
            format == self@.format,
    {
        self.format
    }

    pub fn set_format(&mut self, format: Format)
        ensures
            final(self)@ == (EncoderConfigView { format, ..old(self)@ }),
    {
        self.format = format;
    }

    pub fn channels(&self) -> (channels: usize)
        ensures
            channels == self@.channels,
    {
        self.channels
    }

    pub fn set_channels(&mut self, channels: usize)
        ensures
            final(self)@ == (EncoderConfigView { channels: channels as nat, ..old(self)@ }),
    {
        self.channels = channels;
    }

    pub fn sample_rate(&self) -> (sample_rate: usize)
        ensures
            sample_rate == self@.sample_rate,
    {
        self.sample_rate
    }

    pub fn set_sample_rate(&mut self, sample_rate: usize)
        ensures
            final(self)@ == (EncoderConfigView { sample_rate: sample_rate as nat, ..old(self)@ }),
    {
        self.sample_rate = sample_rate;
    }

    /// Decides whether the engine is to be asked for an encoder of this
    /// configuration.
    pub fn validate(&self) -> (result: Result<(), EncoderError>)
        ensures
            result == if self@.valid() {
                Ok::<(), EncoderError>(())
            } else {
                Err(EncoderError::InvalidConfig)
            },
    {
        if self.encoding_format == EncodingFormat::Unknown || self.format == Format::Unknown
            || self.channels == 0 || self.sample_rate == 0 {
            Err(EncoderError::InvalidConfig)
        } else {
            Ok(())
        }
    }
}

/// What an encoder is: what it writes, how many frames it has written, and
/// whether it still holds its stream.
pub struct EncoderView {
    pub config: EncoderConfigView,
    pub frames_written: nat,
    pub open: bool,
}

impl EncoderView {
    /// Why a write from a view of `format` and `channels` is not handed to
    /// the engine, if it is not.
    pub open spec fn write_refusal(self, format: Format, channels: nat) -> Option<EncoderError> {
        if !self.open {
            Some(EncoderError::Closed)
        } else if format != self.config.format || channels != self.config.channels {
            Some(EncoderError::ShapeMismatch)
        } else {
            None
        }
    }

    /// What a write from a view of `offered` frames returns, the engine
    /// having answered `outcome`.
    pub open spec fn write_result(
        self,
        format: Format,
        channels: nat,
        offered: nat,
        outcome: Result<usize, MiniaudioError>,
    ) -> Result<usize, EncoderError> {
        match self.write_refusal(format, channels) {
            Some(error) => Err(error),
            None => match outcome {
                Err(fault) => Err(EncoderError::MiniaudioError(fault)),
                Ok(frames_written) => if frames_written > offered {
                    Err(EncoderError::WriteOverrun)
                } else {
                    Ok(frames_written)
                },
            },
        }
    }

    /// The encoder after that write. The count stops at the largest that the
    /// machine can hold.
    pub open spec fn after_write(
        self,
        format: Format,
        channels: nat,
        offered: nat,
        outcome: Result<usize, MiniaudioError>,
    ) -> EncoderView {
        match self.write_result(format, channels, offered, outcome) {
            Ok(frames_written) => EncoderView {
                frames_written: if self.frames_written + frames_written <= usize::MAX {
                    (self.frames_written + frames_written) as nat
                } else {
                    usize::MAX as nat
                },
                ..self
            },
            Err(_) => self,
        }
    }

    /// The encoder after `close`.
    pub open spec fn after_close(self) -> EncoderView {
        EncoderView { open: false, ..self }
    }
}

/// A sink of frames that hands them to a stream which the engine encodes.
#[derive(Debug)]
pub struct Encoder {
    config: EncoderConfig,
    frames_written: usize,
    open: bool,
}

impl View for Encoder {
    type V = EncoderView;

    closed spec fn view(&self) -> EncoderView {
        EncoderView {
            config: self.config@,
            frames_written: self.frames_written as nat,
            open: self.open,
        }
    }
}

impl Encoder {
    /// Every encoder was made for a valid configuration.
    pub open spec fn well_formed(&self) -> bool {
        self@.config.valid()
    }

    /// What `new` returns for `config`, the engine having answered `opened`
    /// to the request to open the stream. An invalid configuration is
    /// refused whatever the engine answered.
    pub open spec fn open_result(config: EncoderConfigView, opened: Result<(), MiniaudioError>)
        -> Result<EncoderView, EncoderError> {
        if !config.valid() {
            Err(EncoderError::InvalidConfig)
        } else {
            match opened {
                Err(fault) => Err(EncoderError::MiniaudioError(fault)),
                Ok(()) => Ok(EncoderView { config, frames_written: 0, open: true }),
            }
        }
    }

    /// Makes the encoder of a stream that the engine was asked to open with
    /// `config`, from what the engine answered.
    pub fn new(config: &EncoderConfig, opened: Result<(), MiniaudioError>) -> (result: Result<
        Encoder,
        EncoderError,
    >)
        ensures
            match (result, Self::open_result(config@, opened)) {
                (Ok(encoder), Ok(view)) => encoder@ == view && encoder.well_formed(),
                (Err(error), Err(expected)) => error == expected,
                _ => false,
            },
    {
        if let Err(error) = config.validate() {
            return Err(error);
        }
        match opened {
            Err(fault) => Err(EncoderError::MiniaudioError(fault)),
            Ok(()) => Ok(Encoder { config: *config, frames_written: 0, open: true }),
        }
    }

    pub fn encoding_format(&self) -> (encoding_format: EncodingFormat)
        ensures
            encoding_format == self@.config.encoding_format,
    {
        self.config.encoding_format
    }

    pub fn format(&self) -> (format: Format)
        ensures
            format == self@.config.format,
    {
        self.config.format
    }

    pub fn channels(&self) -> (channels: usize)
        ensures
            channels == self@.config.channels,
    {
        self.config.channels
    }

    pub fn sample_rate(&self) -> (sample_rate: usize)
        ensures
            sample_rate == self@.config.sample_rate,
    {
        self.config.sample_rate
    }

    pub fn is_open(&self) -> (open: bool)
        ensures
            open == self@.open,
    {
        self.open
    }

    /// The number of frames written so far.
    pub fn frames_written(&self) -> (count: usize)
        ensures
            count == self@.frames_written,
    {
        self.frames_written
    }

    /// Decides whether a write from `frames` is to be handed to the engine,
    /// and of how many frames.
    pub fn check_write(&self, frames: &Frames) -> (result: Result<usize, EncoderError>)
        requires
            frames.well_formed(),
        ensures
            result == match self@.write_refusal(frames@.format, frames@.channels) {
                Some(error) => Err::<usize, EncoderError>(error),
                None => Ok(frames@.frame_count() as usize),
            },
            result matches Ok(offered) ==> offered == frames@.frame_count(),
    {
        if !self.open {
            Err(EncoderError::Closed)
        } else if frames.format() != self.config.format || frames.channels()
            != self.config.channels {
            Err(EncoderError::ShapeMismatch)
        } else {
            Ok(frames.frame_count())
        }
    }

    /// Accounts for a write from `frames`, the engine having answered
    /// `outcome`: the number of frames that it wrote, or a fault.
    pub fn write(&mut self, frames: &Frames, outcome: Result<usize, MiniaudioError>) -> (result:
        Result<usize, EncoderError>)
        requires
            frames.well_formed(),
        ensures
            result == old(self)@.write_result(
                frames@.format,
                frames@.channels,
                frames@.frame_count(),
                outcome,
            ),
            final(self)@ == old(self)@.after_write(
                frames@.format,
                frames@.channels,
                frames@.frame_count(),
                outcome,
            ),
            result matches Ok(count) ==> count <= frames@.frame_count(),
    {
        let offered = match self.check_write(frames) {
            Err(error) => {
                return Err(error);
            },
            Ok(offered) => offered,
        };
        match outcome {
            Err(fault) => Err(EncoderError::MiniaudioError(fault)),
            Ok(frames_written) => {
                if frames_written > offered {
                    return Err(EncoderError::WriteOverrun);
                }
                self.frames_written = self.frames_written.saturating_add(frames_written);
                Ok(frames_written)
            },
        }
    }

    /// Lets go of the stream. Returns whether the engine's handle is to be
    /// released now, which is so the first time only.
    pub fn close(&mut self) -> (release: bool)
        ensures
            release == old(self)@.open,
            final(self)@ == old(self)@.after_close(),
    {
        let release = self.open;
        self.open = false;
        release
    }
}

/// Closing an encoder twice is closing it once: the second call releases
/// nothing and changes nothing.
pub proof fn lemma_close_is_idempotent(encoder: EncoderView)
    ensures
        !encoder.after_close().open,
        encoder.after_close().after_close() == encoder.after_close(),
{
}

} // verus!
