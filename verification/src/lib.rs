//! The core of an audio library: typed, bounds-checked views of raw PCM
//! buffers, and the rules of decoders, encoders, devices and streams.
//!
//! Nothing here reads a file or opens a device. The audio engine does that,
//! outside this crate; each function here takes what the engine answered and
//! decides what follows from it, and Verus proves that it decides as its
//! contract says.
//!
//! - `format`, `sample`: the sample formats and the numeric representations
//!   that they name.
//! - `frames`: views of a byte buffer as interleaved frames.
//! - `decoder`, `encoder`: a source and a sink of frames.
//! - `device`: a device, its life, and the period that its callback serves.
//! - `stream`: a transform between a source and a sink, or inside a device.

pub mod decoder;
pub mod device;
pub mod encoder;
pub mod format;
pub mod frames;
pub mod miniaudio_error;
pub mod sample;
pub mod stream;

pub use decoder::Decoder;
pub use decoder::DecoderConfig;
pub use device::Device;
pub use encoder::Encoder;
pub use encoder::EncoderConfig;
pub use encoder::EncodingFormat;
pub use format::Format;
pub use frames::Frames;
pub use frames::FramesMut;
pub use sample::Sample;
pub use stream::CodecStream;
pub use stream::DeviceStream;
pub use stream::Stream;
