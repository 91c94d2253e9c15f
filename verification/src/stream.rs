pub mod codec_stream;
pub mod device_stream;
pub mod stream;

pub use codec_stream::CodecStream;
pub use device_stream::DeviceStream;
pub use stream::Released;
pub use stream::Stream;
