use tinyaudio::decoder::StreamInfo;
use tinyaudio::miniaudio_error::MiniaudioError;
use tinyaudio::Decoder;
use tinyaudio::DecoderConfig;
use tinyaudio::Encoder;
use tinyaudio::EncoderConfig;
use tinyaudio::EncodingFormat;
use tinyaudio::Format;
use tinyaudio::Frames;
use tinyaudio::FramesMut;

/// What stands in for the engine and its file: the frames that were written,
/// byte for byte.
struct File {
    bytes: Vec<u8>,
    width: usize,
    position: usize,
}

impl File {
    fn write(&mut self, frames: &Frames, count: usize) -> Result<usize, MiniaudioError> {
        self.bytes.extend_from_slice(&frames.as_bytes()[..count * self.width]);
        Ok(count)
    }

    fn read(&mut self, frames: &mut FramesMut, count: usize) -> (Result<(), MiniaudioError>, usize) {
        let left = self.bytes.len() / self.width - self.position;
        let read = count.min(left);
        let from = self.position * self.width;
        let to = from + read * self.width;
        frames.as_bytes_mut()[..read * self.width].copy_from_slice(&self.bytes[from..to]);
        self.position += read;
        if read < count {
            (Err(MiniaudioError::AtEnd), read)
        } else {
            (Ok(()), read)
        }
    }
}

fn round_trip(format: Format, channels: usize, sample_rate: usize, frame_count: usize, period: usize) {
    let width = format.size_in_bytes() * channels;
    let written: Vec<u8> = (0..frame_count * width).map(|index| (index * 7 + 3) as u8).collect();
    let mut file = File { bytes: Vec::new(), width, position: 0 };

    let config = EncoderConfig::new(EncodingFormat::Wav, format, channels, sample_rate);
    let mut encoder = Encoder::new(&config, Ok(())).unwrap();
    let mut total_written = 0;
    for chunk in written.chunks(period * width) {
        let frames = Frames::wrap(chunk, format, channels);
        let offered = encoder.check_write(&frames).unwrap();
        let outcome = file.write(&frames, offered);
        total_written += encoder.write(&frames, outcome).unwrap();
    }
    assert_eq!(total_written, frame_count);
    assert_eq!(encoder.frames_written(), frame_count);
    assert!(encoder.close());

    let config = DecoderConfig::new(format, channels, sample_rate);
    let info = StreamInfo {
        format,
        channels,
        sample_rate,
        total_frame_count: file.bytes.len() / width,
    };
    let mut decoder = Decoder::new(Some(&config), Ok(info)).unwrap();
    assert_eq!(decoder.total_frame_count(), Ok(frame_count));
    let mut buffer = vec![0_u8; period * width];
    let mut read_back = Vec::new();
    let mut total_read = 0;
    loop {
        let mut frames = FramesMut::wrap(&mut buffer, format, channels);
        let capacity = decoder.check_read(&frames).unwrap();
        let (status, frames_read) = file.read(&mut frames, capacity);
        let frames_read = decoder.read(&frames, status, frames_read).unwrap();
        if frames_read == 0 {
            break;
        }
        total_read += frames_read;
        read_back.extend_from_slice(&frames.as_bytes()[..frames_read * width]);
    }
    assert_eq!(total_read, frame_count);
    assert_eq!(read_back, written);
    assert_eq!(decoder.available_frame_count(), Ok(0));
    assert!(decoder.close());
}

#[test]
fn frames_that_are_written_are_read_back_byte_for_byte() {
    round_trip(Format::U8, 1, 8000, 1000, 128);
    round_trip(Format::S16, 2, 44100, 1000, 128);
    round_trip(Format::S24, 2, 48000, 333, 64);
    round_trip(Format::S32, 6, 96000, 129, 128);
    round_trip(Format::S16, 1, 8000, 128, 128);
    round_trip(Format::S16, 1, 8000, 0, 128);
}
