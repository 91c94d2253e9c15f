use tinyaudio::decoder::Error;
use tinyaudio::decoder::StreamInfo;
use tinyaudio::miniaudio_error::MiniaudioError;
use tinyaudio::Decoder;
use tinyaudio::DecoderConfig;
use tinyaudio::Format;
use tinyaudio::FramesMut;

const FORMAT: Format = Format::F32;
const CHANNELS: usize = 2;
const SAMPLE_RATE: usize = 44100;
const FRAME_COUNT: usize = 128;
const TOTAL_FRAME_COUNT: usize = 44100 + 57;

/// What stands in for the engine: a stream of a known number of frames, whose
/// bytes count up from zero.
struct Engine {
    info: StreamInfo,
    position: usize,
}

impl Engine {
    fn open(config: Option<&DecoderConfig>) -> Engine {
        let mut info = StreamInfo {
            format: Format::S16,
            channels: 1,
            sample_rate: 48000,
            total_frame_count: TOTAL_FRAME_COUNT,
        };
        if let Some(config) = config {
            if config.format() != Format::Unknown {
                info.format = config.format();
            }
            if config.channels() != 0 {
                info.channels = config.channels();
            }
            if config.sample_rate() != 0 {
                info.sample_rate = config.sample_rate();
            }
        }
        Engine { info, position: 0 }
    }

    fn read(&mut self, frames: &mut FramesMut, count: usize) -> (Result<(), MiniaudioError>, usize) {
        let left = self.info.total_frame_count - self.position;
        let read = count.min(left);
        let width = self.info.format.size_in_bytes() * self.info.channels;
        for (index, byte) in frames.as_bytes_mut()[..read * width].iter_mut().enumerate() {
            *byte = (self.position * width + index) as u8;
        }
        self.position += read;
        if read < count {
            (Err(MiniaudioError::AtEnd), read)
        } else {
            (Ok(()), read)
        }
    }

    fn seek(&mut self, frame_index: usize) -> Result<(), MiniaudioError> {
        if frame_index > self.info.total_frame_count {
            return Err(MiniaudioError::BadSeek);
        }
        self.position = frame_index;
        Ok(())
    }
}

fn open(config: Option<&DecoderConfig>) -> (Decoder, Engine) {
    let engine = Engine::open(config);
    let decoder = Decoder::new(config, Ok(engine.info)).unwrap();
    (decoder, engine)
}

fn read(decoder: &mut Decoder, engine: &mut Engine, frames: &mut FramesMut) -> Result<usize, Error> {
    let capacity = decoder.check_read(frames)?;
    let (status, frames_read) = engine.read(frames, capacity);
    decoder.read(frames, status, frames_read)
}

fn seek(decoder: &mut Decoder, engine: &mut Engine, frame_index: usize) -> Result<(), Error> {
    decoder.check_seek(frame_index)?;
    let status = engine.seek(frame_index);
    decoder.seek(frame_index, status)
}

#[test]
fn decoder_test_metadata() {
    let (decoder, _engine) = open(None);

    assert_ne!(decoder.format(), Format::Unknown);
    assert!(decoder.channels() > 0);
    assert!(decoder.sample_rate() > 0);
    assert!(decoder.total_frame_count().unwrap() > 0);
    assert_eq!(
        decoder.available_frame_count().unwrap(),
        decoder.total_frame_count().unwrap()
    );
}

#[test]
fn test_metadata_with_config() {
    let config = DecoderConfig::new(FORMAT, CHANNELS, SAMPLE_RATE);
    let (decoder, _engine) = open(Some(&config));

    assert_eq!(decoder.format(), FORMAT);
    assert_eq!(decoder.channels(), CHANNELS);
    assert_eq!(decoder.sample_rate(), SAMPLE_RATE);
    assert!(decoder.total_frame_count().unwrap() > 0);
    assert_eq!(
        decoder.available_frame_count().unwrap(),
        decoder.total_frame_count().unwrap()
    );
}

#[test]
fn test_seek() {
    let (mut decoder, mut engine) = open(None);

    let total = decoder.total_frame_count().unwrap();
    seek(&mut decoder, &mut engine, total).unwrap();
    assert_eq!(decoder.available_frame_count().unwrap(), 0);

    seek(&mut decoder, &mut engine, 0).unwrap();
    assert_eq!(
        decoder.available_frame_count().unwrap(),
        decoder.total_frame_count().unwrap()
    );
}

#[test]
fn test_read() {
    let (mut decoder, mut engine) = open(None);

    let buffer_size = decoder.format().size_in_bytes() * decoder.channels() * FRAME_COUNT;
    let mut buffer = vec![0_u8; buffer_size];
    let mut frames = FramesMut::wrap(&mut buffer, decoder.format(), decoder.channels());
    let mut total_frames_read = 0;

    loop {
        match read(&mut decoder, &mut engine, &mut frames).unwrap() {
            0 => break,
            frames_read => total_frames_read += frames_read,
        }
    }

    assert_eq!(total_frames_read, decoder.total_frame_count().unwrap());
}

#[test]
fn test_read_with_config() {
    let config = DecoderConfig::new(FORMAT, CHANNELS, SAMPLE_RATE);
    let (mut decoder, mut engine) = open(Some(&config));

    let buffer_size = decoder.format().size_in_bytes() * decoder.channels() * FRAME_COUNT;
    let mut buffer = vec![0_u8; buffer_size];
    let mut frames = FramesMut::wrap(&mut buffer, decoder.format(), decoder.channels());
    let mut total_frames_read = 0;

    loop {
        match read(&mut decoder, &mut engine, &mut frames).unwrap() {
            0 => break,
            frames_read => total_frames_read += frames_read,
        }
    }

    assert!(total_frames_read + frames.frame_count() >= decoder.total_frame_count().unwrap());
}

#[test]
fn decoder_test_close() {
    let (mut decoder, _engine) = open(None);

    assert!(decoder.is_open());
    decoder.close();
    assert!(!decoder.is_open());
}

#[test]
fn reading_a_stereo_float_stream_in_periods_reads_every_frame() {
    let config = DecoderConfig::new(Format::F32, 2, 44100);
    let (mut decoder, mut engine) = open(Some(&config));
    assert_eq!(decoder.format(), Format::F32);
    assert_eq!(decoder.channels(), 2);
    assert_eq!(decoder.sample_rate(), 44100);

    let mut buffer = vec![0_u8; 4 * 2 * 128];
    let mut frames = FramesMut::wrap(&mut buffer, Format::F32, 2);
    let mut sum = 0;
    let mut reads = 0;
    loop {
        let frames_read = read(&mut decoder, &mut engine, &mut frames).unwrap();
        reads += 1;
        if frames_read == 0 {
            break;
        }
        assert!(frames_read <= 128);
        sum += frames_read;
        assert_eq!(
            decoder.available_frame_count().unwrap(),
            TOTAL_FRAME_COUNT - sum
        );
    }
    assert_eq!(sum, TOTAL_FRAME_COUNT);
    assert_eq!(reads, TOTAL_FRAME_COUNT / 128 + 2);
    assert_eq!(decoder.available_frame_count().unwrap(), 0);
}

#[test]
fn a_read_at_the_end_returns_zero_again_and_again() {
    let (mut decoder, mut engine) = open(None);
    let total = decoder.total_frame_count().unwrap();
    seek(&mut decoder, &mut engine, total).unwrap();

    let mut buffer = vec![0_u8; 2 * 16];
    let mut frames = FramesMut::wrap(&mut buffer, Format::S16, 1);
    for _ in 0..5 {
        assert_eq!(read(&mut decoder, &mut engine, &mut frames), Ok(0));
        assert_eq!(decoder.available_frame_count(), Ok(0));
    }
    assert_eq!(decoder.read(&frames, Err(MiniaudioError::AtEnd), 0), Ok(0));
    assert_eq!(decoder.read(&frames, Ok(()), 0), Ok(0));
}

#[test]
fn available_frames_stop_at_zero_when_the_cursor_passes_the_end() {
    let info = StreamInfo {
        format: Format::U8,
        channels: 1,
        sample_rate: 8000,
        total_frame_count: 10,
    };
    let mut decoder = Decoder::new(None, Ok(info)).unwrap();
    let mut buffer = vec![0_u8; 8];
    let frames = FramesMut::wrap(&mut buffer, Format::U8, 1);
    assert_eq!(decoder.read(&frames, Ok(()), 8), Ok(8));
    assert_eq!(decoder.available_frame_count(), Ok(2));
    assert_eq!(decoder.read(&frames, Ok(()), 8), Ok(8));
    assert_eq!(decoder.available_frame_count(), Ok(0));
    assert_eq!(decoder.read(&frames, Ok(()), 8), Ok(8));
    assert_eq!(decoder.available_frame_count(), Ok(0));
    assert_eq!(decoder.total_frame_count(), Ok(10));
}

#[test]
fn a_short_read_at_the_end_is_no_fault() {
    let info = StreamInfo {
        format: Format::U8,
        channels: 2,
        sample_rate: 8000,
        total_frame_count: 5,
    };
    let mut decoder = Decoder::new(None, Ok(info)).unwrap();
    let mut buffer = vec![0_u8; 2 * 4];
    let frames = FramesMut::wrap(&mut buffer, Format::U8, 2);
    assert_eq!(decoder.read(&frames, Ok(()), 4), Ok(4));
    assert_eq!(decoder.read(&frames, Err(MiniaudioError::AtEnd), 1), Ok(1));
    assert_eq!(decoder.available_frame_count(), Ok(0));
    assert_eq!(decoder.read(&frames, Err(MiniaudioError::AtEnd), 0), Ok(0));
}

#[test]
fn a_fault_of_the_engine_is_handed_on() {
    assert_eq!(
        Decoder::new(None, Err(MiniaudioError::DoesNotExist)).err(),
        Some(Error::MiniaudioError(MiniaudioError::DoesNotExist))
    );
    assert_eq!(
        Decoder::new(None, Err(MiniaudioError::InvalidFile)).err(),
        Some(Error::MiniaudioError(MiniaudioError::InvalidFile))
    );

    let (mut decoder, _engine) = open(None);
    let mut buffer = vec![0_u8; 2 * 4];
    let frames = FramesMut::wrap(&mut buffer, Format::S16, 1);
    assert_eq!(
        decoder.read(&frames, Err(MiniaudioError::IoError), 0),
        Err(Error::MiniaudioError(MiniaudioError::IoError))
    );
    assert_eq!(decoder.available_frame_count(), Ok(TOTAL_FRAME_COUNT));
    assert_eq!(
        decoder.seek(3, Err(MiniaudioError::BadSeek)),
        Err(Error::MiniaudioError(MiniaudioError::BadSeek))
    );
    assert_eq!(decoder.available_frame_count(), Ok(TOTAL_FRAME_COUNT));
}

#[test]
fn a_stream_that_is_not_what_was_asked_for_is_refused() {
    let info = StreamInfo {
        format: Format::S16,
        channels: 2,
        sample_rate: 44100,
        total_frame_count: 10,
    };
    let config = DecoderConfig::new(Format::F32, 0, 0);
    assert_eq!(Decoder::new(Some(&config), Ok(info)).err(), Some(Error::InvalidStream));
    let config = DecoderConfig::new(Format::Unknown, 1, 0);
    assert_eq!(Decoder::new(Some(&config), Ok(info)).err(), Some(Error::InvalidStream));
    let config = DecoderConfig::new(Format::Unknown, 0, 8000);
    assert_eq!(Decoder::new(Some(&config), Ok(info)).err(), Some(Error::InvalidStream));
    let config = DecoderConfig::new(Format::S16, 2, 44100);
    assert!(Decoder::new(Some(&config), Ok(info)).is_ok());
    assert!(Decoder::new(Some(&DecoderConfig::default()), Ok(info)).is_ok());

    let unknown = StreamInfo { format: Format::Unknown, ..info };
    assert_eq!(Decoder::new(None, Ok(unknown)).err(), Some(Error::InvalidStream));
    let silent = StreamInfo { channels: 0, ..info };
    assert_eq!(Decoder::new(None, Ok(silent)).err(), Some(Error::InvalidStream));
    let still = StreamInfo { sample_rate: 0, ..info };
    assert_eq!(Decoder::new(None, Ok(still)).err(), Some(Error::InvalidStream));
}

#[test]
fn a_seek_past_the_end_is_refused() {
    let (mut decoder, mut engine) = open(None);
    assert_eq!(decoder.check_seek(TOTAL_FRAME_COUNT), Ok(()));
    assert_eq!(decoder.check_seek(TOTAL_FRAME_COUNT + 1), Err(Error::SeekPastEnd));
    assert_eq!(
        seek(&mut decoder, &mut engine, TOTAL_FRAME_COUNT + 1),
        Err(Error::SeekPastEnd)
    );
    assert_eq!(decoder.seek(TOTAL_FRAME_COUNT + 1, Ok(())), Err(Error::SeekPastEnd));
    assert_eq!(decoder.available_frame_count(), Ok(TOTAL_FRAME_COUNT));
    seek(&mut decoder, &mut engine, 100).unwrap();
    assert_eq!(decoder.available_frame_count(), Ok(TOTAL_FRAME_COUNT - 100));
}

#[test]
fn a_view_of_another_shape_is_refused() {
    let (mut decoder, _engine) = open(None);
    let mut buffer = vec![0_u8; 16];
    let frames = FramesMut::wrap(&mut buffer, Format::S16, 2);
    assert_eq!(decoder.check_read(&frames), Err(Error::ShapeMismatch));
    assert_eq!(decoder.read(&frames, Ok(()), 1), Err(Error::ShapeMismatch));
    let frames = FramesMut::wrap(&mut buffer, Format::U8, 1);
    assert_eq!(decoder.read(&frames, Ok(()), 1), Err(Error::ShapeMismatch));
    let frames = FramesMut::wrap(&mut buffer, Format::S16, 1);
    assert_eq!(decoder.check_read(&frames), Ok(8));
}

#[test]
fn a_count_above_the_capacity_is_refused() {
    let (mut decoder, _engine) = open(None);
    let mut buffer = vec![0_u8; 16];
    let frames = FramesMut::wrap(&mut buffer, Format::S16, 1);
    assert_eq!(decoder.read(&frames, Ok(()), 9), Err(Error::ReadOverrun));
    assert_eq!(decoder.available_frame_count(), Ok(TOTAL_FRAME_COUNT));
    assert_eq!(decoder.read(&frames, Ok(()), 8), Ok(8));
}

#[test]
fn closing_twice_releases_once() {
    let (mut decoder, _engine) = open(None);
    assert!(decoder.close());
    assert!(!decoder.close());
    assert!(!decoder.close());
    assert!(!decoder.is_open());
    assert_eq!(decoder.format(), Format::S16);
}

#[test]
fn a_closed_decoder_refuses() {
    let (mut decoder, _engine) = open(None);
    decoder.close();
    let mut buffer = vec![0_u8; 16];
    let frames = FramesMut::wrap(&mut buffer, Format::S16, 1);
    assert_eq!(decoder.total_frame_count(), Err(Error::Closed));
    assert_eq!(decoder.available_frame_count(), Err(Error::Closed));
    assert_eq!(decoder.check_seek(0), Err(Error::Closed));
    assert_eq!(decoder.seek(0, Ok(())), Err(Error::Closed));
    assert_eq!(decoder.check_read(&frames), Err(Error::Closed));
    assert_eq!(decoder.read(&frames, Ok(()), 1), Err(Error::Closed));
}

#[test]
fn a_configuration_holds_what_it_is_given() {
    let mut config = DecoderConfig::new(Format::S24, 6, 96000);
    assert_eq!(config.format(), Format::S24);
    assert_eq!(config.channels(), 6);
    assert_eq!(config.sample_rate(), 96000);
    config.set_format(Format::U8);
    config.set_channels(1);
    config.set_sample_rate(8000);
    assert_eq!(config.format(), Format::U8);
    assert_eq!(config.channels(), 1);
    assert_eq!(config.sample_rate(), 8000);
    let default = DecoderConfig::default();
    assert_eq!(default.format(), Format::Unknown);
    assert_eq!(default.channels(), 0);
    assert_eq!(default.sample_rate(), 0);
}
