use std::cell::RefCell;
use std::rc::Rc;
use tinyaudio::decoder::StreamInfo;
use tinyaudio::miniaudio_error::MiniaudioError;
use tinyaudio::stream::codec_stream::encoder_config;
use tinyaudio::stream::codec_stream::Error;
use tinyaudio::stream::codec_stream::Phase;
use tinyaudio::stream::codec_stream::Step;
use tinyaudio::stream::Released;
use tinyaudio::CodecStream;
use tinyaudio::Decoder;
use tinyaudio::DecoderConfig;
use tinyaudio::Encoder;
use tinyaudio::EncoderConfig;
use tinyaudio::EncodingFormat;
use tinyaudio::Format;
use tinyaudio::Frames;
use tinyaudio::FramesMut;
use tinyaudio::Stream;

const FORMAT: Format = Format::F32;
const CHANNELS: usize = 1;
const SAMPLE_RATE: usize = 8000;
const FRAME_COUNT: usize = 128;
const TOTAL_FRAME_COUNT: usize = 1000;

type Transform = fn(&Frames, FramesMut);

/// What stands in for the engine on the side of the source: a stream of
/// `total` frames whose bytes count up from one.
struct Source {
    width: usize,
    total: usize,
    position: usize,
    fault: Option<MiniaudioError>,
}

impl Source {
    fn read(&mut self, frames: &mut FramesMut, count: usize) -> (Result<(), MiniaudioError>, usize) {
        if let Some(fault) = self.fault {
            return (Err(fault), 0);
        }
        let read = count.min(self.total - self.position);
        for (index, byte) in frames.as_bytes_mut()[..read * self.width].iter_mut().enumerate() {
            *byte = (self.position * self.width + index + 1) as u8;
        }
        self.position += read;
        if read < count {
            (Err(MiniaudioError::AtEnd), read)
        } else {
            (Ok(()), read)
        }
    }
}

/// What stands in for the engine on the side of the sink: it keeps the bytes
/// of every frame that it is offered.
struct Sink {
    written: Vec<u8>,
    fault: Option<MiniaudioError>,
}

impl Sink {
    fn write(&mut self, frames: &Frames) -> Result<usize, MiniaudioError> {
        if let Some(fault) = self.fault {
            return Err(fault);
        }
        self.written.extend_from_slice(frames.as_bytes());
        Ok(frames.frame_count())
    }
}

fn open(format: Format, channels: usize, sample_rate: usize, total: usize) -> (Decoder, Encoder) {
    let config = DecoderConfig::new(format, channels, sample_rate);
    let info = StreamInfo { format, channels, sample_rate, total_frame_count: total };
    let decoder = Decoder::new(Some(&config), Ok(info)).unwrap();
    let encoder = Encoder::new(&encoder_config(&decoder), Ok(())).unwrap();
    (decoder, encoder)
}

/// Runs a started stream to its end, as the loop around the engine does.
fn run<F: Fn(&Frames, FramesMut)>(
    stream: &mut CodecStream<F>,
    source: &mut Source,
    sink: &mut Sink,
) -> Result<usize, Error> {
    let mut periods = 0;
    loop {
        let (status, frames_read) = {
            let mut frames = stream.input_frames();
            let capacity = frames.frame_count();
            source.read(&mut frames, capacity)
        };
        match stream.decoded(status, frames_read)? {
            Step::Done => return Ok(periods),
            Step::Write => {
                let outcome = sink.write(&stream.output_frames());
                stream.encoded(outcome)?;
                periods += 1;
            }
        }
    }
}

#[test]
fn codec_stream_it_works() {
    let (decoder, encoder) = open(FORMAT, CHANNELS, SAMPLE_RATE, TOTAL_FRAME_COUNT);
    let mut stream = CodecStream::new(decoder, encoder, FRAME_COUNT).unwrap();
    let mut source = Source { width: 4, total: TOTAL_FRAME_COUNT, position: 0, fault: None };
    let mut sink = Sink { written: Vec::new(), fault: None };

    stream
        .start(|input_frames: &Frames, mut output_frames: FramesMut| {
            let count = input_frames.byte_count();
            output_frames.as_bytes_mut()[..count].copy_from_slice(input_frames.as_bytes())
        })
        .unwrap();
    run(&mut stream, &mut source, &mut sink).unwrap();
}

#[test]
fn a_codec_stream_takes_the_shape_of_its_source() {
    let (decoder, encoder) = open(Format::S16, 2, 44100, 10);
    assert_eq!(encoder.encoding_format(), EncodingFormat::Wav);
    assert_eq!(encoder.format(), Format::S16);
    assert_eq!(encoder.channels(), 2);
    assert_eq!(encoder.sample_rate(), 44100);
    let mut stream: CodecStream<Transform> = CodecStream::new(decoder, encoder, 64).unwrap();
    assert_eq!(stream.format(), Format::S16);
    assert_eq!(stream.channels(), 2);
    assert_eq!(stream.sample_rate(), 44100);
    assert_eq!(stream.frame_count(), 64);
    assert_eq!(stream.phase(), Phase::Idle);
    assert_eq!(stream.output_frames().byte_count(), 2 * 2 * 64);
    assert_eq!(stream.output_frames().frame_count(), 64);
    assert!(stream.output_frames().as_bytes().iter().all(|byte| *byte == 0));
    let input = stream.input_frames();
    assert_eq!(input.byte_count(), 2 * 2 * 64);
    assert_eq!(input.format(), Format::S16);
    assert_eq!(input.channels(), 2);
    assert!(input.as_bytes().iter().all(|byte| *byte == 0));
}

#[test]
fn a_copying_stream_writes_what_it_reads() {
    let (decoder, encoder) = open(Format::U8, 2, 8000, 10);
    let mut stream = CodecStream::new(decoder, encoder, 4).unwrap();
    let mut source = Source { width: 2, total: 10, position: 0, fault: None };
    let mut sink = Sink { written: Vec::new(), fault: None };
    let seen = Rc::new(RefCell::new(Vec::new()));
    let record = seen.clone();
    stream
        .start(move |input: &Frames, mut output: FramesMut| {
            record.borrow_mut().push((input.frame_count(), output.frame_count()));
            let count = input.byte_count();
            let bytes = output.as_bytes_mut();
            bytes[..count].copy_from_slice(input.as_bytes());
            for byte in bytes[count..].iter_mut() {
                *byte = 0;
            }
        })
        .unwrap();
    assert_eq!(stream.phase(), Phase::Reading);
    assert_eq!(run(&mut stream, &mut source, &mut sink), Ok(3));
    assert_eq!(stream.phase(), Phase::Finished);
    assert_eq!(*seen.borrow(), vec![(4, 4), (4, 4), (2, 4)]);
    let mut expected: Vec<u8> = (1..=20).collect();
    expected.extend_from_slice(&[0, 0, 0, 0]);
    assert_eq!(sink.written, expected);
    assert_eq!(stream.decoder().available_frame_count(), Ok(0));
    assert_eq!(stream.encoder().frames_written(), 12);
}

#[test]
fn a_stream_calls_its_transform_once_for_each_period() {
    let (decoder, encoder) = open(Format::S16, 1, 8000, 1000);
    let mut stream = CodecStream::new(decoder, encoder, 128).unwrap();
    let mut source = Source { width: 2, total: 1000, position: 0, fault: None };
    let mut sink = Sink { written: Vec::new(), fault: None };
    let frames_seen = Rc::new(RefCell::new(0));
    let record = frames_seen.clone();
    stream
        .start(move |input: &Frames, _: FramesMut| {
            *record.borrow_mut() += input.frame_count();
        })
        .unwrap();
    assert_eq!(run(&mut stream, &mut source, &mut sink), Ok(8));
    assert_eq!(*frames_seen.borrow(), 1000);
    assert_eq!(sink.written.len(), 8 * 128 * 2);
}

#[test]
fn a_stream_of_an_empty_source_finishes_at_once() {
    let (decoder, encoder) = open(Format::S16, 1, 8000, 0);
    let mut stream = CodecStream::new(decoder, encoder, 128).unwrap();
    let mut source = Source { width: 2, total: 0, position: 0, fault: None };
    let mut sink = Sink { written: Vec::new(), fault: None };
    stream.start(|_: &Frames, _: FramesMut| panic!("no period to transform")).unwrap();
    assert_eq!(run(&mut stream, &mut source, &mut sink), Ok(0));
    assert_eq!(stream.phase(), Phase::Finished);
    assert!(sink.written.is_empty());
}

#[test]
fn a_fault_of_the_source_stops_the_stream() {
    let (decoder, encoder) = open(Format::S16, 1, 8000, 1000);
    let mut stream = CodecStream::new(decoder, encoder, 128).unwrap();
    let mut source =
        Source { width: 2, total: 1000, position: 0, fault: Some(MiniaudioError::IoError) };
    let mut sink = Sink { written: Vec::new(), fault: None };
    stream.start(|_: &Frames, _: FramesMut| panic!("no period to transform")).unwrap();
    assert_eq!(
        run(&mut stream, &mut source, &mut sink),
        Err(Error::DecoderError(
            tinyaudio::decoder::Error::MiniaudioError(MiniaudioError::IoError)
        ))
    );
    assert_eq!(stream.phase(), Phase::Idle);
}

#[test]
fn a_fault_of_the_sink_stops_the_stream() {
    let (decoder, encoder) = open(Format::S16, 1, 8000, 1000);
    let mut stream = CodecStream::new(decoder, encoder, 128).unwrap();
    let mut source = Source { width: 2, total: 1000, position: 0, fault: None };
    let mut sink = Sink { written: Vec::new(), fault: Some(MiniaudioError::NoSpace) };
    stream.start(|_: &Frames, _: FramesMut| {}).unwrap();
    assert_eq!(
        run(&mut stream, &mut source, &mut sink),
        Err(Error::EncoderError(
            tinyaudio::encoder::EncoderError::MiniaudioError(MiniaudioError::NoSpace)
        ))
    );
    assert_eq!(stream.phase(), Phase::Idle);
}

#[test]
fn a_stream_steps_in_order() {
    let (decoder, encoder) = open(Format::S16, 1, 8000, 1000);
    let mut stream: CodecStream<Transform> = CodecStream::new(decoder, encoder, 128).unwrap();
    assert_eq!(stream.decoded(Ok(()), 128), Err(Error::OutOfStep));
    assert_eq!(stream.encoded(Ok(128)), Err(Error::OutOfStep));
    let quiet: Transform = |_, _| {};
    assert_eq!(stream.start(quiet), Ok(()));
    assert_eq!(stream.start(quiet), Err(Error::AlreadyStarted));
    assert_eq!(stream.encoded(Ok(128)), Err(Error::OutOfStep));
    assert_eq!(stream.decoded(Ok(()), 128), Ok(Step::Write));
    assert_eq!(stream.phase(), Phase::Writing);
    assert_eq!(stream.start(quiet), Err(Error::AlreadyStarted));
    assert_eq!(stream.decoded(Ok(()), 128), Err(Error::OutOfStep));
    assert_eq!(stream.encoded(Ok(128)), Ok(128));
    assert_eq!(stream.phase(), Phase::Reading);
    assert_eq!(stream.stop(), Ok(()));
    assert_eq!(stream.phase(), Phase::Idle);
    assert_eq!(stream.decoded(Ok(()), 128), Err(Error::OutOfStep));
    assert_eq!(stream.decoder().available_frame_count(), Ok(1000 - 128));
    assert_eq!(stream.start(quiet), Ok(()));
    assert_eq!(stream.decoded(Ok(()), 128), Ok(Step::Write));
}

#[test]
fn a_sink_of_another_shape_is_refused() {
    let (decoder, _) = open(Format::S16, 1, 8000, 1000);
    let other = EncoderConfig::new(EncodingFormat::Wav, Format::S16, 2, 8000);
    let encoder = Encoder::new(&other, Ok(())).unwrap();
    let stream: Result<CodecStream<Transform>, Error> = CodecStream::new(decoder, encoder, 128);
    assert_eq!(stream.err(), Some(Error::Mismatch));

    let (decoder, _) = open(Format::S16, 1, 8000, 1000);
    let other = EncoderConfig::new(EncodingFormat::Wav, Format::S16, 1, 44100);
    let encoder = Encoder::new(&other, Ok(())).unwrap();
    let stream: Result<CodecStream<Transform>, Error> = CodecStream::new(decoder, encoder, 128);
    assert_eq!(stream.err(), Some(Error::Mismatch));
}

#[test]
fn a_period_without_frames_or_beyond_the_machine_is_refused() {
    let (decoder, encoder) = open(Format::S16, 1, 8000, 1000);
    let stream: Result<CodecStream<Transform>, Error> = CodecStream::new(decoder, encoder, 0);
    assert_eq!(stream.err(), Some(Error::InvalidPeriod));
    let (decoder, encoder) = open(Format::S16, 1, 8000, 1000);
    let stream: Result<CodecStream<Transform>, Error> =
        CodecStream::new(decoder, encoder, usize::MAX / 2 + 1);
    assert_eq!(stream.err(), Some(Error::InvalidPeriod));
    let (decoder, encoder) = open(Format::S16, usize::MAX, 8000, 1000);
    let stream: Result<CodecStream<Transform>, Error> = CodecStream::new(decoder, encoder, 1);
    assert_eq!(stream.err(), Some(Error::InvalidPeriod));
}

#[test]
fn closing_a_stream_twice_releases_once() {
    let (decoder, encoder) = open(Format::S16, 1, 8000, 1000);
    let mut stream: CodecStream<Transform> = CodecStream::new(decoder, encoder, 128).unwrap();
    let quiet: Transform = |_, _| {};
    stream.start(quiet).unwrap();
    assert_eq!(stream.close(), Released { source: true, sink: true, device: false });
    assert_eq!(stream.phase(), Phase::Idle);
    assert_eq!(stream.close(), Released { source: false, sink: false, device: false });
    assert!(!stream.decoder().is_open());
    assert!(!stream.encoder().is_open());
    stream.start(quiet).unwrap();
    assert_eq!(
        stream.decoded(Ok(()), 128),
        Err(Error::DecoderError(tinyaudio::decoder::Error::Closed))
    );
}
