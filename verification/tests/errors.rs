use tinyaudio::encoder::EncoderError;
use tinyaudio::miniaudio_error::MiniaudioError;

#[test]
fn a_fault_becomes_the_error_of_each_module() {
    assert_eq!(
        tinyaudio::decoder::Error::from(MiniaudioError::DoesNotExist),
        tinyaudio::decoder::Error::MiniaudioError(MiniaudioError::DoesNotExist)
    );
    assert_eq!(
        EncoderError::from(MiniaudioError::AccessDenied),
        EncoderError::MiniaudioError(MiniaudioError::AccessDenied)
    );
    assert_eq!(
        tinyaudio::device::Error::from(MiniaudioError::NoBackend),
        tinyaudio::device::Error::MiniaudioError(MiniaudioError::NoBackend)
    );
}

#[test]
fn the_errors_of_the_parts_become_the_error_of_a_stream() {
    assert_eq!(
        tinyaudio::stream::codec_stream::Error::from(tinyaudio::decoder::Error::Closed),
        tinyaudio::stream::codec_stream::Error::DecoderError(tinyaudio::decoder::Error::Closed)
    );
    assert_eq!(
        tinyaudio::stream::codec_stream::Error::from(EncoderError::WriteOverrun),
        tinyaudio::stream::codec_stream::Error::EncoderError(EncoderError::WriteOverrun)
    );
    assert_eq!(
        tinyaudio::stream::device_stream::Error::from(tinyaudio::device::Error::Poisoned),
        tinyaudio::stream::device_stream::Error::DeviceError(tinyaudio::device::Error::Poisoned)
    );
    assert_eq!(
        tinyaudio::stream::device_stream::Error::from(tinyaudio::decoder::Error::SeekPastEnd),
        tinyaudio::stream::device_stream::Error::DecoderError(
            tinyaudio::decoder::Error::SeekPastEnd
        )
    );
    assert_eq!(
        tinyaudio::stream::device_stream::Error::from(EncoderError::Closed),
        tinyaudio::stream::device_stream::Error::EncoderError(EncoderError::Closed)
    );
}

#[test]
fn the_end_of_a_stream_is_told_from_a_fault() {
    assert!(MiniaudioError::AtEnd.at_end());
    assert!(!MiniaudioError::IoError.at_end());
    assert!(!MiniaudioError::Error.at_end());
}
