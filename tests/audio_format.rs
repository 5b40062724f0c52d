use audiofxrs::audio_format::{check_supported_format, default_wav_spec, AudioError};
use hound::{SampleFormat, WavSpec};

#[test]
fn test_default_wav_spec() {
    let spec = default_wav_spec(2, 44100);
    assert_eq!(spec.channels, 2);
    assert_eq!(spec.sample_rate, 44100);
    assert_eq!(spec.bits_per_sample, 16);
    assert_eq!(spec.sample_format, SampleFormat::Int);
}

#[test]
fn pcm16_is_accepted() {
    assert!(check_supported_format(&default_wav_spec(1, 48_000)).is_ok());
}

#[test]
fn other_encodings_are_refused() {
    let float = WavSpec {
        channels: 1,
        sample_rate: 44_100,
        bits_per_sample: 32,
        sample_format: SampleFormat::Float,
    };
    let pcm24 = WavSpec {
        channels: 2,
        sample_rate: 44_100,
        bits_per_sample: 24,
        sample_format: SampleFormat::Int,
    };
    let float16 = WavSpec {
        channels: 2,
        sample_rate: 44_100,
        bits_per_sample: 16,
        sample_format: SampleFormat::Float,
    };
    for spec in [float, pcm24, float16] {
        match check_supported_format(&spec) {
            Err(AudioError::InvalidFormat(msg)) => {
                assert_eq!(msg, "Only 16-bit PCM WAV files are supported")
            }
            _ => panic!("format accepted"),
        }
    }
}

#[test]
fn audio_error_messages() {
    assert_eq!(
        AudioError::FileNotFound("a.wav".to_string()).message(),
        "Audio file not found: a.wav"
    );
    assert_eq!(
        AudioError::InvalidFormat("bad".to_string()).message(),
        "Invalid audio format: bad"
    );
    assert_eq!(
        AudioError::IoError("disk".to_string()).message(),
        "I/O error: disk"
    );
}
