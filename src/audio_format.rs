use vstd::prelude::*;
use hound::{SampleFormat, WavSpec};

verus! {

/// hound's sample encoding: IEEE float or integer PCM. Both variants are
/// public and carry no data.
#[verifier::external_type_specification]
pub struct ExSampleFormat(SampleFormat);

/// hound's description of a WAV stream. All four fields are public plain
/// values.
#[verifier::external_type_specification]
pub struct ExWavSpec(WavSpec);

/// The bit depth of the integer PCM streams that the processor reads.
pub const PCM_BITS: u16 = 16;

/// Why an audio file could not be read or written.
#[derive(Debug)]
pub enum AudioError {
    FileNotFound(String),
    InvalidFormat(String),
    IoError(String),
}

impl AudioError {
    /// The text shown to the user for this error.
    pub open spec fn spec_message(&self) -> Seq<char> {
        match self {
            AudioError::FileNotFound(path) => "Audio file not found: "@ + path@,
            AudioError::InvalidFormat(msg) => "Invalid audio format: "@ + msg@,
            AudioError::IoError(msg) => "I/O error: "@ + msg@,
        }
    }

    pub fn message(&self) -> (r: String)
        ensures
            r@ == self.spec_message(),
    {
        match self {
            AudioError::FileNotFound(path) => "Audio file not found: ".to_owned().concat(path.as_str()),
            AudioError::InvalidFormat(msg) => "Invalid audio format: ".to_owned().concat(msg.as_str()),
            AudioError::IoError(msg) => "I/O error: ".to_owned().concat(msg.as_str()),
        }
    }
}

/// Whether a stream holds 16-bit integer PCM samples, the one encoding read.
pub open spec fn is_pcm16(spec: WavSpec) -> bool {
    spec.sample_format == SampleFormat::Int && spec.bits_per_sample == PCM_BITS
}

/// The format in which output files are written: 16-bit integer PCM with the
/// given channel count and sample rate.
pub fn default_wav_spec(channels: u16, sample_rate: u32) -> (r: WavSpec)
    ensures
        r.channels == channels,
        r.sample_rate == sample_rate,
        is_pcm16(r),
{
    WavSpec { channels, sample_rate, bits_per_sample: PCM_BITS, sample_format: SampleFormat::Int }
}

/// Accepts a stream of 16-bit integer PCM samples and refuses any other.
pub fn check_supported_format(spec: &WavSpec) -> (r: Result<(), AudioError>)
    ensures
        r is Ok <==> is_pcm16(*spec),
        r matches Err(e) ==> e matches AudioError::InvalidFormat(msg)
            && msg@ == "Only 16-bit PCM WAV files are supported"@,
{
    let is_int = match spec.sample_format {
        SampleFormat::Int => true,
        SampleFormat::Float => false,
    };
    if is_int && spec.bits_per_sample == PCM_BITS {
        Ok(())
    } else {
        Err(AudioError::InvalidFormat("Only 16-bit PCM WAV files are supported".to_owned()))
    }
}

} // verus!
