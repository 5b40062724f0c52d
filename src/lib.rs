//! Building blocks of an audio effects processor: a circular delay line,
//! the selectors of the distortion curve and the modulation waveform, the
//! closed catalog of effects with the stream formats each accepts, the clock
//! of a sample-rate reducer, the hold logic of a noise gate, the command line
//! parser and the checks made on a WAV stream's format.

pub mod audio_format;
pub mod catalog;
pub mod cli_args;
pub mod delay_line;
pub mod distortion;
pub mod gate_hold;
pub mod sample_hold;
pub mod text;
pub mod waveform;
