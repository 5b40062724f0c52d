use vstd::prelude::*;
use crate::distortion::clamp_int;

verus! {

/// The waveform of a low-frequency oscillator.
#[derive(Debug, Clone, Copy)]
pub enum WaveShape {
    Sine,
    Triangle,
    Square,
    Sawtooth,
}

impl WaveShape {
    /// The number that selects this waveform in a parameter set.
    pub open spec fn index(self) -> int {
        match self {
            WaveShape::Sine => 0,
            WaveShape::Triangle => 1,
            WaveShape::Square => 2,
            WaveShape::Sawtooth => 3,
        }
    }

    /// The waveform that `value` selects; a number that selects none gives
    /// the sine.
    pub open spec fn from_index(value: int) -> Self {
        if value == 1 {
            WaveShape::Triangle
        } else if value == 2 {
            WaveShape::Square
        } else if value == 3 {
            WaveShape::Sawtooth
        } else {
            WaveShape::Sine
        }
    }

    pub fn from_int(value: i32) -> (r: Self)
        ensures
            r == Self::from_index(value as int),
    {
        match value {
            0 => WaveShape::Sine,
            1 => WaveShape::Triangle,
            2 => WaveShape::Square,
            3 => WaveShape::Sawtooth,
            _ => WaveShape::Sine,
        }
    }

    pub fn to_int(self) -> (r: i32)
        ensures
            r == self.index(),
    {
        match self {
            WaveShape::Sine => 0,
            WaveShape::Triangle => 1,
            WaveShape::Square => 2,
            WaveShape::Sawtooth => 3,
        }
    }

    /// The waveform that the integer parameter `value` sets: the value is
    /// first clamped to the declared range `[0, 3]`.
    pub fn from_clamped(value: i32) -> (r: Self)
        ensures
            r.index() == clamp_int(value as int, 0, 3),
    {
        let v = if value < 0 {
            0
        } else if value > 3 {
            3
        } else {
            value
        };
        Self::from_int(v)
    }

    /// Reading a waveform's number back selects the same waveform.
    pub proof fn lemma_index_round_trip(self)
        ensures
            Self::from_index(self.index()) == self,
    {
    }

    /// Every number of the declared range selects the waveform that reads
    /// back as that number.
    pub proof fn lemma_in_range_round_trip(value: int)
        requires
            0 <= value <= 3,
        ensures
            Self::from_index(value).index() == value,
    {
    }
}

} // verus!
