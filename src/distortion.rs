use vstd::prelude::*;

verus! {

/// `value` brought into `[lo, hi]`: the nearest bound where it lies outside.
pub open spec fn clamp_int(value: int, lo: int, hi: int) -> int {
    if value < lo {
        lo
    } else if value > hi {
        hi
    } else {
        value
    }
}

/// The waveshaping curve of the distortion effect.
#[derive(Debug, Clone, Copy)]
pub enum DistortionType {
    SoftClip,
    HardClip,
    Overdrive,
    Fuzz,
}

impl DistortionType {
    /// The number that selects this curve in a parameter set.
    pub open spec fn index(self) -> int {
        match self {
            DistortionType::SoftClip => 0,
            DistortionType::HardClip => 1,
            DistortionType::Overdrive => 2,
            DistortionType::Fuzz => 3,
        }
    }

    /// The curve that `value` selects; a number that selects none gives the
    /// soft clip.
    pub open spec fn from_index(value: int) -> Self {
        if value == 1 {
            DistortionType::HardClip
        } else if value == 2 {
            DistortionType::Overdrive
        } else if value == 3 {
            DistortionType::Fuzz
        } else {
            DistortionType::SoftClip
        }
    }

    pub fn from_int(value: i32) -> (r: Self)
        ensures
            r == Self::from_index(value as int),
    {
        match value {
            0 => DistortionType::SoftClip,
            1 => DistortionType::HardClip,
            2 => DistortionType::Overdrive,
            3 => DistortionType::Fuzz,
            _ => DistortionType::SoftClip,
        }
    }

    pub fn to_int(self) -> (r: i32)
        ensures
            r == self.index(),
    {
        match self {
            DistortionType::SoftClip => 0,
            DistortionType::HardClip => 1,
            DistortionType::Overdrive => 2,
            DistortionType::Fuzz => 3,
        }
    }

    /// The curve that the integer parameter `value` sets: the value is first
    /// clamped to the declared range `[0, 3]`.
    pub fn from_clamped(value: i32) -> (r: Self)
        ensures
            r.index() == clamp_int(value as int, 0, 3),
    {
        let v = if value < 0 {
            0
        } else if value > 3 {
            3
        } else {
            value
        };
        Self::from_int(v)
    }

    /// Reading a curve's number back selects the same curve.
    pub proof fn lemma_index_round_trip(self)
        ensures
            Self::from_index(self.index()) == self,
    {
    }

    /// Every number of the declared range selects the curve that reads back
    /// as that number.
    pub proof fn lemma_in_range_round_trip(value: int)
        requires
            0 <= value <= 3,
        ensures
            Self::from_index(value).index() == value,
    {
    }
}

} // verus!
