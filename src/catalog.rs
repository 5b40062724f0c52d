use vstd::prelude::*;
use crate::text::str_equal;

verus! {

/// The lowest sample rate, in Hz, that any effect accepts.
pub const MIN_SAMPLE_RATE: u32 = 8000;

/// The highest sample rate, in Hz, that any effect accepts.
pub const MAX_SAMPLE_RATE: u32 = 192_000;

/// The closed set of effects that the processor offers.
#[derive(Debug, Clone, Copy, PartialEq, Eq, Structural)]
pub enum EffectKind {
    Bitcrusher,
    Chorus,
    Delay,
    Distortion,
    Reverb,
    Compression,
    Eq,
    Flanger,
    Gate,
    Limiter,
    Tremolo,
    Phaser,
    Vibrato,
    PitchShift,
    TimeStretch,
    AutoWah,
}

impl EffectKind {
    /// The identifier that selects the effect on the command line.
    pub open spec fn spec_identifier(self) -> Seq<char> {
        match self {
            EffectKind::Bitcrusher => "bitcrusher"@,
            EffectKind::Chorus => "chorus"@,
            EffectKind::Delay => "delay"@,
            EffectKind::Distortion => "distortion"@,
            EffectKind::Reverb => "reverb"@,
            EffectKind::Compression => "compression"@,
            EffectKind::Eq => "eq"@,
            EffectKind::Flanger => "flanger"@,
            EffectKind::Gate => "gate"@,
            EffectKind::Limiter => "limiter"@,
            EffectKind::Tremolo => "tremolo"@,
            EffectKind::Phaser => "phaser"@,
            EffectKind::Vibrato => "vibrato"@,
            EffectKind::PitchShift => "pitch_shift"@,
            EffectKind::TimeStretch => "time_stretch"@,
            EffectKind::AutoWah => "auto_wah"@,
        }
    }

    /// The name under which the effect presents itself.
    pub open spec fn spec_display_name(self) -> Seq<char> {
        match self {
            EffectKind::Bitcrusher => "Bitcrusher"@,
            EffectKind::Chorus => "Chorus"@,
            EffectKind::Delay => "Delay"@,
            EffectKind::Distortion => "Distortion"@,
            EffectKind::Reverb => "Reverb"@,
            EffectKind::Compression => "Compression"@,
            EffectKind::Eq => "EQ"@,
            EffectKind::Flanger => "Flanger"@,
            EffectKind::Gate => "Gate"@,
            EffectKind::Limiter => "Limiter"@,
            EffectKind::Tremolo => "Tremolo"@,
            EffectKind::Phaser => "Phaser"@,
            EffectKind::Vibrato => "Vibrato"@,
            EffectKind::PitchShift => "Pitch Shifting"@,
            EffectKind::TimeStretch => "Time Stretching"@,
            EffectKind::AutoWah => "Auto-Wah"@,
        }
    }

    /// The largest channel count the effect accepts: two for the effects
    /// whose sound depends on stereo width, eight for the others.
    pub open spec fn spec_max_channels(self) -> nat {
        match self {
            EffectKind::Chorus
            | EffectKind::Flanger
            | EffectKind::Phaser
            | EffectKind::Vibrato
            | EffectKind::PitchShift
            | EffectKind::TimeStretch
            | EffectKind::Reverb => 2,
            _ => 8,
        }
    }

    /// Whether the effect can process a stream of `sample_rate` Hz and
    /// `channels` channels.
    pub open spec fn spec_supports_format(self, sample_rate: nat, channels: nat) -> bool {
        &&& MIN_SAMPLE_RATE <= sample_rate <= MAX_SAMPLE_RATE
        &&& 1 <= channels <= self.spec_max_channels()
    }

    pub fn identifier(&self) -> (r: &'static str)
        ensures
            r@ == self.spec_identifier(),
    {
        match self {
            EffectKind::Bitcrusher => "bitcrusher",
            EffectKind::Chorus => "chorus",
            EffectKind::Delay => "delay",
            EffectKind::Distortion => "distortion",
            EffectKind::Reverb => "reverb",
            EffectKind::Compression => "compression",
            EffectKind::Eq => "eq",
            EffectKind::Flanger => "flanger",
            EffectKind::Gate => "gate",
            EffectKind::Limiter => "limiter",
            EffectKind::Tremolo => "tremolo",
            EffectKind::Phaser => "phaser",
            EffectKind::Vibrato => "vibrato",
            EffectKind::PitchShift => "pitch_shift",
            EffectKind::TimeStretch => "time_stretch",
            EffectKind::AutoWah => "auto_wah",
        }
    }

    pub fn display_name(&self) -> (r: &'static str)
        ensures
            r@ == self.spec_display_name(),
    {
        match self {
            EffectKind::Bitcrusher => "Bitcrusher",
            EffectKind::Chorus => "Chorus",
            EffectKind::Delay => "Delay",
            EffectKind::Distortion => "Distortion",
            EffectKind::Reverb => "Reverb",
            EffectKind::Compression => "Compression",
            EffectKind::Eq => "EQ",
            EffectKind::Flanger => "Flanger",
            EffectKind::Gate => "Gate",
            EffectKind::Limiter => "Limiter",
            EffectKind::Tremolo => "Tremolo",
            EffectKind::Phaser => "Phaser",
            EffectKind::Vibrato => "Vibrato",
            EffectKind::PitchShift => "Pitch Shifting",
            EffectKind::TimeStretch => "Time Stretching",
            EffectKind::AutoWah => "Auto-Wah",
        }
    }

    pub fn max_channels(&self) -> (r: usize)
        ensures
            r == self.spec_max_channels(),
    {
        match self {
            EffectKind::Chorus
            | EffectKind::Flanger
            | EffectKind::Phaser
            | EffectKind::Vibrato
            | EffectKind::PitchShift
            | EffectKind::TimeStretch
            | EffectKind::Reverb => 2,
            _ => 8,
        }
    }

    pub fn supports_format(&self, sample_rate: u32, channels: usize) -> (r: bool)
        ensures
            r == self.spec_supports_format(sample_rate as nat, channels as nat),
    {
        MIN_SAMPLE_RATE <= sample_rate && sample_rate <= MAX_SAMPLE_RATE && 1 <= channels
            && channels <= self.max_channels()
    }

    /// Every effect of the catalog, once each.
    pub fn all() -> (r: Vec<EffectKind>)
        ensures
            r@.no_duplicates(),
            forall|k: EffectKind| r@.contains(k),
    {
        let r = vec![
            EffectKind::Bitcrusher,
            EffectKind::Chorus,
            EffectKind::Delay,
            EffectKind::Distortion,
            EffectKind::Reverb,
            EffectKind::Compression,
            EffectKind::Eq,
            EffectKind::Flanger,
            EffectKind::Gate,
            EffectKind::Limiter,
            EffectKind::Tremolo,
            EffectKind::Phaser,
            EffectKind::Vibrato,
            EffectKind::PitchShift,
            EffectKind::TimeStretch,
            EffectKind::AutoWah,
        ];
        assert forall|k: EffectKind| r@.contains(k) by {
            match k {
                EffectKind::Bitcrusher => assert(r@[0] == k),
                EffectKind::Chorus => assert(r@[1] == k),
                EffectKind::Delay => assert(r@[2] == k),
                EffectKind::Distortion => assert(r@[3] == k),
                EffectKind::Reverb => assert(r@[4] == k),
                EffectKind::Compression => assert(r@[5] == k),
                EffectKind::Eq => assert(r@[6] == k),
                EffectKind::Flanger => assert(r@[7] == k),
                EffectKind::Gate => assert(r@[8] == k),
                EffectKind::Limiter => assert(r@[9] == k),
                EffectKind::Tremolo => assert(r@[10] == k),
                EffectKind::Phaser => assert(r@[11] == k),
                EffectKind::Vibrato => assert(r@[12] == k),
                EffectKind::PitchShift => assert(r@[13] == k),
                EffectKind::TimeStretch => assert(r@[14] == k),
                EffectKind::AutoWah => assert(r@[15] == k),
            }
        }
        r
    }

    /// The effect that `name` identifies, if any.
    pub fn from_identifier(name: &str) -> (r: Option<EffectKind>)
        ensures
            forall|k: EffectKind| #[trigger] k.spec_identifier() == name@ <==> r == Some(k),
    {
        let kinds = Self::all();
        let mut i: usize = 0;
        while i < kinds.len()
            invariant
                i <= kinds@.len(),
                forall|k: EffectKind| kinds@.contains(k),
                forall|j: int| 0 <= j < i ==> (#[trigger] kinds@[j]).spec_identifier() != name@,
            decreases kinds.len() - i,
        {
            let kind = kinds[i];
            if str_equal(name, kind.identifier()) {
                proof {
                    Self::lemma_identifier_unique(kind, name@);
                }
                return Some(kind);
            }
            i = i + 1;
        }
        assert forall|k: EffectKind| #[trigger] k.spec_identifier() != name@ by {
            assert(kinds@.contains(k));
            let j = choose|j: int| 0 <= j < kinds@.len() && kinds@[j] == k;
            assert(kinds@[j].spec_identifier() != name@);
        }
        None
    }

    /// No two effects share an identifier.
    pub proof fn lemma_identifiers_distinct(a: EffectKind, b: EffectKind)
        requires
            a != b,
        ensures
            a.spec_identifier() != b.spec_identifier(),
    {
        reveal_strlit("bitcrusher");
        reveal_strlit("chorus");
        reveal_strlit("delay");
        reveal_strlit("distortion");
        reveal_strlit("reverb");
        reveal_strlit("compression");
        reveal_strlit("eq");
        reveal_strlit("flanger");
        reveal_strlit("gate");
        reveal_strlit("limiter");
        reveal_strlit("tremolo");
        reveal_strlit("phaser");
        reveal_strlit("vibrato");
        reveal_strlit("pitch_shift");
        reveal_strlit("time_stretch");
        reveal_strlit("auto_wah");
        if a.spec_identifier() == b.spec_identifier() {
            assert(a.spec_identifier().len() == b.spec_identifier().len());
            assert(a.spec_identifier()[0] == b.spec_identifier()[0]);
            assert(a.spec_identifier()[1] == b.spec_identifier()[1]);
            assert(a.spec_identifier()[2] == b.spec_identifier()[2]);
        }
    }

    /// The effect that an identifier names is the only one with it.
    pub proof fn lemma_identifier_unique(found: EffectKind, name: Seq<char>)
        requires
            found.spec_identifier() == name,
        ensures
            forall|k: EffectKind| #[trigger] k.spec_identifier() == name ==> k == found,
    {
        assert forall|k: EffectKind| #[trigger] k.spec_identifier() == name implies k == found by {
            if k != found {
                Self::lemma_identifiers_distinct(k, found);
            }
        }
    }
}

} // verus!
