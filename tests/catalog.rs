use audiofxrs::catalog::EffectKind;

const REGISTERED: [&str; 15] = [
    "bitcrusher",
    "chorus",
    "delay",
    "distortion",
    "reverb",
    "compression",
    "eq",
    "flanger",
    "gate",
    "limiter",
    "tremolo",
    "phaser",
    "vibrato",
    "pitch_shift",
    "time_stretch",
];

#[test]
fn test_cli_app_creation() {
    assert!(!EffectKind::all().is_empty());
    for name in REGISTERED.iter() {
        assert!(EffectKind::from_identifier(name).is_some(), "{}", name);
    }
}

#[test]
fn test_help_parsing() {
    assert!(EffectKind::all().len() >= 15);
}

#[test]
fn test_effect_registration() {
    let chorus = EffectKind::from_identifier("chorus").unwrap();
    assert_eq!(chorus.display_name(), "Chorus");

    let distortion = EffectKind::from_identifier("distortion").unwrap();
    assert_eq!(distortion.display_name(), "Distortion");
}

#[test]
fn identifiers_round_trip() {
    let all = EffectKind::all();
    assert_eq!(all.len(), 16);
    for kind in all.iter() {
        assert_eq!(EffectKind::from_identifier(kind.identifier()), Some(*kind));
    }
}

#[test]
fn unknown_identifiers_are_refused() {
    assert_eq!(EffectKind::from_identifier("wah"), None);
    assert_eq!(EffectKind::from_identifier(""), None);
    assert_eq!(EffectKind::from_identifier("Chorus"), None);
    assert_eq!(EffectKind::from_identifier("chorus "), None);
}

#[test]
fn display_names() {
    assert_eq!(EffectKind::Eq.display_name(), "EQ");
    assert_eq!(EffectKind::PitchShift.display_name(), "Pitch Shifting");
    assert_eq!(EffectKind::TimeStretch.display_name(), "Time Stretching");
    assert_eq!(EffectKind::AutoWah.display_name(), "Auto-Wah");
    assert_eq!(EffectKind::AutoWah.identifier(), "auto_wah");
}

#[test]
fn sample_rate_bounds() {
    let delay = EffectKind::Delay;
    assert!(delay.supports_format(8000, 1));
    assert!(delay.supports_format(192_000, 1));
    assert!(delay.supports_format(44_100, 2));
    assert!(!delay.supports_format(7999, 1));
    assert!(!delay.supports_format(192_001, 1));
    assert!(!delay.supports_format(0, 1));
}

#[test]
fn channel_bounds() {
    assert!(EffectKind::Delay.supports_format(44_100, 8));
    assert!(!EffectKind::Delay.supports_format(44_100, 9));
    assert!(!EffectKind::Delay.supports_format(44_100, 0));
    for kind in [
        EffectKind::Chorus,
        EffectKind::Flanger,
        EffectKind::Phaser,
        EffectKind::Vibrato,
        EffectKind::PitchShift,
        EffectKind::TimeStretch,
        EffectKind::Reverb,
    ] {
        assert!(kind.supports_format(48_000, 2));
        assert!(!kind.supports_format(48_000, 3));
        assert_eq!(kind.max_channels(), 2);
    }
    assert_eq!(EffectKind::Bitcrusher.max_channels(), 8);
    assert!(EffectKind::Gate.supports_format(96_000, 6));
}
