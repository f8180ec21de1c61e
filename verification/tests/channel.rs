use qcryptool::channel::{
    channel_info, check_loaded_mix, draws_entry, single_channel_mix, ChannelKind, ChannelSpec,
    NoiseDraw, ParamError,
};

fn spec(kind: &str, p: f64, q: f64, weight: f64) -> ChannelSpec<f64> {
    ChannelSpec {
        kind: kind.to_string(),
        p,
        q,
        p_range: None,
        p1_min: None,
        p1_max: None,
        q_range: None,
        q1_min: None,
        q1_max: None,
        weight,
    }
}

#[test]
fn as_str_all_variants() {
    assert_eq!(ChannelKind::Identity.as_str(), "identity");
    assert_eq!(ChannelKind::BitFlip.as_str(), "bit-flip");
    assert_eq!(ChannelKind::PhaseFlip.as_str(), "phase-flip");
    assert_eq!(ChannelKind::BitPhaseFlip.as_str(), "bit-phase-flip");
    assert_eq!(ChannelKind::Depolarizing.as_str(), "depolarizing");
    assert_eq!(ChannelKind::AmplitudeDamping.as_str(), "amplitude-damping");
    assert_eq!(ChannelKind::PhaseDamping.as_str(), "phase-damping");
    assert_eq!(ChannelKind::AmplitudePhaseDamping.as_str(), "amplitude-phase-damping");
}

#[test]
fn single_mix_structure() {
    let mix = single_channel_mix::<f64>(&ChannelKind::Depolarizing, Some(0.05), None, 0.0, 1.0).unwrap();
    assert_eq!(mix.len(), 1);
    assert_eq!(mix[0].kind, "depolarizing");
    assert!((mix[0].p - 0.05).abs() < 1e-12);
    assert!((mix[0].q - 0.0).abs() < 1e-12);
    assert!((mix[0].weight - 1.0).abs() < 1e-12);
}

#[test]
fn single_mix_amplitude_phase_damping() {
    let mix = single_channel_mix::<f64>(&ChannelKind::AmplitudePhaseDamping, Some(0.1), Some(0.2), 0.0, 1.0)
        .unwrap();
    assert_eq!(mix[0].kind, "amplitude-phase-damping");
    assert!((mix[0].p - 0.1).abs() < 1e-12);
    assert!((mix[0].q - 0.2).abs() < 1e-12);
}

#[test]
fn single_mix_identity_needs_no_noise() {
    let mix = single_channel_mix::<f64>(&ChannelKind::Identity, None, None, 0.0, 1.0).unwrap();
    assert_eq!(mix.len(), 1);
    assert_eq!(mix[0].kind, "identity");
    assert_eq!(mix[0].p, 0.0);
    assert_eq!(mix[0].q, 0.0);
}

#[test]
fn single_mix_q_ignored_unless_needed() {
    let mix = single_channel_mix::<f64>(&ChannelKind::BitFlip, Some(0.3), Some(0.7), 0.0, 1.0).unwrap();
    assert_eq!(mix[0].p, 0.3);
    assert_eq!(mix[0].q, 0.0);
}

#[test]
fn single_mix_missing_p1() {
    let err = single_channel_mix::<f64>(&ChannelKind::BitFlip, None, None, 0.0, 1.0).unwrap_err();
    assert!(matches!(err, ParamError::MissingP1Flag(ChannelKind::BitFlip)));
    assert_eq!(err.message(), "Error: --p1 is required for channel 'bit-flip'");
}

#[test]
fn single_mix_missing_q1() {
    let err = single_channel_mix::<f64>(&ChannelKind::AmplitudePhaseDamping, Some(0.1), None, 0.0, 1.0)
        .unwrap_err();
    assert!(matches!(err, ParamError::MissingQ1Flag));
    assert_eq!(
        err.message(),
        "Error: --q1 is required for channel 'amplitude-phase-damping'"
    );
}

#[test]
fn single_mix_missing_p1_reported_before_q1() {
    let err = single_channel_mix::<f64>(&ChannelKind::AmplitudePhaseDamping, None, None, 0.0, 1.0)
        .unwrap_err();
    assert!(matches!(err, ParamError::MissingP1Flag(ChannelKind::AmplitudePhaseDamping)));
}

#[test]
fn from_name_round_trip() {
    for k in [
        ChannelKind::Identity,
        ChannelKind::BitFlip,
        ChannelKind::PhaseFlip,
        ChannelKind::BitPhaseFlip,
        ChannelKind::Depolarizing,
        ChannelKind::AmplitudeDamping,
        ChannelKind::PhaseDamping,
        ChannelKind::AmplitudePhaseDamping,
    ] {
        assert_eq!(ChannelKind::from_name(k.as_str()), Some(k));
    }
    assert_eq!(ChannelKind::from_name("totally-unknown"), None);
    assert_eq!(ChannelKind::from_name("Bit-Flip"), None);
}

#[test]
fn needs_noise_parameters() {
    assert!(!ChannelKind::Identity.needs_p());
    assert!(ChannelKind::BitFlip.needs_p());
    assert!(!ChannelKind::BitFlip.needs_q());
    assert!(ChannelKind::AmplitudePhaseDamping.needs_p());
    assert!(ChannelKind::AmplitudePhaseDamping.needs_q());
}

#[test]
fn check_loaded_mix_refuses_empty() {
    let err = check_loaded_mix::<f64>("mix.json", vec![]).unwrap_err();
    assert!(err.contains("at least one entry"));
    assert_eq!(err, "Channel config 'mix.json' must have at least one entry");
}

#[test]
fn check_loaded_mix_keeps_entries() {
    let mix = check_loaded_mix("mix.json", vec![spec("bit-flip", 0.01, 0.0, 2.0), spec("depolarizing", 0.05, 0.0, 1.0)])
        .unwrap();
    assert_eq!(mix.len(), 2);
    assert_eq!(mix[0].kind, "bit-flip");
    assert_eq!(mix[1].kind, "depolarizing");
}

#[test]
fn draws_fixed_values_without_ranges() {
    let s = spec("amplitude-phase-damping", 0.07, 0.03, 1.0);
    assert!(matches!(s.p_draw(), NoiseDraw::Fixed(p) if p == 0.07));
    assert!(matches!(s.q_draw(), NoiseDraw::Fixed(q) if q == 0.03));
    let info = channel_info(&s, 0.07, 0.03);
    assert_eq!(info.channel_type, "amplitude-phase-damping");
    assert_eq!(info.p, 0.07);
    assert_eq!(info.q, 0.03);
}

#[test]
fn draws_from_ranges() {
    let mut s = spec("amplitude-phase-damping", 0.0, 0.0, 1.0);
    s.p_range = Some([0.1, 0.2]);
    s.q_range = Some([0.01, 0.05]);
    assert!(matches!(s.p_draw(), NoiseDraw::Uniform(lo, hi) if lo == 0.1 && hi == 0.2));
    assert!(matches!(s.q_draw(), NoiseDraw::Uniform(lo, hi) if lo == 0.01 && hi == 0.05));

    let mut s2 = spec("bit-flip", 0.0, 0.0, 1.0);
    s2.p1_min = Some(0.3);
    s2.p1_max = Some(0.4);
    s2.q1_min = Some(0.02);
    s2.q1_max = Some(0.04);
    assert!(matches!(s2.p_draw(), NoiseDraw::Uniform(lo, hi) if lo == 0.3 && hi == 0.4));
    assert!(matches!(s2.q_draw(), NoiseDraw::Uniform(lo, hi) if lo == 0.02 && hi == 0.04));
}

#[test]
fn range_takes_precedence_over_min_max() {
    let mut s = spec("bit-flip", 0.5, 0.0, 1.0);
    s.p_range = Some([0.1, 0.2]);
    s.p1_min = Some(0.3);
    s.p1_max = Some(0.4);
    assert!(matches!(s.p_draw(), NoiseDraw::Uniform(lo, hi) if lo == 0.1 && hi == 0.2));
}

#[test]
fn half_open_min_max_is_ignored() {
    let mut s = spec("bit-flip", 0.5, 0.0, 1.0);
    s.p1_min = Some(0.3);
    assert!(matches!(s.p_draw(), NoiseDraw::Fixed(p) if p == 0.5));
}

#[test]
fn single_entry_mix_draws_no_entry() {
    let one = vec![spec("bit-flip", 0.01, 0.0, 1.0)];
    let two = vec![spec("bit-flip", 0.01, 0.0, 1.0), spec("depolarizing", 0.05, 0.0, 1.0)];
    assert!(!draws_entry(&one));
    assert!(draws_entry(&two));
}

#[test]
fn duplicate_keeps_every_field() {
    let mut s = spec("phase-flip", 0.02, 0.01, 3.0);
    s.q_range = Some([0.0, 0.5]);
    let d = s.duplicate();
    assert_eq!(d.kind, "phase-flip");
    assert_eq!(d.p, 0.02);
    assert_eq!(d.q, 0.01);
    assert_eq!(d.q_range, Some([0.0, 0.5]));
    assert_eq!(d.weight, 3.0);
}
