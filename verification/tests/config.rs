use qcryptool::channel::{ChannelKind, ChannelSpec, ParamError};
use qcryptool::config::{
    cli_settings, resolve_mix, resolve_mix_from_parts, resolve_second_mix, ExperimentConfig,
    MixPlan, RunSettings,
};
use qcryptool::protocol::Protocol;

fn inline(plan: Result<MixPlan<f64>, ParamError>) -> Vec<ChannelSpec<f64>> {
    match plan {
        Ok(MixPlan::Inline(m)) => m,
        Ok(MixPlan::File(p)) => panic!("unexpected mix file {p}"),
        Err(e) => panic!("unexpected error {}", e.message()),
    }
}

fn phase_flip_spec() -> ChannelSpec<f64> {
    ChannelSpec {
        kind: "phase-flip".into(),
        p: 0.02,
        q: 0.0,
        p_range: None,
        p1_min: None,
        p1_max: None,
        q_range: None,
        q1_min: None,
        q1_max: None,
        weight: 1.0,
    }
}

#[test]
fn test_secondary_mix_fallback() {
    let mut cfg = ExperimentConfig::<f64>::default();
    cfg.channel1 = Some("bit-flip".into());
    cfg.p1 = Some(0.01);
    let m1 = inline(cfg.primary_mix(0.0, 1.0));
    let m2 = inline(cfg.secondary_mix(0.0, 1.0));
    assert_eq!(m1[0].kind, m2[0].kind);
    assert_eq!(m1[0].p, m2[0].p);
}

#[test]
fn test_secondary_mix_explicit() {
    let mut cfg = ExperimentConfig::<f64>::default();
    cfg.channel1 = Some("bit-flip".into());
    cfg.p1 = Some(0.01);
    cfg.channel2 = Some("depolarizing".into());
    cfg.p2 = Some(0.05);
    let m2 = inline(cfg.secondary_mix(0.0, 1.0));
    assert_eq!(m2[0].kind, "depolarizing");
    assert_eq!(m2[0].p, 0.05);

    cfg.p2 = None;
    cfg.p2_min = Some(0.01);
    cfg.p2_max = Some(0.03);
    let m3 = inline(cfg.secondary_mix(0.0, 1.0));
    assert_eq!(m3[0].p1_min, Some(0.01));

    cfg.channel_config2 = Some(vec![phase_flip_spec()]);
    let m4 = inline(cfg.secondary_mix(0.0, 1.0));
    assert_eq!(m4[0].kind, "phase-flip");
}

#[test]
fn test_resolve_mix_from_parts_identity() {
    let mix = resolve_mix_from_parts::<f64>(
        None, "identity", None, None, None, None, None, None, None, None, "p1", "q1", 0.0, 1.0,
    )
    .unwrap();
    assert_eq!(mix.len(), 1);
    assert_eq!(mix[0].kind, "identity");
}

#[test]
fn test_experiment_config_default() {
    let cfg = ExperimentConfig::<f64>::default();
    assert!(cfg.protocol.is_none());
    assert!(cfg.channel_config.is_none());
}

#[test]
fn resolve_mix_no_config_uses_cli_args() {
    let mix = inline(resolve_mix::<f64>(&None, &ChannelKind::Depolarizing, Some(0.05), None, 0.0, 1.0));
    assert_eq!(mix.len(), 1);
    assert_eq!(mix[0].kind, "depolarizing");
    assert!((mix[0].p - 0.05).abs() < 1e-12);
}

#[test]
fn resolve_mix_with_config_file_defers_to_file() {
    let plan = resolve_mix(&Some("mix.json".to_string()), &ChannelKind::BitFlip, None::<f64>, None, 0.0, 1.0);
    assert!(matches!(plan, Ok(MixPlan::File(p)) if p == "mix.json"));
}

#[test]
fn primary_mix_keeps_ranges() {
    let mut cfg = ExperimentConfig::<f64>::default();
    cfg.num_qubits = Some(500);
    cfg.shots = Some(10);
    cfg.p1_min = Some(0.01);
    cfg.p1_max = Some(0.05);
    cfg.channel1 = Some("depolarizing".into());
    let mix = inline(cfg.primary_mix(0.0, 1.0));
    assert_eq!(mix.len(), 1);
    assert_eq!(mix[0].kind, "depolarizing");
    assert_eq!(mix[0].p1_min, Some(0.01));
    assert_eq!(mix[0].p1_max, Some(0.05));
    assert_eq!(mix[0].p, 0.0);
}

#[test]
fn primary_mix_inline_array_overrides_channel() {
    let mut cfg = ExperimentConfig::<f64>::default();
    cfg.channel1 = Some("bit-flip".into());
    let mut a = phase_flip_spec();
    a.kind = "bit-flip".into();
    a.p_range = Some([0.0, 0.1]);
    let mut b = phase_flip_spec();
    b.p1_min = Some(0.02);
    b.p1_max = Some(0.04);
    cfg.channel_config = Some(vec![a, b]);
    let mix = inline(cfg.primary_mix(0.0, 1.0));
    assert_eq!(mix.len(), 2);
    assert_eq!(mix[0].kind, "bit-flip");
    assert_eq!(mix[0].p_range, Some([0.0, 0.1]));
    assert_eq!(mix[1].kind, "phase-flip");
    assert_eq!(mix[1].p1_min, Some(0.02));
    assert_eq!(mix[1].p1_max, Some(0.04));
}

#[test]
fn primary_mix_empty_inline_array_is_refused() {
    let mut cfg = ExperimentConfig::<f64>::default();
    cfg.protocol = Some("bb84".into());
    cfg.channel_config = Some(vec![]);
    let err = cfg.primary_mix(0.0, 1.0).err().unwrap();
    assert!(matches!(err, ParamError::EmptyChannelConfig));
    assert_eq!(err.message(), "Error: channel_config must have at least one entry");
}

#[test]
fn primary_mix_missing_p1_is_refused() {
    let mut cfg = ExperimentConfig::<f64>::default();
    cfg.channel1 = Some("bit-flip".into());
    let err = cfg.primary_mix(0.0, 1.0).err().unwrap();
    assert_eq!(
        err.message(),
        "Error: 'p1' (or range) is required for channel 'bit-flip'"
    );
}

#[test]
fn primary_mix_missing_q1_is_refused() {
    let mut cfg = ExperimentConfig::<f64>::default();
    cfg.channel1 = Some("amplitude-phase-damping".into());
    cfg.p1 = Some(0.1);
    let err = cfg.primary_mix(0.0, 1.0).err().unwrap();
    assert_eq!(
        err.message(),
        "Error: 'q1' (or range) is required for channel 'amplitude-phase-damping'"
    );
}

#[test]
fn primary_mix_q_range_replaces_fixed_q() {
    let mut cfg = ExperimentConfig::<f64>::default();
    cfg.channel1 = Some("amplitude-phase-damping".into());
    cfg.p1 = Some(0.1);
    cfg.q1 = Some(0.3);
    cfg.q1_range = Some([0.01, 0.02]);
    let mix = inline(cfg.primary_mix(0.0, 1.0));
    assert_eq!(mix[0].q, 0.0);
    assert_eq!(mix[0].q_range, Some([0.01, 0.02]));
}

#[test]
fn primary_mix_file_overrides_everything() {
    let mut cfg = ExperimentConfig::<f64>::default();
    cfg.channel1 = Some("bit-flip".into());
    cfg.channel_config = Some(vec![phase_flip_spec()]);
    cfg.channel_config_file = Some("mix.json".into());
    assert!(matches!(cfg.primary_mix(0.0, 1.0), Ok(MixPlan::File(p)) if p == "mix.json"));
}

#[test]
fn secondary_mix_missing_p2_names_p2() {
    let mut cfg = ExperimentConfig::<f64>::default();
    cfg.channel2 = Some("bit-flip".into());
    let err = cfg.secondary_mix(0.0, 1.0).err().unwrap();
    assert_eq!(
        err.message(),
        "Error: 'p2' (or range) is required for channel 'bit-flip'"
    );
}

#[test]
fn resolve_second_mix_defaults_to_first() {
    let mix = inline(resolve_second_mix::<f64>(
        &None,
        &None,
        &ChannelKind::Depolarizing,
        &None,
        Some(0.04),
        None,
        None,
        None,
        0.0,
        1.0,
    ));
    assert_eq!(mix[0].kind, "depolarizing");
    assert_eq!(mix[0].p, 0.04);
    let mix = inline(resolve_second_mix::<f64>(
        &None,
        &None,
        &ChannelKind::Depolarizing,
        &Some(ChannelKind::PhaseFlip),
        Some(0.04),
        Some(0.01),
        None,
        None,
        0.0,
        1.0,
    ));
    assert_eq!(mix[0].kind, "phase-flip");
    assert_eq!(mix[0].p, 0.01);
    let plan = resolve_second_mix(
        &Some("a.json".to_string()),
        &None,
        &ChannelKind::Identity,
        &None,
        None::<f64>,
        None,
        None,
        None,
        0.0,
        1.0,
    );
    assert!(matches!(plan, Ok(MixPlan::File(p)) if p == "a.json"));
}

fn cli(protocol: Protocol, detail: bool) -> RunSettings<f64> {
    cli_settings(protocol, 1, None, None, detail, 1000, 0.0, 0.5, 0.9)
}

#[test]
fn merge_settings_config_overrides_cli() {
    let mut cfg = ExperimentConfig::<f64>::default();
    cfg.shots = Some(7);
    cfg.num_qubits = Some(100);
    cfg.seed = Some(42);
    cfg.eve_ratio = Some(0.25);
    cfg.out_file = Some("out.csv".into());
    let s = cfg.merge_settings(cli(Protocol::Bb84, false), Protocol::Bb84);
    assert_eq!(s.shots, 7);
    assert_eq!(s.num_qubits, 100);
    assert_eq!(s.seed, Some(42));
    assert_eq!(s.eve_ratio, 0.25);
    assert_eq!(s.check_ratio, 0.5);
    assert_eq!(s.output.as_deref(), Some("out.csv"));
    assert!(!s.detail);
    assert!(!s.keys_out);
}

#[test]
fn merge_settings_keys_out_controls_file_output() {
    let mut cfg = ExperimentConfig::<f64>::default();
    cfg.keys_out = Some(true);
    let s = cfg.merge_settings(cli(Protocol::Bb84, false), Protocol::Bb84);
    assert!(!s.detail);
    assert!(s.keys_out);
    assert!(s.records_keys());
}

#[test]
fn merge_settings_keys_out_defaults_to_detail() {
    let mut cfg = ExperimentConfig::<f64>::default();
    cfg.detail = Some(true);
    let s = cfg.merge_settings(cli(Protocol::E91, false), Protocol::E91);
    assert!(s.detail);
    assert!(s.keys_out);
}

#[test]
fn merge_settings_gc01_shows_nothing() {
    let mut cfg = ExperimentConfig::<f64>::default();
    cfg.detail = Some(true);
    let s = cfg.merge_settings(cli(Protocol::Gc01, true), Protocol::Gc01);
    assert!(!s.detail);
    assert!(!s.keys_out);
    cfg.keys_out = Some(true);
    let s = cfg.merge_settings(cli(Protocol::Gc01, true), Protocol::Gc01);
    assert!(s.keys_out);
}

#[test]
fn cli_settings_detail_writes_keys() {
    let s = cli(Protocol::Bb84, true);
    assert!(s.detail && s.keys_out);
    let s = cli(Protocol::Gc01, true);
    assert!(!s.detail && !s.keys_out);
}
