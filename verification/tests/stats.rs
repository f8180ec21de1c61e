use qcryptool::channel::ChannelInfo;
use qcryptool::run::{AuthRun, QdsRun, QkdRun, RunData};
use qcryptool::stats::{collect, Collected};

fn info() -> ChannelInfo<f64> {
    ChannelInfo {
        channel_type: "bit-flip".into(),
        p: 0.0,
        q: 0.0,
    }
}

fn make_qds(accepted: bool, bob_rate: f64, charlie_rate: f64, eve: usize) -> RunData<f64> {
    RunData::Qds(QdsRun {
        shot: 0,
        channel_bob: info(),
        channel_charlie: info(),
        num_qubits: 100,
        message: false,
        bob_mismatches: (bob_rate * 100.0) as usize,
        charlie_mismatches: (charlie_rate * 100.0) as usize,
        bob_mismatch_rate: bob_rate,
        charlie_mismatch_rate: charlie_rate,
        signature_accepted: accepted,
        eve_intercepted_count: eve,
    })
}

fn make_qkd(
    protocol: &'static str,
    qber: f64,
    qber_available: bool,
    chsh: Option<f64>,
    key_length: usize,
    keys_match: bool,
) -> RunData<f64> {
    RunData::Qkd(QkdRun {
        shot: 0,
        protocol,
        channel: info(),
        channel_bob: None,
        raw_length: 100,
        sifted: 10,
        check_errors: 0,
        qber,
        qber_available,
        chsh_value: chsh,
        eve_count: 0,
        key_length,
        keys_match,
        alice_key_hex: None,
        bob_key_hex: None,
    })
}

fn make_auth(authenticated: bool, accuracy: f64) -> RunData<f64> {
    RunData::Auth(AuthRun {
        shot: 1,
        channel: info(),
        total_qubits: 10,
        matches: 10,
        accuracy,
        authenticated,
        alice_id_hex: None,
        alice_commitment_hex: None,
        bob_challenge_hex: None,
        bob_recovered_hex: None,
    })
}

#[test]
fn compute_qds_basic() {
    let runs = vec![make_qds(true, 0.0, 0.0, 0), make_qds(false, 0.1, 0.2, 5)];
    let Collected::Qds { shots, bob_rates, charlie_rates, accept_count, eve_counts } = collect(&runs)
    else {
        panic!("expected Qds aggregate")
    };
    assert_eq!(shots, 2);
    assert_eq!(accept_count, 1);
    // Mean Bob mismatch rate 0.05, mean Charlie rate 0.1, mean Eve count 2.5.
    assert_eq!(bob_rates, vec![0.0, 0.1]);
    assert_eq!(charlie_rates, vec![0.0, 0.2]);
    assert_eq!(eve_counts, vec![0, 5]);
}

#[test]
fn compute_mixed_runs() {
    let runs = vec![make_qds(true, 0.0, 0.0, 0), make_auth(true, 1.0)];
    let Collected::Qds { shots, bob_rates, .. } = collect(&runs) else {
        panic!("expected Qds aggregate")
    };
    assert_eq!(shots, 2);
    assert_eq!(bob_rates.len(), 1);
}

#[test]
fn compute_mixed_runs_qkd() {
    let runs = vec![
        make_qkd("BB84", 0.0, true, None, 5, true),
        make_qds(true, 0.0, 0.0, 0),
    ];
    let Collected::Qkd { shots, protocol, key_lengths, .. } = collect(&runs) else {
        panic!("expected Qkd aggregate")
    };
    assert_eq!(shots, 2);
    assert_eq!(protocol, "BB84");
    assert_eq!(key_lengths, vec![5]);
}

#[test]
fn compute_mixed_runs_auth() {
    let runs = vec![make_auth(true, 1.0), make_qds(true, 0.0, 0.0, 0)];
    let Collected::Auth { shots, accuracies, auth_count } = collect(&runs) else {
        panic!("expected Auth aggregate")
    };
    assert_eq!(shots, 2);
    assert_eq!(accuracies, vec![1.0]);
    assert_eq!(auth_count, 1);
}

#[test]
fn compute_qkd_no_qber() {
    let runs = vec![make_qkd("SARG04", 0.0, false, None, 5, true)];
    let Collected::Qkd { shots, qbers, .. } = collect(&runs) else {
        panic!("expected Qkd aggregate")
    };
    assert_eq!(shots, 1);
    // No QBER sample, so the mean QBER is reported as 0.
    assert!(qbers.is_empty());
}

#[test]
fn collect_e91_samples() {
    let runs = vec![
        make_qkd("E91", 0.0, true, Some(-2.8), 5, true),
        make_qkd("E91", 0.1, true, Some(-1.8), 5, false),
    ];
    let Collected::Qkd { qbers, chsh_values, match_count, key_lengths, .. } = collect(&runs) else {
        panic!("expected Qkd aggregate")
    };
    assert_eq!(qbers, vec![0.0, 0.1]);
    assert_eq!(chsh_values, vec![-2.8, -1.8]);
    assert_eq!(match_count, 1);
    assert_eq!(key_lengths, vec![5, 5]);
}

#[test]
fn collect_auth_counts() {
    let runs = vec![make_auth(true, 0.98), make_auth(false, 0.5), make_auth(true, 0.9)];
    let Collected::Auth { shots, accuracies, auth_count } = collect(&runs) else {
        panic!("expected Auth aggregate")
    };
    assert_eq!(shots, 3);
    assert_eq!(accuracies, vec![0.98, 0.5, 0.9]);
    assert_eq!(auth_count, 2);
}
