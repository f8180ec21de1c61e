use qcryptool::channel::ChannelInfo;
use qcryptool::output::{auth_to_csv, qkd_to_csv, AuthCsvTexts, QkdCsvTexts};
use qcryptool::report::{
    auth_aggregate_report, auth_report, qds_aggregate_report, qds_report, qkd_aggregate_report,
    qkd_report, shot_header, terminal_text, text_file, AuthAggregateTexts, AuthShotTexts, ChshTexts, QdsAggregateTexts,
    QdsShotTexts, QkdAggregateTexts, QkdShotTexts,
};
use qcryptool::run::{AuthRun, QdsRun, QkdRun, RunData};

fn make_qkd(protocol: &'static str, chsh: Option<f64>, detail: bool, qber_avail: bool) -> QkdRun<f64> {
    QkdRun {
        protocol,
        shot: 0,
        channel: ChannelInfo {
            channel_type: "bit-flip".into(),
            p: 0.01,
            q: 0.0,
        },
        channel_bob: None,
        raw_length: 1000,
        sifted: 500,
        check_errors: 5,
        qber: 0.02,
        qber_available: qber_avail,
        eve_count: 0,
        key_length: 247,
        keys_match: true,
        chsh_value: chsh,
        alice_key_hex: detail.then(|| "deadbeef".into()),
        bob_key_hex: detail.then(|| "deadbeef".into()),
    }
}

fn make_auth(detail: bool, authenticated: bool, q: f64) -> AuthRun<f64> {
    AuthRun {
        shot: 0,
        channel: ChannelInfo {
            channel_type: "depolarizing".into(),
            p: 0.0,
            q,
        },
        total_qubits: 100,
        matches: 98,
        accuracy: 0.98,
        authenticated,
        alice_id_hex: detail.then(|| "aabbcc".into()),
        alice_commitment_hex: detail.then(|| "ddeeff".into()),
        bob_challenge_hex: detail.then(|| "112233".into()),
        bob_recovered_hex: detail.then(|| "445566".into()),
    }
}

/// `n` as a percentage of `total`, 0 when there is nothing to count (as
/// the program renders it).
fn pct(n: usize, total: usize) -> f64 {
    if total == 0 {
        0.0
    } else {
        100.0 * n as f64 / total as f64
    }
}

fn shown_q(q: f64) -> Option<String> {
    (q != 0.0).then(|| q.to_string())
}

fn qkd_texts(r: &QkdRun<f64>) -> QkdShotTexts {
    QkdShotTexts {
        p: r.channel.p.to_string(),
        q: shown_q(r.channel.q),
        sift_pct: format!("{:.1}", pct(r.sifted, r.raw_length)),
        qber: format!("{:.4}", r.qber),
        qber_pct: format!("{:.2}", r.qber * 100.0),
        chsh: r.chsh_value.map(|c| format!("{:.4}", c)).unwrap_or_default(),
        bell_violated: r.chsh_value.is_some_and(|c| c.abs() > 2.0),
    }
}

fn fmt_qkd_run(r: &QkdRun<f64>, shots: usize) -> String {
    qkd_report(r, shots, &qkd_texts(r))
}

fn fmt_auth_run(r: &AuthRun<f64>, shots: usize) -> String {
    let t = AuthShotTexts {
        p: r.channel.p.to_string(),
        q: shown_q(r.channel.q),
        accuracy: format!("{:.4}", r.accuracy),
        accuracy_pct: format!("{:.2}", r.accuracy * 100.0),
    };
    auth_report(r, shots, &t)
}

fn qkd_csv_texts(run: &RunData<f64>) -> QkdCsvTexts {
    match run {
        RunData::Qkd(r) => QkdCsvTexts {
            p: r.channel.p.to_string(),
            q: r.channel.q.to_string(),
            sift_rate: format!("{:.4}", pct(r.sifted, r.raw_length) / 100.0),
            qber: format!("{:.6}", r.qber),
            chsh: r.chsh_value.map(|c| format!("{:.6}", c)).unwrap_or_default(),
            bell_violated: r.chsh_value.is_some_and(|c| c.abs() > 2.0),
        },
        _ => QkdCsvTexts::default(),
    }
}

fn auth_csv_texts(run: &RunData<f64>) -> AuthCsvTexts {
    match run {
        RunData::Auth(r) => AuthCsvTexts {
            p: r.channel.p.to_string(),
            q: r.channel.q.to_string(),
            accuracy: format!("{:.6}", r.accuracy),
        },
        _ => AuthCsvTexts::default(),
    }
}

fn qkd_csv(runs: &Vec<RunData<f64>>, detail: bool) -> String {
    qkd_to_csv(runs, &runs.iter().map(qkd_csv_texts).collect(), detail)
}

fn auth_csv(runs: &Vec<RunData<f64>>, detail: bool) -> String {
    auth_to_csv(runs, &runs.iter().map(auth_csv_texts).collect(), detail)
}

#[test]
fn fmt_qkd_run_single_shot_has_protocol() {
    let r = make_qkd("BB84", None, false, true);
    let s = fmt_qkd_run(&r, 1);
    assert!(s.contains("BB84"));
    assert!(s.contains("bit-flip"));
    assert!(!s.contains("── Shot"));
}

#[test]
fn fmt_qkd_run_multi_shot_has_header() {
    let r = make_qkd("BB84", None, false, true);
    let s = fmt_qkd_run(&r, 5);
    assert!(s.contains("── Shot 1"));
}

#[test]
fn fmt_qkd_run_with_chsh() {
    let r = make_qkd("E91", Some(-2.8), false, true);
    let s = fmt_qkd_run(&r, 1);
    assert!(s.contains("CHSH"));
    assert!(s.contains("Bell violated"));
}

#[test]
fn fmt_qkd_run_chsh_not_violated() {
    let r = make_qkd("E91", Some(1.5), false, true);
    let s = fmt_qkd_run(&r, 1);
    assert!(s.contains("NOT violated"));
}

#[test]
fn fmt_qkd_run_with_keys() {
    let r = make_qkd("BB84", None, true, true);
    let s = fmt_qkd_run(&r, 1);
    assert!(s.contains("Alice key"));
    assert!(s.contains("deadbeef"));
}

#[test]
fn fmt_qkd_run_qber_unavailable() {
    let r = make_qkd("E91", None, false, false);
    let s = fmt_qkd_run(&r, 1);
    assert!(s.contains("N/A"));
}

#[test]
fn qkd_report_full_text() {
    let r = make_qkd("B92", None, true, true);
    let s = fmt_qkd_run(&r, 1);
    assert_eq!(
        s,
        "Protocol       : B92\n\
         Channel        : bit-flip (p=0.01)\n\
         Raw qubits     : 1000\n\
         Conclusive     : 500 (50.0%)\n\
         Check errors   : 5\n\
         QBER           : 0.0200 (2.00%)\n\
         Eve intercepts : 0\n\
         Key length     : 247 bits\n\
         Keys match     : yes\n\
         Alice key (hex): deadbeef\n\
         Bob key (hex)  : deadbeef\n"
    );
}

#[test]
fn shot_header_counts_from_one() {
    assert_eq!(
        shot_header(41),
        "── Shot 42 ──────────────────────────────────\n"
    );
}

#[test]
fn fmt_auth_run_single_shot() {
    let r = make_auth(false, true, 0.0);
    let s = fmt_auth_run(&r, 1);
    assert!(s.contains("QIA-QZKP"));
    assert!(s.contains("depolarizing"));
    assert!(!s.contains("── Shot"));
}

#[test]
fn fmt_auth_run_multi_shot_has_header() {
    let r = make_auth(false, true, 0.0);
    let s = fmt_auth_run(&r, 3);
    assert!(s.contains("── Shot 1"));
}

#[test]
fn fmt_auth_run_not_authenticated() {
    let r = make_auth(false, false, 0.0);
    let s = fmt_auth_run(&r, 1);
    assert!(s.contains("NO (rejected)"));
}

#[test]
fn fmt_auth_run_with_p2() {
    let r = make_auth(false, true, 0.05);
    let s = fmt_auth_run(&r, 1);
    assert!(s.contains("p2=0.05"));
}

#[test]
fn fmt_auth_run_with_detail() {
    let r = make_auth(true, true, 0.0);
    let s = fmt_auth_run(&r, 1);
    assert!(s.contains("aabbcc"));
    assert!(s.contains("ddeeff"));
    assert!(s.contains("112233"));
    assert!(s.contains("445566"));
}

#[test]
fn qds_report_text() {
    let r = QdsRun {
        shot: 2,
        channel_bob: ChannelInfo {
            channel_type: "depolarizing".into(),
            p: 0.02,
            q: 0.0,
        },
        channel_charlie: ChannelInfo {
            channel_type: "phase-flip".into(),
            p: 0.03,
            q: 0.0,
        },
        num_qubits: 50,
        message: true,
        bob_mismatches: 0,
        charlie_mismatches: 1,
        bob_mismatch_rate: 0.0,
        charlie_mismatch_rate: 0.02,
        signature_accepted: true,
        eve_intercepted_count: 0,
    };
    let t = QdsShotTexts {
        bob_p: "0.02".into(),
        bob_q: None,
        charlie_p: "0.03".into(),
        charlie_q: None,
        bob_rate: "0.0000".into(),
        charlie_rate: "0.0200".into(),
    };
    let s = qds_report(&r, 4, &t);
    assert!(s.starts_with("── Shot 3"));
    assert!(s.contains("GC01"));
    assert!(s.contains("Channel Bob    : depolarizing (p=0.02)\n"));
    assert!(s.contains("Channel Charlie: phase-flip (p=0.03)\n"));
    assert!(s.contains("Charlie mism.  : 1 (0.0200)\n"));
    assert!(s.contains("Signature      : ACCEPTED\n"));
}

#[test]
fn qkd_csv_with_chsh_columns() {
    let runs = vec![RunData::Qkd(make_qkd("E91", Some(-2.8), false, true))];
    let csv = qkd_csv(&runs, false);
    assert!(csv.contains("chsh_value"), "missing chsh_value header");
    assert!(csv.contains("bell_violated"), "missing bell_violated header");
}

#[test]
fn qkd_csv_chsh_none_row_when_has_chsh() {
    let runs = vec![
        RunData::Qkd(make_qkd("E91", Some(-2.8), false, true)),
        RunData::Qkd(make_qkd("E91", None, false, true)),
    ];
    let csv = qkd_csv(&runs, false);
    assert!(
        csv.contains("N/A"),
        "missing N/A for run with no chsh when has_chsh=true"
    );
}

#[test]
fn qkd_csv_qber_na_when_unavailable() {
    let runs = vec![RunData::Qkd(make_qkd("E91", None, false, false))];
    let csv = qkd_csv(&runs, false);
    assert!(csv.contains("N/A"), "qber should be N/A when unavailable");
}

#[test]
fn qkd_csv_skips_auth_entries_in_mixed_slice() {
    let runs = vec![
        RunData::Qkd(make_qkd("BB84", None, false, true)),
        RunData::Auth(make_auth(false, true, 0.0)),
    ];
    let csv = qkd_csv(&runs, false);
    assert_eq!(csv.lines().count(), 2, "should have header + 1 data row");
}

#[test]
fn qkd_csv_full_text() {
    let runs = vec![RunData::Qkd(make_qkd("E91", Some(-2.8), true, true))];
    let csv = qkd_csv(&runs, true);
    assert_eq!(
        csv,
        "shot,channel_type,channel_p,channel_q,raw_length,sifted,sift_rate,check_errors,qber,eve_count,key_length,keys_match,chsh_value,bell_violated,alice_key_hex,bob_key_hex\n\
         1,bit-flip,0.01,0,1000,500,0.5000,5,0.020000,0,247,true,-2.800000,true,deadbeef,deadbeef"
    );
}

#[test]
fn auth_csv_basic_structure() {
    let runs = vec![RunData::Auth(make_auth(false, true, 0.0))];
    let csv = auth_csv(&runs, false);
    let hdr = csv.lines().next().unwrap();
    assert!(hdr.contains("accuracy"));
    assert!(hdr.contains("authenticated"));
    assert!(hdr.contains("channel_type"));
    assert_eq!(csv.lines().count(), 2);
}

#[test]
fn auth_csv_skips_qkd_entries_in_mixed_slice() {
    let runs = vec![
        RunData::Auth(make_auth(false, true, 0.0)),
        RunData::Qkd(make_qkd("BB84", None, false, true)),
    ];
    let csv = auth_csv(&runs, false);
    assert_eq!(csv.lines().count(), 2, "should have header + 1 data row");
}

#[test]
fn auth_csv_with_detail() {
    let runs = vec![RunData::Auth(make_auth(true, true, 0.0))];
    let csv = auth_csv(&runs, true);
    let hdr = csv.lines().next().unwrap();
    assert!(hdr.contains("alice_id_hex"));
    assert!(hdr.contains("bob_recovered_hex"));
    let row = csv.lines().nth(1).unwrap();
    assert!(row.contains("aabbcc"));
}

#[test]
fn fmt_qds_aggregate() {
    let t = QdsAggregateTexts {
        mean_bob_rate: "0.0050".into(),
        std_bob_rate: "0.0050".into(),
        mean_charlie_rate: "0.0100".into(),
        std_charlie_rate: "0.0100".into(),
        accept_pct: "100.0".into(),
        mean_eve: "0.5".into(),
    };
    let s = qds_aggregate_report(2, 2, &t);
    assert!(s.contains("GC01"));
    assert!(s.contains("Bob mismatch"));
    assert!(s.contains("Sig. accepted"));
    assert!(s.contains("Sig. accepted  : 2/2 (100.0%)\n"));
    assert!(s.contains("Eve intercepts : 0.5 avg\n"));
}

#[test]
fn fmt_e91_aggregate() {
    let t = QkdAggregateTexts {
        mean_qber: "0.0500".into(),
        std_qber: "0.0500".into(),
        mean_key: "5.0".into(),
        std_key: "0.0".into(),
        match_pct: "50.0".into(),
        chsh: Some(ChshTexts {
            mean: "-2.3000".into(),
            std: "0.5000".into(),
            violations: 1,
            violation_pct: "50.0".into(),
        }),
    };
    let s = qkd_aggregate_report("E91", 2, 1, &t);
    assert!(s.contains("E91"));
    assert!(s.contains("CHSH S-value"));
    assert!(s.contains("Bell violated"));
    assert!(s.contains("Aggregate (2 shots)"));
    assert!(s.contains("Keys match     : 1/2 (50.0%)\n"));
    assert!(s.contains("Bell violated  : 1/2 (50.0%)\n"));
}

#[test]
fn fmt_auth_aggregate() {
    let t = AuthAggregateTexts {
        mean_accuracy: "0.9800".into(),
        std_accuracy: "0.0000".into(),
        auth_pct: "100.0".into(),
    };
    let s = auth_aggregate_report(3, 3, &t);
    assert_eq!(
        s,
        "\n═══════════════ Aggregate (3 shots) ═══════════════\n\
         Protocol       : QIA-QZKP\n\
         Accuracy       : 0.9800 ± 0.0000\n\
         Auth rate      : 3/3 (100.0%)\n"
    );
}

#[test]
fn text_file_layout() {
    let one = text_file(&vec!["A\n".to_string()], "AGG");
    assert_eq!(one, "A\n\nAGG");
    let two = text_file(&vec!["A\n".to_string(), "B\n".to_string()], "AGG");
    assert_eq!(two, "A\n\nB\n\nAGG");
}

#[test]
fn terminal_shows_the_shot_or_the_aggregate() {
    assert_eq!(terminal_text(1, true, "SHOT\n", "AGG\n"), "SHOT\n");
    assert_eq!(terminal_text(3, false, "SHOT\n", "AGG\n"), "AGG\n");
    assert_eq!(
        terminal_text(3, true, "SHOT\n", "AGG\n"),
        "AGG\n  (per-run detail + keys written to output file)\n"
    );
}

#[test]
fn nothing_sent_gives_a_zero_sift_rate() {
    let mut r = make_qkd("BB84", None, false, true);
    r.raw_length = 0;
    r.sifted = 0;
    let s = fmt_qkd_run(&r, 1);
    assert!(s.contains("(0.0%)"));
    assert!(!s.contains("NaN"));
}
