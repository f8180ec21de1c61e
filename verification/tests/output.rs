use qcryptool::channel::ChannelInfo;
use qcryptool::output::{
    aggregate_json_keys, auth_headers, csv_file, has_chsh, join, output_format, qkd_headers,
    qkd_to_csv, raw_label, run_json_keys, shot_number, shown_qber, sift_label, AuthCsvTexts, OutputFormat, QdsCsvTexts,
    QkdCsvTexts,
};
use qcryptool::run::{AuthRun, QkdRun, RunData};
use qcryptool::stats::collect;

fn qkd(chsh: Option<f64>) -> RunData<f64> {
    RunData::Qkd(QkdRun {
        protocol: "E91",
        shot: 0,
        channel: ChannelInfo {
            channel_type: "bit-flip".into(),
            p: 0.01,
            q: 0.0,
        },
        channel_bob: None,
        raw_length: 1000,
        sifted: 500,
        check_errors: 5,
        qber: 0.02,
        qber_available: true,
        eve_count: 0,
        key_length: 247,
        keys_match: true,
        chsh_value: chsh,
        alice_key_hex: None,
        bob_key_hex: None,
    })
}

#[test]
fn labels_by_protocol() {
    assert_eq!(raw_label("BBM92"), "Raw pairs  ");
    assert_eq!(raw_label("E91"), "Raw pairs  ");
    assert_eq!(raw_label("BB84"), "Raw qubits ");
    assert_eq!(sift_label("B92"), "Conclusive ");
    assert_eq!(sift_label("SARG04"), "Conclusive ");
    assert_eq!(sift_label("Six-State"), "Sifted bits");
}

#[test]
fn output_format_by_extension() {
    assert_eq!(output_format("res.json"), OutputFormat::Json);
    assert_eq!(output_format("/tmp/dir/res.csv"), OutputFormat::Csv);
    assert_eq!(output_format("res.txt"), OutputFormat::Text);
    assert_eq!(output_format("json"), OutputFormat::Text);
    assert_eq!(output_format("res.csv.bak"), OutputFormat::Text);
}

#[test]
fn qkd_headers_with_chsh_and_keys() {
    let h = join(&qkd_headers(false, false), ",");
    assert!(h.starts_with("shot,channel_type"));
    assert_eq!(
        h,
        "shot,channel_type,channel_p,channel_q,raw_length,sifted,sift_rate,check_errors,qber,eve_count,key_length,keys_match"
    );
    let h = join(&qkd_headers(true, true), ",");
    assert!(h.contains("chsh_value"));
    assert!(h.contains("bell_violated"));
    assert!(h.ends_with("chsh_value,bell_violated,alice_key_hex,bob_key_hex"));
}

#[test]
fn auth_headers_with_detail() {
    let h = join(&auth_headers(false), ",");
    assert!(h.contains("accuracy"));
    assert!(h.contains("authenticated"));
    assert!(h.contains("channel_type"));
    assert!(!h.contains("alice_id_hex"));
    let h = join(&auth_headers(true), ",");
    assert!(h.contains("alice_id_hex"));
    assert!(h.contains("bob_recovered_hex"));
}

#[test]
fn join_fields() {
    let v = vec!["a".to_string(), "b".to_string(), "c".to_string()];
    assert_eq!(join(&v, ","), "a,b,c");
    assert_eq!(join(&v, "\n"), "a\nb\nc");
    assert_eq!(join(&vec![], ","), "");
    assert_eq!(join(&vec!["x".to_string()], ","), "x");
}

#[test]
fn chsh_columns_when_any_run_has_chsh() {
    assert!(has_chsh(&vec![qkd(Some(-2.8)), qkd(None)]));
    assert!(has_chsh(&vec![qkd(None), qkd(Some(1.5))]));
    assert!(!has_chsh(&vec![qkd(None)]));
}

fn auth(detail: bool) -> RunData<f64> {
    let hex = |h: &str| if detail { Some(h.to_string()) } else { None };
    RunData::Auth(AuthRun {
        shot: 0,
        channel: ChannelInfo {
            channel_type: "identity".into(),
            p: 0.0,
            q: 0.0,
        },
        total_qubits: 100,
        matches: 98,
        accuracy: 0.98,
        authenticated: true,
        alice_id_hex: hex("aa"),
        alice_commitment_hex: hex("bb"),
        bob_challenge_hex: hex("cc"),
        bob_recovered_hex: hex("dd"),
    })
}

#[test]
fn csv_file_follows_first_shot() {
    let runs = vec![qkd(None), auth(false)];
    let texts = vec![QkdCsvTexts::default(), QkdCsvTexts::default()];
    let csv = csv_file(&runs, &texts, &vec![], &vec![], false);
    assert_eq!(csv, qkd_to_csv(&runs, &texts, false));
    assert_eq!(csv.lines().count(), 2);
    assert!(csv.starts_with("shot,channel_type,channel_p,channel_q,raw_length"));

    let runs = vec![auth(true), qkd(None)];
    let texts = vec![
        AuthCsvTexts {
            p: "0".into(),
            q: "0".into(),
            accuracy: "0.980000".into(),
        },
        AuthCsvTexts::default(),
    ];
    let csv = csv_file(&runs, &vec![], &texts, &Vec::<QdsCsvTexts>::new(), true);
    assert_eq!(
        csv,
        "shot,channel_type,channel_p,channel_q,total_qubits,matches,accuracy,authenticated,\
         alice_id_hex,alice_commitment_hex,bob_challenge_hex,bob_recovered_hex\n\
         1,identity,0,0,100,98,0.980000,true,aa,bb,cc,dd"
    );
}

#[test]
fn json_keys_of_a_shot() {
    let k = run_json_keys(&qkd(None));
    assert_eq!(k.len(), 12);
    assert_eq!(k[0], "shot");
    assert_eq!(k[11], "keys_match");
    let k = run_json_keys(&qkd(Some(-2.8)));
    assert_eq!(&k[12..], ["chsh_value", "bell_violated"]);
    assert_eq!(run_json_keys(&auth(false)).len(), 8);
    let k = run_json_keys(&auth(true));
    assert_eq!(
        &k[8..],
        ["alice_id_hex", "alice_commitment_hex", "bob_challenge_hex", "bob_recovered_hex"]
    );
}

#[test]
fn json_keys_of_an_aggregate() {
    let k = aggregate_json_keys(&collect(&vec![qkd(None), qkd(None)]));
    assert_eq!(
        k,
        [
            "protocol",
            "shots",
            "mean_qber",
            "std_qber",
            "mean_key_length",
            "std_key_length",
            "keys_match_rate"
        ]
    );
    let k = aggregate_json_keys(&collect(&vec![qkd(None), qkd(Some(-2.8))]));
    assert_eq!(&k[7..], ["mean_chsh", "std_chsh", "bell_violation_rate"]);
    let k = aggregate_json_keys(&collect(&vec![auth(false)]));
    assert_eq!(k, ["protocol", "shots", "mean_accuracy", "std_accuracy", "authentication_rate"]);
}

#[test]
fn json_values_of_a_shot() {
    assert_eq!(shot_number(0), 1);
    assert_eq!(shot_number(41), 42);
    let RunData::Qkd(mut r) = qkd(None) else { unreachable!() };
    assert_eq!(shown_qber(&r), Some(0.02));
    r.qber_available = false;
    assert_eq!(shown_qber(&r), None);
}
