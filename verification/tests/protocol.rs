use qcryptool::protocol::{
    mismatch_warning, protocol_mismatch, resolve_protocol_name, select_protocol, subcommand_applies, Protocol,
    ProtocolError,
};

const ALL: [Protocol; 8] = [
    Protocol::Bb84,
    Protocol::B92,
    Protocol::Bbm92,
    Protocol::E91,
    Protocol::SixState,
    Protocol::Sarg04,
    Protocol::QiaQzkp,
    Protocol::Gc01,
];

#[test]
fn protocol_names() {
    let names: Vec<&str> = ALL.iter().map(|p| p.as_str()).collect();
    assert_eq!(
        names,
        vec!["bb84", "b92", "bbm92", "e91", "six-state", "sarg04", "qia-qzkp", "gc01"]
    );
}

#[test]
fn protocol_name_round_trip() {
    for p in ALL {
        assert_eq!(Protocol::from_lowercase_name(p.as_str()), Some(p));
        assert_eq!(select_protocol(p.as_str()).unwrap(), p);
    }
}

#[test]
fn select_protocol_ignores_case() {
    assert_eq!(select_protocol("BB84").unwrap(), Protocol::Bb84);
    assert_eq!(select_protocol("Six-State").unwrap(), Protocol::SixState);
    assert_eq!(select_protocol("QIA-QZKP").unwrap(), Protocol::QiaQzkp);
    assert_eq!(Protocol::from_lowercase_name("BB84"), None);
}

#[test]
fn select_protocol_unknown() {
    let err = select_protocol("UnKnown").unwrap_err();
    assert!(matches!(&err, ProtocolError::Unknown(n) if n == "unknown"));
    assert_eq!(err.message(), "Error: unknown protocol 'unknown'");
}

#[test]
fn protocol_name_from_config_or_subcommand() {
    assert_eq!(
        resolve_protocol_name(&Some("bb84".to_string()), Some(Protocol::B92)).unwrap(),
        "bb84"
    );
    assert_eq!(resolve_protocol_name(&None, Some(Protocol::Gc01)).unwrap(), "gc01");
    let err = resolve_protocol_name(&None, None).unwrap_err();
    assert_eq!(
        err.message(),
        "Error: 'protocol' field is required in experiment config when no subcommand is used"
    );
}

#[test]
fn warning_protocol_mismatch() {
    assert!(protocol_mismatch(&Some("bb84".to_string()), Some(Protocol::B92)));
    assert!(!protocol_mismatch(&Some("BB84".to_string()), Some(Protocol::Bb84)));
    assert!(!protocol_mismatch(&Some("bb84".to_string()), None));
    assert!(!protocol_mismatch(&None, Some(Protocol::B92)));
    let w = mismatch_warning("bb84", Protocol::B92);
    assert!(w.contains("Warning"));
    assert_eq!(
        w,
        "Warning: experiment config protocol 'bb84' does not match subcommand 'b92'"
    );
}

#[test]
fn protocol_channels_and_labels() {
    let two: Vec<bool> = ALL.iter().map(|p| p.uses_second_channel()).collect();
    assert_eq!(two, vec![false, false, true, true, false, false, false, true]);
    let labels: Vec<Option<&str>> = ALL.iter().map(|p| p.qkd_label()).collect();
    assert_eq!(
        labels,
        vec![
            Some("BB84"),
            Some("B92"),
            Some("BBM92"),
            Some("E91"),
            Some("Six-State"),
            Some("SARG04"),
            None,
            None
        ]
    );
}

#[test]
fn protocol_names_ignore_case() {
    assert!(matches!(select_protocol("BB84"), Ok(Protocol::Bb84)));
    assert!(matches!(select_protocol("Six-State"), Ok(Protocol::SixState)));
    assert!(matches!(select_protocol("QIA-QZKP"), Ok(Protocol::QiaQzkp)));
    match select_protocol("BB85") {
        Err(ProtocolError::Unknown(n)) => assert_eq!(n, "bb85"),
        _ => panic!("expected an unknown protocol"),
    }
}

#[test]
fn subcommand_arguments_apply_to_their_own_protocol() {
    assert!(subcommand_applies(Protocol::Bb84, Some(Protocol::Bb84)));
    assert!(!subcommand_applies(Protocol::Bb84, Some(Protocol::B92)));
    assert!(!subcommand_applies(Protocol::Gc01, None));
}

#[test]
fn lowercased_names_select_alike() {
    for name in ["BB84", "Sarg04", "E91", "Nope"] {
        let lower = name.to_lowercase();
        let a = select_protocol(name).map_err(|e| e.message());
        let b = select_protocol(&lower).map_err(|e| e.message());
        assert_eq!(a, b);
    }
}
