use qcryptool::channel::ChannelInfo;
use qcryptool::run::{auth_record, keys_equal, qkd_record, seed_shot, shot_seed, to_hex, SeedState};

fn noop_info() -> ChannelInfo<f64> {
    ChannelInfo {
        channel_type: "bit-flip".into(),
        p: 0.0,
        q: 0.0,
    }
}

#[test]
fn to_hex_empty() {
    assert_eq!(to_hex(&[]), "(empty)");
}

#[test]
fn to_hex_full_byte_all_ones() {
    let bits = [true; 8];
    assert_eq!(to_hex(&bits), "ff");
}

#[test]
fn to_hex_full_byte_alternating() {
    let bits = [true, false, true, false, true, false, true, false];
    assert_eq!(to_hex(&bits), "aa");
}

#[test]
fn to_hex_single_bit_msb() {
    let bits = [true, false, false, false, false, false, false, false];
    assert_eq!(to_hex(&bits), "80");
}

#[test]
fn to_hex_lsb_only() {
    let bits = [false, false, false, false, false, false, false, true];
    assert_eq!(to_hex(&bits), "01");
}

#[test]
fn to_hex_two_bytes() {
    let byte1 = [true, false, true, false, true, false, true, false];
    let byte2 = [false, true, false, true, false, true, false, true];
    let bits: Vec<bool> = byte1.into_iter().chain(byte2).collect();
    assert_eq!(to_hex(&bits), "aa55");
}

#[test]
fn to_hex_partial_byte() {
    let bits = [true, false, true, false];
    assert_eq!(to_hex(&bits), "a0");
}

#[test]
fn to_hex_padding_matches_explicit_zeros() {
    let short = [true, true, false, true, true, false, false, false, true, true, false];
    let mut padded = short.to_vec();
    padded.extend([false; 5]);
    assert_eq!(to_hex(&short), to_hex(&padded));
    assert_eq!(to_hex(&short), "d8c0");
    assert_eq!(to_hex(&[false; 17]), "000000");
}

#[test]
fn keys_equal_both_empty() {
    assert!(keys_equal(&[], &[]));
}

#[test]
fn keys_equal_identical() {
    assert!(keys_equal(&[true, false, true], &[true, false, true]));
}

#[test]
fn keys_equal_different_value() {
    assert!(!keys_equal(&[true, false], &[true, true]));
}

#[test]
fn keys_equal_different_length() {
    assert!(!keys_equal(&[true], &[true, false]));
}

#[test]
fn qkd_record_with_keys() {
    let alice = [true, false, true, false, true, false, true, false];
    let r = qkd_record(
        "BB84",
        3,
        noop_info(),
        None,
        100,
        50,
        2,
        Some(0.04),
        0.0,
        1,
        &alice,
        &alice,
        None,
        true,
    );
    assert_eq!(r.protocol, "BB84");
    assert_eq!(r.shot, 3);
    assert_eq!(r.key_length, 8);
    assert!(r.keys_match);
    assert!(r.qber_available);
    assert_eq!(r.qber, 0.04);
    assert_eq!(r.alice_key_hex.as_deref(), Some("aa"));
    assert_eq!(r.bob_key_hex.as_deref(), Some("aa"));
}

#[test]
fn qkd_record_without_keys_or_qber() {
    let r = qkd_record(
        "E91",
        0,
        noop_info(),
        Some(noop_info()),
        100,
        10,
        0,
        None,
        0.0,
        0,
        &[true, true],
        &[true, false],
        Some(-2.8),
        false,
    );
    assert!(!r.qber_available);
    assert_eq!(r.qber, 0.0);
    assert!(!r.keys_match);
    assert_eq!(r.key_length, 2);
    assert_eq!(r.chsh_value, Some(-2.8));
    assert!(r.alice_key_hex.is_none());
    assert!(r.bob_key_hex.is_none());
    assert!(r.channel_bob.is_some());
}

#[test]
fn auth_record_with_detail() {
    let r = auth_record(
        1,
        noop_info(),
        100,
        98,
        0.98,
        true,
        &[true; 8],
        &[false; 8],
        &[true, false, false, false, false, false, false, false],
        &[false, false, false, false, false, false, false, true],
        true,
    );
    assert_eq!(r.alice_id_hex.as_deref(), Some("ff"));
    assert_eq!(r.alice_commitment_hex.as_deref(), Some("00"));
    assert_eq!(r.bob_challenge_hex.as_deref(), Some("80"));
    assert_eq!(r.bob_recovered_hex.as_deref(), Some("01"));
    assert!(r.authenticated);
    let r = auth_record(1, noop_info(), 100, 98, 0.98, false, &[true], &[true], &[true], &[true], false);
    assert!(r.alice_id_hex.is_none() && r.bob_recovered_hex.is_none());
}

#[test]
fn shot_seeds_are_consecutive() {
    assert_eq!(shot_seed(Some(42), 0), Some(42));
    assert_eq!(shot_seed(Some(42), 5), Some(47));
    assert_eq!(shot_seed(None, 5), None);
    assert_eq!(shot_seed(Some(40), 2), shot_seed(Some(42), 0));
}

#[test]
fn seed_shot_reports_installed_seed() {
    let mut st = SeedState::new();
    assert_eq!(seed_shot(Some(7), 3, &mut st), Some(10));
    assert_eq!(seed_shot(None, 3, &mut st), None);
}

#[test]
fn seed_shot_reseeds_the_generator() {
    let mut st = SeedState::new();
    seed_shot(Some(40), 2, &mut st);
    let a = qcrypto::rng::random_f64();
    qcrypto::rng::set_global_seed(42);
    let b = qcrypto::rng::random_f64();
    assert_eq!(a, b);
    seed_shot(Some(40), 3, &mut st);
    let c = qcrypto::rng::random_f64();
    assert_ne!(a, c);
    qcrypto::rng::set_global_seed(42);
    let d = qcrypto::rng::random_f64();
    seed_shot(None, 3, &mut st);
    let e = qcrypto::rng::random_f64();
    qcrypto::rng::set_global_seed(42);
    qcrypto::rng::random_f64();
    let f = qcrypto::rng::random_f64();
    assert_eq!(a, d);
    assert_eq!(e, f);
}
