//! Private-input sets, curve-cycle names, and the signature-material
//! re-encoding.

use ivc_fold::curve::{curve_cycle_from_name, str_eq, CurveCycle};
use ivc_fold::eddsa::{EddsaCircom, SignatureMaterial};
use ivc_fold::errors::IvcError;
use ivc_fold::inputs::{PrivValue, PrivateInputSet};
use ivc_fold::numeric::parse_decimal;

#[test]
fn input_set_insert_and_get() {
    let mut set = PrivateInputSet::new();
    assert!(set.insert("adder".to_string(), PrivValue::Word(9)));
    assert!(!set.insert("adder".to_string(), PrivValue::Word(10)));
    assert!(set.contains_key("adder"));
    match set.get("adder") {
        Some(PrivValue::Word(w)) => assert_eq!(*w, 9),
        other => panic!("wrong binding: {:?}", other),
    }
    assert!(set.get("subtractor").is_none());
}

#[test]
fn curve_cycle_names() {
    assert_eq!(
        curve_cycle_from_name("bn254/grumpkin").unwrap(),
        CurveCycle::Bn256Grumpkin
    );
    assert_eq!(
        curve_cycle_from_name("pallas/vesta").unwrap(),
        CurveCycle::VestaPallas
    );
    assert_eq!(
        curve_cycle_from_name("secp256k1/secq256k1").unwrap_err(),
        IvcError::UnsupportedCurveCycle
    );
    assert_eq!(
        curve_cycle_from_name("").unwrap_err(),
        IvcError::UnsupportedCurveCycle
    );
}

#[test]
fn string_equality_by_view() {
    assert!(str_eq("adder", "adder"));
    assert!(!str_eq("adder", "added"));
    assert!(!str_eq("adder", "adde"));
    assert!(str_eq("", ""));
    assert!(str_eq("caf\u{e9}", "caf\u{e9}"));
    assert!(!str_eq("a", "\u{e1}"));
}

#[test]
fn decimal_parsing_bounds() {
    assert_eq!(parse_decimal("0"), Some(0));
    assert_eq!(parse_decimal("13877"), Some(13877));
    assert_eq!(parse_decimal("18446744073709551615"), Some(u64::MAX));
    assert_eq!(parse_decimal("18446744073709551616"), None);
}

#[test]
fn signature_material_is_reencoded_not_copied() {
    // The bytes of "65" read big-endian are 0x3635 = 13877, so the
    // circuit-facing value must differ from the raw coordinate string.
    let material = SignatureMaterial {
        ax: "65".to_string(),
        ay: "0".to_string(),
        s: "1".to_string(),
        r8x: "10".to_string(),
        r8y: "255".to_string(),
        message: "0".to_string(),
    };
    let circom = EddsaCircom::new(&material);
    assert_eq!(circom.enabled, 1);
    assert_eq!(circom.ax, "13877");
    assert_eq!(circom.ay, "48"); // b"0" is 0x30
    assert_eq!(circom.s, "49"); // b"1" is 0x31
    assert_eq!(circom.r8x, "12592"); // b"10" is 0x3130
    assert_eq!(circom.r8y, "3290421"); // b"255" is 0x323535
    assert_eq!(circom.m, "0");
}

#[test]
fn signature_inputs_carry_the_six_keys() {
    let material = SignatureMaterial {
        ax: "7".to_string(),
        ay: "8".to_string(),
        s: "9".to_string(),
        r8x: "10".to_string(),
        r8y: "11".to_string(),
        message: "0".to_string(),
    };
    let circom = EddsaCircom::new(&material);
    let set = circom.to_private_inputs();
    for key in [
        "priv_hash_2",
        "priv_hash_3",
        "priv_hash_4",
        "priv_hash_5",
        "priv_hash_6",
        "priv_hash_7",
    ] {
        assert!(set.contains_key(key), "missing {}", key);
    }
    assert!(!set.contains_key("priv_hash_1"));
    match set.get("priv_hash_7") {
        Some(PrivValue::Text(m)) => assert_eq!(m, "0"),
        other => panic!("wrong message binding: {:?}", other),
    }
}

#[test]
fn eddsa_scenario_shape() {
    let material = SignatureMaterial {
        ax: "7".to_string(),
        ay: "8".to_string(),
        s: "9".to_string(),
        r8x: "10".to_string(),
        r8y: "11".to_string(),
        message: "0".to_string(),
    };
    let s = ivc_fold::eddsa::scenario_eddsa(&material);
    assert_eq!(s.initial_state, vec![1u64]);
    assert_eq!(s.schedule.len(), 1);
    assert!(s.expected_final.is_none());
    // The single set binds the re-encoded material: b"7" is 0x37 = 55.
    match s.schedule[0].get("priv_hash_2") {
        Some(PrivValue::Big(v)) => assert_eq!(v, "55"),
        other => panic!("wrong binding: {:?}", other),
    }
    // b"10" is 0x3130 = 12592.
    match s.schedule[0].get("priv_hash_5") {
        Some(PrivValue::Big(v)) => assert_eq!(v, "12592"),
        other => panic!("wrong binding: {:?}", other),
    }
    match s.schedule[0].get("priv_hash_7") {
        Some(PrivValue::Text(m)) => assert_eq!(m, "0"),
        other => panic!("wrong binding: {:?}", other),
    }
    // The rule declares exactly the bound keys, so a driver accepts it.
    let driver =
        ivc_fold::driver::FoldingDriver::new(&s.rule, s.schedule, s.initial_state);
    assert!(driver.is_ok());
}

#[test]
fn sponge_parameters_fixture() {
    let p = ivc_fold::sponge::poseidon_sponge_parameters();
    assert_eq!(p.full_rounds, 8);
    assert_eq!(p.partial_rounds, 60);
    assert_eq!(p.alpha, 5);
    assert_eq!(p.rate, 4);
    assert_eq!(p.capacity, 1);
    assert_eq!(p.skip_matrices, 0);
}
