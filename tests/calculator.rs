use lc_calculator::calculations::{
    calculate_impedance_parallel, calculate_impedance_series, calculate_missing, calculate_resonant_frequency, cf0_to_l,
    lc_capacitive_reactance, lc_inductive_reactance, lc_to_f0, lf0_to_c,
};
use lc_calculator::consts::ConstCache;
use lc_calculator::conversions::{base_unit, convert_from_base, convert_measure, convert_to_base, get_omega};
use lc_calculator::logic::{
    calculate, get_full_value_list, run_app, CalcError, CalcRequest, ImpedanceMode, Inferred,
};
use lc_calculator::types::{BFloat, UnitType};
use lc_calculator::units::{classify, label_exponent, unit_labels};
use lc_calculator::utils::{bigfloat_to_plain_decimal, bigfloat_to_string, plain_decimal_string, FormatError};

const INV_TWO_PI: &str = "0.1591549430918953357688837633725143620344596457404564487476673440588967976342265350901138027662530859560728427";
const TWO_PI: &str = "6.283185307179586476925286766559005768394338798750211641949889184615632812572417";

fn text(x: &BFloat, cache: &mut ConstCache) -> String {
    x.as_decimal_string(cache).unwrap()
}

/// `a` and `b` agree to at least 250 significant decimal digits.
fn close(a: &BFloat, b: &BFloat, cache: &mut ConstCache) -> bool {
    let rel = a.sub(b).div(a).abs();
    let t = text(&rel, cache);
    t == "0" || t.starts_with(&format!("0.{}", "0".repeat(250)))
}

fn request(l: &str, lt: &str, c: &str, ct: &str, f: &str, ft: &str, mode: i32) -> CalcRequest {
    CalcRequest {
        l_str: l.to_string(),
        c_str: c.to_string(),
        f_str: f.to_string(),
        l_type: lt.to_string(),
        c_type: ct.to_string(),
        f_type: ft.to_string(),
        type_index: mode,
        imp_type: "Ω".to_string(),
        xl_type: "Ω".to_string(),
        xc_type: "Ω".to_string(),
        rf_type: "Hz".to_string(),
    }
}

#[test]
fn resonant_frequency_of_one_henry_and_one_farad() {
    let mut cache = ConstCache::new().unwrap();
    let l = cache.parse("1");
    let c = cache.parse("1");
    let f = calculate_resonant_frequency(l, c, &mut cache);
    let shown = convert_measure(f, UnitType::Hertz, "Hz", "Hz").unwrap();
    assert!(text(&shown, &mut cache).starts_with(INV_TWO_PI));
}

#[test]
fn lc_to_f0_in_kilohertz() {
    let mut cache = ConstCache::new().unwrap();
    let l = convert_to_base(cache.parse("2"), UnitType::Henry, "mH").unwrap();
    let c = convert_to_base(cache.parse("330"), UnitType::Farad, "nF").unwrap();
    let f = lc_to_f0(l, c, &mut cache);
    let khz = convert_from_base(f, UnitType::Hertz, "kHz").unwrap();
    assert!(text(&khz, &mut cache).starts_with("6.19509775775638965493996206408093076921550311403983"));
}

#[test]
fn capacitance_inferred_from_inductance_and_frequency() {
    let mut cache = ConstCache::new().unwrap();
    let q = request("10", "mH", "", "μF", "1000", "Hz", 0);
    let u = run_app(&q, &mut cache).unwrap();
    let (kind, shown) = u.inferred.unwrap();
    let shown = shown.unwrap();
    assert_eq!(kind, UnitType::Farad);
    assert!(shown.starts_with("2.53302959105844428609698658024319097260896936680616372114"));

    // The same value computed directly from C = 1/(L·(2πf)²).
    let l = cache.parse("0.01");
    let f = cache.parse("1000");
    let c = lf0_to_c(l, f, &mut cache);
    let direct = text(&convert_from_base(c, UnitType::Farad, "μF").unwrap(), &mut cache);
    assert_eq!(&shown[..80], &direct[..80]);
}

#[test]
fn inductance_inferred_from_capacitance_and_frequency() {
    let mut cache = ConstCache::new().unwrap();
    let v = get_full_value_list("", "2.5330295910584442860969865802431909726089693668061637211402", "1", "mH", "μF", "kHz", &mut cache).unwrap();
    match v.inferred {
        Some(Inferred::Inductance(x)) => assert!(text(&x, &mut cache).starts_with("9.99999999999999999999999999999")
            || text(&x, &mut cache).starts_with("10.0000000000000000000000000000")),
        _ => panic!("inductance should be derived"),
    }
    assert!(text(&v.f, &mut cache) == "1000");
}

#[test]
fn frequency_inferred_from_inductance_and_capacitance() {
    let mut cache = ConstCache::new().unwrap();
    let v = get_full_value_list("1", "1", "", "H", "F", "Hz", &mut cache).unwrap();
    match &v.inferred {
        Some(Inferred::Frequency(x)) => assert!(text(x, &mut cache).starts_with(INV_TWO_PI)),
        _ => panic!("frequency should be derived"),
    }
    assert!(text(&v.f, &mut cache).starts_with(INV_TWO_PI));
}

#[test]
fn nothing_computed_when_two_inputs_are_missing() {
    let mut cache = ConstCache::new().unwrap();
    let q = request("", "H", "", "F", "1000", "Hz", 0);
    assert!(run_app(&q, &mut cache).is_none());
    assert!(matches!(
        get_full_value_list("", "", "1000", "H", "F", "Hz", &mut cache),
        Err(CalcError::Underdetermined)
    ));
    assert!(matches!(
        calculate("", "", "1000", "H", "F", "Hz", ImpedanceMode::Series, "Ω", "Ω", "Ω", "Hz", &mut cache),
        Err(CalcError::Underdetermined)
    ));
}

#[test]
fn unparseable_input_counts_as_missing() {
    let mut cache = ConstCache::new().unwrap();
    assert!(matches!(
        get_full_value_list("abc", "", "1000", "H", "F", "Hz", &mut cache),
        Err(CalcError::Underdetermined)
    ));
}

#[test]
fn unknown_unit_is_refused() {
    let mut cache = ConstCache::new().unwrap();
    assert!(matches!(
        get_full_value_list("1", "1", "", "Hz", "F", "Hz", &mut cache),
        Err(CalcError::UnknownUnit)
    ));
    assert!(matches!(
        calculate("1", "1", "1", "H", "F", "Hz", ImpedanceMode::Series, "Ohm", "Ω", "Ω", "Hz", &mut cache),
        Err(CalcError::UnknownUnit)
    ));
    assert!(convert_measure(BFloat::one(), UnitType::Farad, "F", "kF").is_none());
    assert!(convert_to_base(BFloat::one(), UnitType::NotSelected, "F").is_none());
}

#[test]
fn no_combination_selected() {
    let mut cache = ConstCache::new().unwrap();
    assert!(run_app(&request("1", "H", "1", "F", "1", "Hz", -1), &mut cache).is_none());
    assert!(run_app(&request("1", "H", "1", "F", "1", "Hz", 2), &mut cache).is_none());
}

#[test]
fn series_impedance_of_unit_values() {
    let mut cache = ConstCache::new().unwrap();
    let u = run_app(&request("1", "H", "1", "F", "1", "Hz", 0), &mut cache).unwrap();
    assert!(u.impedance.as_ref().unwrap().starts_with("6.12403036408769114115640300318649140635987915300975519320222"));
    assert!(u.inductive_reactance.as_ref().unwrap().starts_with(TWO_PI));
    assert!(u.capacitive_reactance.as_ref().unwrap().starts_with(INV_TWO_PI));
    assert!(u.resonant_frequency.as_ref().unwrap().starts_with(INV_TWO_PI));
    assert!(u.inferred.is_none());
}

#[test]
fn parallel_impedance_of_unit_values() {
    let mut cache = ConstCache::new().unwrap();
    let u = run_app(&request("1", "H", "1", "F", "1", "Hz", 1), &mut cache).unwrap();
    assert!(u.impedance.as_ref().unwrap().starts_with("0.16329115640316913558566696473506551537570150218689554297593"));
    assert!(u.inductive_reactance.as_ref().unwrap().starts_with(TWO_PI));
}

#[test]
fn results_in_requested_units() {
    let mut cache = ConstCache::new().unwrap();
    let mut q = request("1", "H", "1", "F", "1", "Hz", 0);
    q.imp_type = "kΩ".to_string();
    q.xl_type = "MΩ".to_string();
    q.rf_type = "kHz".to_string();
    let u = run_app(&q, &mut cache).unwrap();
    assert!(u.impedance.as_ref().unwrap().starts_with("0.00612403036408769114115640300318649140635987915300975519320222"));
    assert!(u.inductive_reactance.as_ref().unwrap().starts_with("0.000006283185307179586476925286766559005768394338798750211641949889"));
    assert!(u.resonant_frequency.as_ref().unwrap().starts_with("0.0001591549430918953357688837633725143620344596457404564487476673440588967976342265350901138027662530859560728427"));
}

#[test]
fn impedance_at_resonance() {
    // L = 1 H, C = 1 F, ω = 1: the reactances are +1 and −1 exactly.
    let l = BFloat::one();
    let c = BFloat::one();
    let (z, xl, xc) = calculate_impedance_series(l.clone(), c.clone(), BFloat::one());
    assert!(z.is_zero());
    let mut cache = ConstCache::new().unwrap();
    assert_eq!(text(&xl, &mut cache), "1");
    assert_eq!(text(&xc, &mut cache), "1");
    let (z, _, _) = calculate_impedance_parallel(l, c, BFloat::one());
    assert!(z.is_inf_pos());
    assert_eq!(text(&z, &mut cache), "Inf");
}

#[test]
fn reactances_as_complex_numbers() {
    let mut cache = ConstCache::new().unwrap();
    let xl = lc_inductive_reactance(cache.parse("2"), cache.parse("3"));
    assert!(xl.re.is_zero());
    assert_eq!(text(&xl.im, &mut cache), "6");
    let xc = lc_capacitive_reactance(cache.parse("0.5"), cache.parse("4"));
    assert!(xc.re.is_zero());
    assert_eq!(text(&xc.im, &mut cache), "-0.5");
}

#[test]
fn resonance_inverse_consistency() {
    let mut cache = ConstCache::new().unwrap();
    for (l_text, c_text) in [("0.002", "0.00000033"), ("1", "1"), ("0.000000047", "0.0000000000022"), ("12.5", "0.75")] {
        let l = cache.parse(l_text);
        let c = cache.parse(c_text);
        let f0 = lc_to_f0(l.clone(), c.clone(), &mut cache);
        let c_back = lf0_to_c(l.clone(), f0.clone(), &mut cache);
        let l_back = cf0_to_l(c.clone(), f0, &mut cache);
        assert!(close(&c, &c_back, &mut cache), "C for {l_text} {c_text}");
        assert!(close(&l, &l_back, &mut cache), "L for {l_text} {c_text}");
    }
}

#[test]
fn identity_conversion() {
    let mut cache = ConstCache::new().unwrap();
    for (kind, label) in [(UnitType::Hertz, "kHz"), (UnitType::Farad, "pF"), (UnitType::Henry, "μH"), (UnitType::Ohm, "MΩ")] {
        let x = cache.parse("123.456");
        let before = text(&x, &mut cache);
        let y = convert_measure(x, kind, label, label).unwrap();
        assert_eq!(text(&y, &mut cache), before);
    }
}

#[test]
fn round_trip_conversion_towards_smaller_units_is_exact() {
    let mut cache = ConstCache::new().unwrap();
    for kind in [UnitType::Hertz, UnitType::Farad, UnitType::Henry, UnitType::Ohm] {
        let labels = unit_labels(kind);
        for a in &labels {
            for b in &labels {
                let ea = label_exponent(kind, a).unwrap();
                let eb = label_exponent(kind, b).unwrap();
                if ea < eb {
                    continue;
                }
                for v in ["1", "0", "123.456", "98765432109876543210", "0.000000000123"] {
                    let x = cache.parse(v);
                    let before = text(&x, &mut cache);
                    let y = convert_measure(x, kind, a, b).unwrap();
                    let z = convert_measure(y, kind, b, a).unwrap();
                    assert_eq!(text(&z, &mut cache), before, "{v} {a} -> {b} -> {a}");
                }
            }
        }
    }
}

#[test]
fn round_trip_conversion_towards_larger_units_is_close() {
    let mut cache = ConstCache::new().unwrap();
    let x = cache.parse("1");
    let y = convert_measure(x, UnitType::Hertz, "Hz", "GHz").unwrap();
    assert_eq!(text(&y, &mut cache), "0.000000001");
    let z = convert_measure(y, UnitType::Hertz, "GHz", "Hz").unwrap();
    let back = text(&z, &mut cache);
    assert!(back.starts_with(&format!("1.{}", "0".repeat(250))));
}

#[test]
fn conversion_scales_by_powers_of_ten() {
    let mut cache = ConstCache::new().unwrap();
    let x = convert_measure(cache.parse("5"), UnitType::Farad, "F", "pF").unwrap();
    assert_eq!(text(&x, &mut cache), "5000000000000");
    let x = convert_measure(cache.parse("2500"), UnitType::Hertz, "kHz", "MHz").unwrap();
    assert_eq!(text(&x, &mut cache), "2.5");
    let x = convert_to_base(cache.parse("3"), UnitType::Ohm, "MΩ").unwrap();
    assert_eq!(text(&x, &mut cache), "3000000");
    let x = convert_from_base(cache.parse("0.5"), UnitType::Henry, "mH").unwrap();
    assert_eq!(text(&x, &mut cache), "500");
}

#[test]
fn exact_decimal_text_of_literals() {
    let mut cache = ConstCache::new().unwrap();
    for t in ["1000000", "-2.5", "0.0625", "123.125", "7", "-0.001953125"] {
        let x = cache.parse(t);
        assert_eq!(text(&x, &mut cache), t);
    }
}

#[test]
fn exact_decimal_text_of_special_values() {
    let mut cache = ConstCache::new().unwrap();
    assert_eq!(text(&BFloat::nan(), &mut cache), "NaN");
    assert_eq!(text(&BFloat::one().div(&BFloat::zero()), &mut cache), "Inf");
    assert_eq!(text(&BFloat::one().neg().div(&BFloat::zero()), &mut cache), "-Inf");
    assert_eq!(text(&BFloat::zero().div(&BFloat::zero()), &mut cache), "NaN");
    assert_eq!(text(&BFloat::zero(), &mut cache), "0");
    assert_eq!(text(&BFloat::zero().neg(), &mut cache), "0");
    assert_eq!(bigfloat_to_plain_decimal(&cache.parse("-Inf"), &mut cache), Ok("-Inf".to_string()));
    let r: Result<String, FormatError> = bigfloat_to_plain_decimal(&BFloat::from_u64(12), &mut cache);
    assert_eq!(r, Ok("12".to_string()));
}

#[test]
fn plain_decimal_layout() {
    assert_eq!(plain_decimal_string(false, &vec![1, 2, 3, 4, 5, 6], 3), "123.456");
    assert_eq!(plain_decimal_string(false, &vec![1], -3), "0.0001");
    assert_eq!(plain_decimal_string(false, &vec![1], 7), "1000000");
    assert_eq!(plain_decimal_string(true, &vec![2, 5, 0, 0], 1), "-2.5");
    assert_eq!(plain_decimal_string(false, &vec![1, 0, 0, 0], 2), "10");
    assert_eq!(plain_decimal_string(false, &vec![5, 0, 0], 0), "0.5");
    assert_eq!(plain_decimal_string(true, &vec![0, 0], 0), "-0");
    assert_eq!(plain_decimal_string(false, &vec![], 0), "0");
}

#[test]
fn arithmetic_wrappers() {
    let mut cache = ConstCache::new().unwrap();
    let a = cache.parse("2.5");
    let b = cache.parse("4");
    assert_eq!(text(&a.add(&b), &mut cache), "6.5");
    assert_eq!(text(&a.sub(&b), &mut cache), "-1.5");
    assert_eq!(text(&a.mul(&b), &mut cache), "10");
    assert_eq!(text(&a.div(&b), &mut cache), "0.625");
    assert_eq!(text(&b.pow(3), &mut cache), "64");
    assert_eq!(text(&b.sqrt(), &mut cache), "2");
    assert!(b.neg().sqrt().is_nan());
    assert_eq!(text(&a.neg().abs(), &mut cache), "2.5");
    assert_eq!(text(&BFloat::from_u64(42), &mut cache), "42");
    assert!(BFloat::one().is_one());
    assert!(!b.is_one());
    assert!(cache.parse("").is_nan());
    assert!(cache.parse("1.2.x").is_nan() || !cache.parse("1.2.x").is_nan());
    assert!(cache.parse("garbage").is_nan());
}

#[test]
fn zero_and_one_helpers() {
    let mut cache = ConstCache::new().unwrap();
    let mut x = cache.parse("3");
    x.set_zero();
    assert!(x.is_zero());
    x.set_one();
    assert!(x.is_one());
    assert!(BFloat::zero().is_zero());
    assert!(!BFloat::one().is_zero());
}

#[test]
fn angular_frequency_and_cached_two_pi() {
    let mut cache = ConstCache::new().unwrap();
    let w = get_omega(BFloat::one(), &mut cache);
    assert!(text(&w, &mut cache).starts_with(TWO_PI));
    let a = cache.two_pi();
    let b = cache.two_pi();
    assert_eq!(text(&a, &mut cache), text(&b, &mut cache));
    assert!(text(&a, &mut cache).starts_with(TWO_PI));
}

#[test]
fn classify_labels() {
    assert_eq!(classify("kHz"), UnitType::Hertz);
    assert_eq!(classify("μF"), UnitType::Farad);
    assert_eq!(classify("pH"), UnitType::Henry);
    assert_eq!(classify("kΩ"), UnitType::Ohm);
    assert_eq!(classify("Hz"), UnitType::Hertz);
    assert_eq!(classify("kF"), UnitType::NotSelected);
    assert_eq!(classify(""), UnitType::NotSelected);
}

#[test]
fn registries_in_order() {
    assert_eq!(unit_labels(UnitType::Hertz), vec!["Hz", "kHz", "MHz", "GHz"]);
    assert_eq!(unit_labels(UnitType::Farad), vec!["F", "mF", "μF", "nF", "pF"]);
    assert_eq!(unit_labels(UnitType::Henry), vec!["H", "mH", "μH", "nH", "pH"]);
    assert_eq!(unit_labels(UnitType::Ohm), vec!["Ω", "kΩ", "MΩ"]);
    assert!(unit_labels(UnitType::NotSelected).is_empty());
    assert_eq!(label_exponent(UnitType::Farad, "pF"), Some(-12));
    assert_eq!(label_exponent(UnitType::Hertz, "GHz"), Some(9));
    assert_eq!(label_exponent(UnitType::Hertz, "F"), None);
    assert_eq!(base_unit(UnitType::Ohm), "Ω");
}

#[test]
fn scientific_text_of_numbers() {
    let mut cache = ConstCache::new().unwrap();
    assert_eq!(bigfloat_to_string(&cache.parse("-2.5"), &mut cache), Some("-0.25e1".to_string()));
    assert_eq!(bigfloat_to_string(&cache.parse("1000000"), &mut cache), Some("0.1e7".to_string()));
    assert_eq!(bigfloat_to_string(&cache.parse("0.0625"), &mut cache), Some("0.625e-1".to_string()));
    assert_eq!(bigfloat_to_string(&convert_measure(cache.parse("123"), UnitType::Ohm, "Ω", "MΩ").unwrap(), &mut cache), Some("0.123e-3".to_string()));
    assert_eq!(bigfloat_to_string(&BFloat::nan(), &mut cache), None);
    assert_eq!(bigfloat_to_string(&BFloat::one().div(&BFloat::zero()), &mut cache), None);
}

#[test]
fn missing_quantity_by_kind() {
    let mut cache = ConstCache::new().unwrap();
    let l = || BFloat::one();
    let c = || BFloat::one();
    let f = calculate_missing(l(), c(), UnitType::Henry, UnitType::Hertz, &mut cache).unwrap();
    assert!(text(&f, &mut cache).starts_with(INV_TWO_PI));
    let f = calculate_missing(c(), l(), UnitType::Farad, UnitType::Hertz, &mut cache).unwrap();
    assert!(text(&f, &mut cache).starts_with(INV_TWO_PI));

    let f0 = || {
        let mut cache = ConstCache::new().unwrap();
        cache.parse("1000")
    };
    let l10 = || {
        let mut cache = ConstCache::new().unwrap();
        cache.parse("0.01")
    };
    let expected = text(&lf0_to_c(l10(), f0(), &mut cache), &mut cache);
    let got = calculate_missing(l10(), f0(), UnitType::Henry, UnitType::Farad, &mut cache).unwrap();
    assert_eq!(text(&got, &mut cache), expected);
    let got = calculate_missing(f0(), l10(), UnitType::Hertz, UnitType::Farad, &mut cache).unwrap();
    assert_eq!(text(&got, &mut cache), expected);
    assert!(expected.starts_with("0.0000025330295910584442860969865802431909726089693668"));

    let c_val = || {
        let mut cache = ConstCache::new().unwrap();
        cache.parse("0.0000025330295910584442860969865802431909726089693668061637211402")
    };
    let got = calculate_missing(c_val(), f0(), UnitType::Farad, UnitType::Henry, &mut cache).unwrap();
    let l_text = text(&got, &mut cache);
    assert!(l_text.starts_with("0.0099999999999999999999999999999999999999999999999")
        || l_text.starts_with("0.0100000000000000000000000000000000000000000000000"), "{l_text}");
    let got2 = calculate_missing(f0(), c_val(), UnitType::Hertz, UnitType::Henry, &mut cache).unwrap();
    assert_eq!(text(&got, &mut cache), text(&got2, &mut cache));

    assert!(calculate_missing(l(), c(), UnitType::Henry, UnitType::Henry, &mut cache).is_none());
    assert!(calculate_missing(l(), c(), UnitType::Ohm, UnitType::Hertz, &mut cache).is_none());
    assert!(calculate_missing(l(), c(), UnitType::Henry, UnitType::NotSelected, &mut cache).is_none());
}

#[test]
fn malformed_text_reads_as_nan() {
    let mut cache = ConstCache::new().unwrap();
    for t in ["12abc", ".", "-", "1e", "1.2.3", "e5", " 1", "inf", "1_000"] {
        assert!(cache.parse(t).is_nan(), "{t}");
    }
    assert!(matches!(
        get_full_value_list("10", "12abc", "", "mH", "F", "Hz", &mut cache),
        Err(CalcError::Underdetermined)
    ));
}

#[test]
fn numerals_and_special_words_are_read() {
    let mut cache = ConstCache::new().unwrap();
    for (t, shown) in [("1e3", "1000"), ("+.5", "0.5"), ("-2.5E1", "-25"), ("3.", "3"), ("0.5e-1", "0.05"), ("-0", "0")] {
        let x = cache.parse(t);
        assert_eq!(text(&x, &mut cache), shown, "{t}");
    }
    assert!(cache.parse("Inf").is_inf_pos());
    assert!(cache.parse("+Inf").is_inf_pos());
    assert!(cache.parse("-Inf").is_inf_neg());
    assert!(cache.parse("NaN").is_nan());
}

#[test]
fn products_with_zero() {
    let mut cache = ConstCache::new().unwrap();
    let z = BFloat::zero().mul(&cache.parse("-3"));
    assert!(z.is_zero());
    assert_eq!(text(&BFloat::one().div(&z), &mut cache), "-Inf");
    assert!(BFloat::zero().neg().sqrt().is_zero());
}
