use fuel_mixture::mixture::{calculate_volume, percentages_sum_to_one, InputData};
use fuel_mixture::rational::Rat;

fn input(tm: (i128, i128), pn: (i128, i128), pm: (i128, i128)) -> InputData {
    InputData::new(
        Rat::new(tm.0, tm.1),
        Rat::new(pn.0, pn.1),
        Rat::new(pm.0, pm.1),
    )
}

fn as_f64(r: &Rat) -> f64 {
    r.num as f64 / r.den as f64
}

#[test]
fn scenario_a_exact() {
    let out = calculate_volume(&input((1000, 1), (8, 10), (2, 10))).unwrap();
    // 800 g / 0.74 g/ml and 200 g / 0.80 g/ml
    assert!(out.volume_nitro.same_value(&Rat::new(40000, 37)));
    assert!(out.volume_m5.same_value(&Rat::new(250, 1)));
    assert!(out.total_volume.same_value(&Rat::new(49250, 37)));
    assert!(out.lube_volume.same_value(&Rat::new(49250, 7400)));
}

#[test]
fn scenario_a_decimal() {
    let out = calculate_volume(&input((1000, 1), (8, 10), (2, 10))).unwrap();
    assert!((as_f64(&out.volume_nitro) - 1081.081081).abs() < 1e-5);
    assert!((as_f64(&out.volume_m5) - 250.0).abs() < 1e-9);
    assert!((as_f64(&out.total_volume) - 1331.081081).abs() < 1e-5);
    assert!((as_f64(&out.lube_volume) - 6.655405).abs() < 1e-5);
}

#[test]
fn scenario_b_exact() {
    let out = calculate_volume(&input((500, 1), (5, 10), (5, 10))).unwrap();
    assert!(out.volume_nitro.same_value(&Rat::new(12500, 37)));
    assert!(out.volume_m5.same_value(&Rat::new(625, 2)));
    assert!(out.total_volume.same_value(&Rat::new(48125, 74)));
    assert!(out.lube_volume.same_value(&Rat::new(48125, 14800)));
}

#[test]
fn scenario_b_decimal() {
    let out = calculate_volume(&input((500, 1), (5, 10), (5, 10))).unwrap();
    assert!((as_f64(&out.volume_nitro) - 337.837837).abs() < 1e-5);
    assert!((as_f64(&out.volume_m5) - 312.5).abs() < 1e-9);
    assert!((as_f64(&out.total_volume) - 650.337837).abs() < 1e-5);
    assert!((as_f64(&out.lube_volume) - 3.251689).abs() < 1e-5);
}

#[test]
fn scenario_c_rejected() {
    let result = calculate_volume(&input((1000, 1), (9, 10), (2, 10)));
    let err = result.unwrap_err();
    assert_eq!(
        err.message(),
        "Persentase Shell Nitro+ dan M5 harus berjumlah 100%."
    );
}

#[test]
fn scenario_d_zero_mass() {
    let zero = Rat::new(0, 1);
    let out = calculate_volume(&input((0, 1), (8, 10), (2, 10))).unwrap();
    assert!(out.volume_nitro.same_value(&zero));
    assert!(out.volume_m5.same_value(&zero));
    assert!(out.total_volume.same_value(&zero));
    assert!(out.lube_volume.same_value(&zero));
    let out = calculate_volume(&input((0, 1), (3, 10), (7, 10))).unwrap();
    assert!(out.volume_nitro.same_value(&zero));
    assert!(out.volume_m5.same_value(&zero));
    assert!(out.total_volume.same_value(&zero));
    assert!(out.lube_volume.same_value(&zero));
}

#[test]
fn total_is_sum_of_components() {
    let out = calculate_volume(&input((1000, 1), (8, 10), (2, 10))).unwrap();
    let vn = &out.volume_nitro;
    let vm = &out.volume_m5;
    let total = &out.total_volume;
    // total == vn + vm as rationals, by cross-multiplication
    let sum_num = vn.num * vm.den + vm.num * vn.den;
    let sum_den = vn.den * vm.den;
    assert_eq!(total.num * sum_den, sum_num * total.den);
}

#[test]
fn lube_is_ratio_of_total() {
    let out = calculate_volume(&input((500, 1), (5, 10), (5, 10))).unwrap();
    let total = &out.total_volume;
    let lube = &out.lube_volume;
    // lube == total * 5/1000 as rationals, by cross-multiplication
    assert_eq!(lube.num * (total.den * 1000), (total.num * 5) * lube.den);
}

#[test]
fn identical_input_identical_output() {
    let data = input((1000, 1), (8, 10), (2, 10));
    let first = calculate_volume(&data).unwrap();
    let second = calculate_volume(&data).unwrap();
    assert_eq!(first, second);
}

#[test]
fn boundary_two_tolerances_rejected() {
    // shares sum to exactly 1 + 2/1_000_000_000
    let result = calculate_volume(&input(
        (1000, 1),
        (1, 2),
        (500_000_002, 1_000_000_000),
    ));
    assert!(result.is_err());
}

#[test]
fn boundary_half_tolerance_accepted() {
    // shares sum to exactly 1 + 1/2_000_000_000
    let result = calculate_volume(&input(
        (1000, 1),
        (1, 2),
        (1_000_000_001, 2_000_000_000),
    ));
    assert!(result.is_ok());
}

#[test]
fn exact_sum_accepted() {
    assert!(percentages_sum_to_one(&Rat::new(9, 10), &Rat::new(1, 10)));
    assert!(percentages_sum_to_one(&Rat::new(1, 2), &Rat::new(1, 2)));
}

#[test]
fn sum_off_by_tenth_rejected() {
    assert!(!percentages_sum_to_one(&Rat::new(9, 10), &Rat::new(2, 10)));
    assert!(!percentages_sum_to_one(&Rat::new(9, 10), &Rat::new(0, 10)));
}

#[test]
fn same_value_sees_through_representations() {
    assert!(Rat::new(1, 2).same_value(&Rat::new(2, 4)));
    assert!(Rat::new(-3, 7).same_value(&Rat::new(-6, 14)));
    assert!(!Rat::new(1, 2).same_value(&Rat::new(2, 3)));
}

#[test]
fn bounds_are_checked() {
    let ok = input((1000, 1), (8, 10), (2, 10));
    assert!(ok.is_bounded());
    let too_big = InputData::new(
        Rat {
            num: 1,
            den: 20_000_000_000,
        },
        Rat::new(8, 10),
        Rat::new(2, 10),
    );
    assert!(!too_big.is_bounded());
    let bad_den = InputData::new(
        Rat { num: 1, den: 0 },
        Rat::new(8, 10),
        Rat::new(2, 10),
    );
    assert!(!bad_den.is_bounded());
}
