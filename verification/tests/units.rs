use hevy_bridge::units::{push_one_decimal, push_points, push_pounds, to_pound_tenths};

fn pounds(grams: i64) -> String {
    let mut out = String::new();
    push_pounds(&mut out, grams);
    out
}

fn points(tenths: u32) -> String {
    let mut out = String::new();
    push_points(&mut out, tenths);
    out
}

fn one_decimal(tenths: i64) -> String {
    let mut out = String::new();
    push_one_decimal(&mut out, tenths);
    out
}

#[test]
fn hundred_kilograms_are_220_5_pounds() {
    assert_eq!(to_pound_tenths(100_000), 2205);
    assert_eq!(pounds(100_000), "220.5");
    assert_eq!(pounds(100_000), format!("{:.1}", 100.0_f64 * 2.20462));
}

#[test]
fn pounds_of_common_weights() {
    assert_eq!(pounds(0), "0.0");
    assert_eq!(pounds(1_000), "2.2");
    assert_eq!(pounds(20_000), "44.1");
    assert_eq!(pounds(45_359), "100.0");
    assert_eq!(pounds(60_000), "132.3");
    assert_eq!(pounds(102_500), "226.0");
    assert_eq!(pounds(250_000), "551.2");
}

#[test]
fn pounds_agree_with_floating_point_on_whole_and_half_kilograms() {
    for half_kilograms in 0..=1000i64 {
        let grams = half_kilograms * 500;
        let kilograms = half_kilograms as f64 / 2.0;
        assert_eq!(pounds(grams), format!("{:.1}", kilograms * 2.20462), "{} g", grams);
    }
}

#[test]
fn pounds_round_to_the_nearest_tenth() {
    // 22 g are 0.0485 lb, 23 g are 0.0507 lb.
    assert_eq!(to_pound_tenths(22), 0);
    assert_eq!(to_pound_tenths(23), 1);
    assert_eq!(pounds(22), "0.0");
    assert_eq!(pounds(23), "0.1");
    // 2500 kg are 5511.55 lb: halfway goes away from zero.
    assert_eq!(to_pound_tenths(2_500_000), 55116);
    assert_eq!(to_pound_tenths(-2_500_000), -55116);
}

#[test]
fn negative_weights_keep_their_sign() {
    assert_eq!(to_pound_tenths(-100_000), -2205);
    assert_eq!(pounds(-100_000), "-220.5");
    assert_eq!(pounds(-1_000), "-2.2");
    assert_eq!(pounds(-22), "0.0");
}

#[test]
fn weights_at_the_limits_do_not_overflow() {
    assert_eq!(to_pound_tenths(i64::MAX), 203_340_304_598_907_758);
    assert_eq!(to_pound_tenths(i64::MIN), -203_340_304_598_907_758);
    assert_eq!(pounds(i64::MAX), "20334030459890775.8");
    assert_eq!(pounds(i64::MIN), "-20334030459890775.8");
}

#[test]
fn tenths_with_one_decimal() {
    assert_eq!(one_decimal(0), "0.0");
    assert_eq!(one_decimal(5), "0.5");
    assert_eq!(one_decimal(-5), "-0.5");
    assert_eq!(one_decimal(2205), "220.5");
    assert_eq!(one_decimal(-10), "-1.0");
    assert_eq!(one_decimal(i64::MAX), "922337203685477580.7");
    assert_eq!(one_decimal(i64::MIN), "-922337203685477580.8");
}

#[test]
fn effort_shows_its_tenth_only_where_it_has_one() {
    assert_eq!(points(80), "8");
    assert_eq!(points(85), "8.5");
    assert_eq!(points(100), "10");
    assert_eq!(points(75), "7.5");
    assert_eq!(points(0), "0");
    assert_eq!(points(5), "0.5");
    assert_eq!(points(u32::MAX), "429496729.5");
    for tenths in [60u32, 70, 75, 80, 85, 90, 95, 100] {
        assert_eq!(points(tenths), format!("{}", tenths as f64 / 10.0));
    }
}
