use hindmarsh_rose_v2::neuron::HindmarshRoseV2;
use hindmarsh_rose_v2::table;

fn selected(pts_match: f64) -> f64 {
    let n = HindmarshRoseV2::default();
    f64::from_bits(n.select_optimal_dt(pts_match.to_bits()))
}

#[test]
fn table_scenarios_at_and_below_a_threshold() {
    assert_eq!(selected(94527.4), 0.003);
    assert_eq!(selected(94527.39), 0.005);
    assert_eq!(selected(1.0), 0.1);
    assert_eq!(selected(1e9), 0.0005);
}

#[test]
fn table_exact_at_each_literal_threshold() {
    let thresholds = [
        577638.0, 286092.5, 189687.0, 142001.8, 94527.4, 56664.4, 28313.6, 18381.1, 14223.2,
        9497.0, 5716.9, 2829.7,
    ];
    let dts = [
        0.0005, 0.001, 0.0015, 0.002, 0.003, 0.005, 0.01, 0.015, 0.02, 0.03, 0.05, 0.1,
    ];
    for i in 0..12 {
        assert_eq!(selected(thresholds[i]), dts[i]);
    }
}

#[test]
fn table_monotone_as_metric_decreases() {
    let mut pts = 1e9;
    let mut last = 0.0;
    while pts > 1e-3 {
        let dt = selected(pts);
        assert!(dt >= last);
        last = dt;
        pts = pts / 1.7;
    }
    assert_eq!(last, 0.1);
}

#[test]
fn table_fallback_for_nan_and_negative_metric() {
    assert_eq!(selected(f64::NAN), 0.1);
    assert_eq!(selected(-5.0), 0.1);
    assert_eq!(selected(0.0), 0.1);
}

#[test]
fn table_constants_are_the_literal_patterns() {
    assert_eq!(f64::from_bits(table::PTS_0), 577638.0);
    assert_eq!(f64::from_bits(table::PTS_11), 2829.7);
    assert_eq!(f64::from_bits(table::DT_0), 0.0005);
    assert_eq!(f64::from_bits(table::DT_11), 0.1);
}
