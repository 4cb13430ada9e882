use phantom_silhouette_rs::spectral::{
    emphasis_profile, emphasis_weight, high_frequency_emphasis, low_frequency_suppression,
    suppression_profile, suppression_weight, Weight,
};

fn gain(w: Weight) -> f64 {
    match w {
        Weight::Zero => 0.0,
        Weight::One => 1.0,
        Weight::Two => 2.0,
        Weight::Rising { num, den } => (num as f64 / den as f64).abs().powf(std::f64::consts::E),
        Weight::Ramp { num, den } => num as f64 / den as f64 + 1.0,
    }
}

fn scale(x: f64, w: Weight) -> f64 {
    x * gain(w)
}

#[test]
fn test_spectral_shape() {
    let sp = vec![vec![1.0; 16]; 4];
    let sup = low_frequency_suppression(sp.clone(), 48000, &scale);
    assert_eq!(sup.len(), sp.len());
    assert_eq!(sup[0].len(), sp[0].len());
    let emp = high_frequency_emphasis(sp.clone(), 48000, &scale);
    assert_eq!(emp[0].len(), sp[0].len());
}

#[test]
fn shape_kept_for_every_frame() {
    let sp = vec![vec![0.5; 7]; 3];
    for out in [
        low_frequency_suppression(sp.clone(), 44100, &scale),
        high_frequency_emphasis(sp.clone(), 44100, &scale),
    ] {
        assert_eq!(out.len(), 3);
        for row in &out {
            assert_eq!(row.len(), 7);
        }
    }
}

#[test]
fn empty_envelope_unchanged() {
    let sp: Vec<Vec<f64>> = Vec::new();
    assert!(low_frequency_suppression(sp.clone(), 48000, &scale).is_empty());
    assert!(high_frequency_emphasis(sp, 48000, &scale).is_empty());
}

#[test]
fn suppression_boundaries() {
    // One bin at sample rate sr lies at sr / 2 Hz.
    assert_eq!(suppression_weight(0, 1, 2700), Weight::Rising { num: 1600, den: 1600 });
    assert_eq!(gain(suppression_weight(0, 1, 2700)), 1.0);
    assert_eq!(suppression_weight(0, 1, 2702), Weight::One);
    assert_eq!(suppression_weight(0, 1, 1100), Weight::Zero);
    assert_eq!(suppression_weight(0, 1, 1102), Weight::Rising { num: 2, den: 1600 });
}

#[test]
fn emphasis_boundaries() {
    assert_eq!(emphasis_weight(0, 1, 1998), Weight::One);
    assert_eq!(emphasis_weight(0, 1, 2000), Weight::Ramp { num: 0, den: 18000 });
    assert_eq!(gain(emphasis_weight(0, 1, 2000)), 1.0);
    assert_eq!(emphasis_weight(0, 1, 19998), Weight::Ramp { num: 17998, den: 18000 });
    assert_eq!(emphasis_weight(0, 1, 20000), Weight::Two);
}

#[test]
fn weights_at_48k_with_128_bins() {
    // Bin width is 187.5 Hz: bin 4 lies at 937.5 Hz, bin 99 at 18750 Hz.
    assert_eq!(suppression_weight(1, 128, 48000), Weight::Zero);
    assert_eq!(suppression_weight(4, 128, 48000), Weight::Rising { num: 99200, den: 204800 });
    assert_eq!(emphasis_weight(4, 128, 48000), Weight::One);
    assert_eq!(suppression_weight(99, 128, 48000), Weight::One);
    assert_eq!(emphasis_weight(99, 128, 48000), Weight::Two);
    // 5000 Hz: bin 26 lies at 27 * 187.5 = 5062.5 Hz.
    assert_eq!(emphasis_weight(26, 128, 48000), Weight::Ramp { num: 1040000, den: 2304000 });
}

#[test]
fn rising_curve_value() {
    let sp = vec![vec![1.0; 128]];
    let out = low_frequency_suppression(sp, 48000, &scale);
    let expected = ((937.5_f64 - 550.0) / 800.0).powf(std::f64::consts::E);
    assert!((out[0][4] - expected).abs() < 1e-12);
    assert_eq!(out[0][1], 0.0);
    assert_eq!(out[0][127], 1.0);
}

#[test]
fn ramp_value() {
    let sp = vec![vec![3.0; 128]];
    let out = high_frequency_emphasis(sp, 48000, &scale);
    let expected = 3.0 * ((5062.5_f64 - 1000.0) / 9000.0 + 1.0);
    assert!((out[0][26] - expected).abs() < 1e-12);
    assert_eq!(out[0][0], 3.0);
    assert_eq!(out[0][127], 6.0);
}

#[test]
fn profiles_match_single_weights() {
    let low = suppression_profile(64, 22050);
    let high = emphasis_profile(64, 22050);
    assert_eq!(low.len(), 64);
    assert_eq!(high.len(), 64);
    for c in 0..64 {
        assert_eq!(low[c], suppression_weight(c, 64, 22050));
        assert_eq!(high[c], emphasis_weight(c, 64, 22050));
    }
}

#[test]
fn reshape_order_commutes() {
    let sp: Vec<Vec<f64>> = (0..4).map(|r| (0..128).map(|c| (r * 128 + c) as f64 * 0.01).collect()).collect();
    let a = high_frequency_emphasis(low_frequency_suppression(sp.clone(), 48000, &scale), 48000, &scale);
    let b = low_frequency_suppression(high_frequency_emphasis(sp.clone(), 48000, &scale), 48000, &scale);
    for r in 0..4 {
        for c in 0..128 {
            assert!((a[r][c] - b[r][c]).abs() <= 1e-12 * (1.0 + a[r][c].abs()));
        }
    }
}
