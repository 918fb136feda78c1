use rusfi::sine::sine_level;
use rusfi::BAR_SCALE;

#[test]
fn level_at_zero_is_exactly_half() {
    // sin(0) == 0, so the level sits exactly on the midline.
    assert_eq!(sine_level(0), 500_000);
}

#[test]
fn level_tracks_the_real_sine() {
    // Across twenty full radians the fixed-point level follows
    // 0.5 + 0.5*sin(t/10) to well under half a percent.
    for tenths in 0..200u64 {
        let got = sine_level(tenths) as f64 / BAR_SCALE as f64;
        let want = 0.5 + 0.5 * (tenths as f64 / 10.0).sin();
        assert!(
            (got - want).abs() < 0.004,
            "tenths {tenths}: got {got}, want {want}"
        );
    }
}

#[test]
fn level_stays_on_the_scale() {
    for tenths in 0..1000u64 {
        assert!(sine_level(tenths) <= BAR_SCALE);
    }
}

#[test]
fn level_peaks_and_dips() {
    // Near pi/2 (tenths ~ 16) the level is close to full height; near
    // 3*pi/2 (tenths ~ 47) it is close to zero.
    assert!(sine_level(16) > 990_000);
    assert!(sine_level(47) < 10_000);
}
