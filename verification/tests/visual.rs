use rusfi::sine::sine_level;
use rusfi::visual::{default_schemes, PatternMode, Visualization};
use rusfi::{BAR_SCALE, NUM_BARS};

#[test]
fn new_starts_zeroed() {
    let v = Visualization::new(default_schemes());
    assert_eq!(v.bars.len(), NUM_BARS);
    assert!(v.bars.iter().all(|&b| b == 0));
    assert_eq!(v.phase_tenths, 0);
    assert_eq!(v.mode, PatternMode::Random);
    assert_eq!(v.scheme_index, 0);
}

#[test]
fn pattern_rotation_cycles() {
    let mut v = Visualization::new(default_schemes());
    assert_eq!(v.mode, PatternMode::Random);
    v.rotate_pattern();
    assert_eq!(v.mode, PatternMode::SineWave);
    v.rotate_pattern();
    assert_eq!(v.mode, PatternMode::Breathing);
    v.rotate_pattern();
    assert_eq!(v.mode, PatternMode::Random);
    // Three applications from any mode return to it.
    v.rotate_pattern();
    let from_sine = v.mode;
    v.rotate_pattern();
    v.rotate_pattern();
    v.rotate_pattern();
    assert_eq!(v.mode, from_sine);
}

#[test]
fn color_scheme_rotation_cycles() {
    let mut v = Visualization::new(default_schemes());
    for k in 1..=9 {
        v.rotate_color_scheme();
        assert_eq!(v.scheme_index, k % 4);
    }
}

#[test]
fn rotate_then_tick_gives_sine_not_random() {
    let mut v = Visualization::new(default_schemes());
    assert_eq!(v.mode, PatternMode::Random);
    v.rotate_pattern();
    assert_eq!(v.mode, PatternMode::SineWave);
    v.tick();
    assert_eq!(v.phase_tenths, 1);
    for i in 0..NUM_BARS {
        assert_eq!(v.bars[i], sine_level(1 + 3 * i as u64));
    }
    // A traveling wave: neighboring bars differ.
    assert_ne!(v.bars[0], v.bars[1]);
}

#[test]
fn sine_wave_matches_formula() {
    let mut v = Visualization::new(default_schemes());
    v.rotate_pattern();
    for _ in 0..5 {
        v.tick();
    }
    for i in 0..NUM_BARS {
        let got = v.bars[i] as f64 / BAR_SCALE as f64;
        let want = 0.5 + 0.5 * (0.5 + 0.3 * i as f64).sin();
        assert!(
            (got - want).abs() < 0.004,
            "bar {i}: got {got}, want {want}"
        );
    }
}

#[test]
fn breathing_bars_all_equal() {
    let mut v = Visualization::new(default_schemes());
    v.rotate_pattern();
    v.rotate_pattern();
    assert_eq!(v.mode, PatternMode::Breathing);
    v.tick();
    let first = v.bars[0];
    assert!(v.bars.iter().all(|&b| b == first));
    assert_eq!(first, sine_level(v.phase_tenths));
}

#[test]
fn random_bars_stay_below_one() {
    let mut v = Visualization::new(default_schemes());
    assert_eq!(v.mode, PatternMode::Random);
    for _ in 0..50 {
        v.tick();
        assert!(v.bars.iter().all(|&b| b < BAR_SCALE));
    }
}

#[test]
fn color_for_tiles_short_schemes() {
    let mut v = Visualization::new(default_schemes());
    // Move to the three-color scheme (index 3).
    v.rotate_color_scheme();
    v.rotate_color_scheme();
    v.rotate_color_scheme();
    assert_eq!(v.scheme_index, 3);
    let scheme = &v.schemes[3].colors;
    assert_eq!(scheme.len(), 3);
    for i in 0..NUM_BARS {
        assert_eq!(v.color_for(i), scheme[i % 3]);
    }
}

#[test]
fn four_rotations_restore_colors() {
    let mut v = Visualization::new(default_schemes());
    let initial: Vec<_> = (0..NUM_BARS).map(|i| v.color_for(i)).collect();
    for _ in 0..4 {
        v.rotate_color_scheme();
    }
    let back: Vec<_> = (0..NUM_BARS).map(|i| v.color_for(i)).collect();
    assert_eq!(initial, back);
}

#[test]
fn tick_keeps_mode_and_scheme() {
    let mut v = Visualization::new(default_schemes());
    v.rotate_color_scheme();
    v.rotate_pattern();
    v.tick();
    v.tick();
    assert_eq!(v.mode, PatternMode::SineWave);
    assert_eq!(v.scheme_index, 1);
    assert_eq!(v.phase_tenths, 2);
}
