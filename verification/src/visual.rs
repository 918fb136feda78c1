//! The visualization tick engine.
//!
//! A fixed number of bars is recomputed on every tick from a time phase
//! that advances by one tenth of a radian per tick — animation speed is a
//! function of tick count, not of wall-clock time. Three patterns cycle:
//! fresh uniform random levels, a traveling sine wave across the bar
//! index, and a synchronized breathing pulse. Color schemes are an
//! ordered list; the current scheme index is kept already reduced modulo
//! the number of schemes and its colors tile cyclically across the bars.

use rand::Rng;
use vstd::prelude::*;

verus! {

use crate::BAR_SCALE;
use crate::NUM_BARS;
use crate::sine::sine_level;
use crate::sine::sine_level_spec;
use vstd::arithmetic::div_mod::lemma_add_mod_noop;
use vstd::arithmetic::div_mod::lemma_add_mod_noop_right;
use vstd::arithmetic::div_mod::lemma_mod_add_multiples_vanish;
use vstd::arithmetic::div_mod::lemma_small_mod;

/// The algorithm that produces the bar heights on a tick.
#[derive(Clone, Copy, PartialEq, Eq, Structural, Debug)]
pub enum PatternMode {
    /// Every bar drawn fresh and uniformly from `[0, 1)` each tick.
    Random,
    /// A wave traveling across the bar index.
    SineWave,
    /// All bars pulse together.
    Breathing,
}

/// The position of a mode in the rotation order.
pub open spec fn mode_index(m: PatternMode) -> int {
    match m {
        PatternMode::Random => 0,
        PatternMode::SineWave => 1,
        PatternMode::Breathing => 2,
    }
}

/// The mode at a position in the rotation order.
pub open spec fn mode_of_index(i: int) -> PatternMode {
    if i == 0 {
        PatternMode::Random
    } else if i == 1 {
        PatternMode::SineWave
    } else {
        PatternMode::Breathing
    }
}

/// The mode after one rotation step.
pub open spec fn next_mode(m: PatternMode) -> PatternMode {
    match m {
        PatternMode::Random => PatternMode::SineWave,
        PatternMode::SineWave => PatternMode::Breathing,
        PatternMode::Breathing => PatternMode::Random,
    }
}

/// The mode after `k` rotation steps.
pub open spec fn next_mode_n(m: PatternMode, k: nat) -> PatternMode
    decreases k,
{
    if k == 0 {
        m
    } else {
        next_mode(next_mode_n(m, (k - 1) as nat))
    }
}

/// Law: rotating the pattern `k` times from mode `m` lands on the mode
/// whose position is `(mode_index(m) + k) mod 3`.
pub proof fn lemma_rotate_pattern_cycle(m: PatternMode, k: nat)
    ensures
        next_mode_n(m, k) == mode_of_index((mode_index(m) + k) % 3),
    decreases k,
{
    if k == 0 {
        lemma_small_mod(mode_index(m) as nat, 3nat);
    } else {
        lemma_rotate_pattern_cycle(m, (k - 1) as nat);
        lemma_add_mod_noop(mode_index(m) + (k - 1), 1, 3);
    }
}

/// Law: rotating the pattern three times returns to the starting mode.
pub proof fn lemma_rotate_pattern_period(m: PatternMode)
    ensures
        next_mode_n(m, 3) == m,
{
    lemma_rotate_pattern_cycle(m, 3);
    lemma_mod_add_multiples_vanish(mode_index(m), 3);
    lemma_small_mod(mode_index(m) as nat, 3nat);
}

/// The scheme index after `k` rotation steps among `n` schemes, each
/// step already reduced modulo `n`.
pub open spec fn rotated_index(idx: int, n: int, k: nat) -> int
    decreases k,
{
    if k == 0 {
        idx
    } else {
        (rotated_index(idx, n, (k - 1) as nat) + 1) % n
    }
}

/// Law: rotating the color scheme `k` times from index `idx` among `n`
/// schemes lands on index `(idx + k) mod n`.
pub proof fn lemma_rotate_scheme_cycle(idx: int, n: int, k: nat)
    requires
        0 <= idx < n,
    ensures
        rotated_index(idx, n, k) == (idx + k) % n,
    decreases k,
{
    if k == 0 {
        lemma_small_mod(idx as nat, n as nat);
    } else {
        lemma_rotate_scheme_cycle(idx, n, (k - 1) as nat);
        lemma_add_mod_noop_right(1, idx + (k - 1), n);
    }
}

/// Law: rotating the color scheme as many times as there are schemes
/// returns to the starting index.
pub proof fn lemma_rotate_scheme_period(idx: int, n: int)
    requires
        0 <= idx < n,
    ensures
        rotated_index(idx, n, n as nat) == idx,
{
    lemma_rotate_scheme_cycle(idx, n, n as nat);
    lemma_mod_add_multiples_vanish(idx, n);
    lemma_small_mod(idx as nat, n as nat);
}

/// One color, each channel in `0..=255`; the shell maps a channel to the
/// unit interval by dividing by 255.
#[derive(Clone, Copy, PartialEq, Eq, Structural, Debug)]
pub struct Rgb {
    pub red: u8,
    pub green: u8,
    pub blue: u8,
}

/// An ordered list of colors, tiled cyclically across the bars.
#[derive(Debug)]
pub struct ColorScheme {
    pub colors: Vec<Rgb>,
}

/// The visualization state: bar heights on the `BAR_SCALE` fixed-point
/// scale, the time phase in tenths of a radian, the selected pattern and
/// the selected color scheme.
pub struct Visualization {
    pub bars: Vec<u32>,
    pub phase_tenths: u64,
    pub mode: PatternMode,
    pub scheme_index: usize,
    pub schemes: Vec<ColorScheme>,
}

impl Visualization {
    /// Well-formedness: the bar count is fixed, every level lies on the
    /// scale, at least one scheme is configured, no scheme is empty, and
    /// the scheme index is in range.
    pub open spec fn wf(self) -> bool {
        &&& self.bars.len() == NUM_BARS
        &&& forall|i: int| 0 <= i < self.bars.len() ==> self.bars[i] <= BAR_SCALE
        &&& self.schemes.len() > 0
        &&& forall|j: int| 0 <= j < self.schemes.len() ==> self.schemes[j].colors.len() > 0
        &&& self.scheme_index < self.schemes.len()
    }

    /// A fresh visualization: all bars at zero, phase at zero, random
    /// pattern, first scheme selected.
    pub fn new(schemes: Vec<ColorScheme>) -> (v: Visualization)
        requires
            schemes.len() > 0,
            forall|j: int| 0 <= j < schemes.len() ==> schemes[j].colors.len() > 0,
        ensures
            v.wf(),
            v.phase_tenths == 0,
            v.mode == PatternMode::Random,
            v.scheme_index == 0,
            v.schemes == schemes,
            forall|i: int| 0 <= i < v.bars.len() ==> v.bars[i] == 0,
    {
        let mut bars: Vec<u32> = Vec::new();
        let mut i: usize = 0;
        while i < NUM_BARS
            invariant
                i <= NUM_BARS,
                bars.len() == i,
                forall|j: int| 0 <= j < i ==> bars[j] == 0,
            decreases NUM_BARS - i,
        {
            bars.push(0);
            i = i + 1;
        }
        Visualization {
            bars,
            phase_tenths: 0,
            mode: PatternMode::Random,
            scheme_index: 0,
            schemes,
        }
    }

    /// Advance the phase by one tenth of a radian and recompute every
    /// bar according to the current pattern.
    pub fn tick(&mut self)
        requires
            old(self).wf(),
            old(self).phase_tenths + 1 + 3 * (NUM_BARS as int - 1) <= u64::MAX,
        ensures
            final(self).wf(),
            final(self).phase_tenths == old(self).phase_tenths + 1,
            final(self).mode == old(self).mode,
            final(self).scheme_index == old(self).scheme_index,
            final(self).schemes == old(self).schemes,
            final(self).bars.len() == NUM_BARS,
            old(self).mode == PatternMode::Random ==> forall|i: int|
                0 <= i < final(self).bars.len() ==> final(self).bars[i] < BAR_SCALE,
            old(self).mode == PatternMode::SineWave ==> forall|i: int|
                0 <= i < final(self).bars.len() ==> final(self).bars[i] as int == sine_level_spec(
                    final(self).phase_tenths + 3 * i,
                ),
            old(self).mode == PatternMode::Breathing ==> forall|i: int|
                0 <= i < final(self).bars.len() ==> final(self).bars[i] as int == sine_level_spec(
                    final(self).phase_tenths as int,
                ),
            old(self).mode == PatternMode::Breathing ==> forall|i: int, j: int|
                0 <= i < final(self).bars.len() && 0 <= j < final(self).bars.len()
                    ==> final(self).bars[i] == final(self).bars[j],
    {
        self.phase_tenths = self.phase_tenths + 1;
        self.bars = compute_bars(self.mode, self.phase_tenths);
    }

    /// Advance the pattern to the next mode, wrapping after the last.
    pub fn rotate_pattern(&mut self)
        ensures
            final(self).mode == next_mode(old(self).mode),
            final(self).bars == old(self).bars,
            final(self).phase_tenths == old(self).phase_tenths,
            final(self).scheme_index == old(self).scheme_index,
            final(self).schemes == old(self).schemes,
    {
        self.mode = match self.mode {
            PatternMode::Random => PatternMode::SineWave,
            PatternMode::SineWave => PatternMode::Breathing,
            PatternMode::Breathing => PatternMode::Random,
        };
    }

    /// Advance the scheme index by one, modulo the number of schemes.
    pub fn rotate_color_scheme(&mut self)
        requires
            old(self).wf(),
        ensures
            final(self).wf(),
            final(self).scheme_index as int == (old(self).scheme_index + 1) % (
            old(self).schemes.len() as int),
            final(self).bars == old(self).bars,
            final(self).phase_tenths == old(self).phase_tenths,
            final(self).mode == old(self).mode,
            final(self).schemes == old(self).schemes,
    {
        self.scheme_index = (self.scheme_index + 1) % self.schemes.len();
    }

    /// The scheme currently selected.
    pub open spec fn current_scheme(self) -> ColorScheme {
        self.schemes[self.scheme_index as int]
    }

    /// The color of one bar: the selected scheme, tiled cyclically when
    /// it holds fewer colors than there are bars.
    pub fn color_for(&self, bar_index: usize) -> (c: Rgb)
        requires
            self.wf(),
        ensures
            c == self.current_scheme().colors[bar_index as int
                % self.current_scheme().colors.len() as int],
    {
        let scheme = &self.schemes[self.scheme_index];
        scheme.colors[bar_index % scheme.colors.len()]
    }
}

/// The four color schemes configured at startup: all red, all green,
/// all blue, and a cycle of yellow, magenta and cyan.
pub fn default_schemes() -> (s: Vec<ColorScheme>)
    ensures
        s.len() == 4,
        forall|j: int| 0 <= j < s.len() ==> s[j].colors.len() > 0,
        s[0].colors@ =~= seq![(Rgb { red: 255, green: 0, blue: 0 })],
        s[1].colors@ =~= seq![(Rgb { red: 0, green: 255, blue: 0 })],
        s[2].colors@ =~= seq![(Rgb { red: 0, green: 0, blue: 255 })],
        s[3].colors@ =~= seq![
            (Rgb { red: 255, green: 255, blue: 0 }),
            (Rgb { red: 255, green: 0, blue: 255 }),
            (Rgb { red: 0, green: 255, blue: 255 }),
        ],
{
    let mut red: Vec<Rgb> = Vec::new();
    red.push(Rgb { red: 255, green: 0, blue: 0 });
    let mut green: Vec<Rgb> = Vec::new();
    green.push(Rgb { red: 0, green: 255, blue: 0 });
    let mut blue: Vec<Rgb> = Vec::new();
    blue.push(Rgb { red: 0, green: 0, blue: 255 });
    let mut cycle: Vec<Rgb> = Vec::new();
    cycle.push(Rgb { red: 255, green: 255, blue: 0 });
    cycle.push(Rgb { red: 255, green: 0, blue: 255 });
    cycle.push(Rgb { red: 0, green: 255, blue: 255 });
    let mut schemes: Vec<ColorScheme> = Vec::new();
    schemes.push(ColorScheme { colors: red });
    schemes.push(ColorScheme { colors: green });
    schemes.push(ColorScheme { colors: blue });
    schemes.push(ColorScheme { colors: cycle });
    schemes
}

/// Relies on rand's `Rng::gen_range` over the half-open range
/// `0..bound`: a uniform draw that is always strictly below `bound`
/// (and would panic on an empty range, which the precondition excludes).
#[verifier::external_body]
fn random_below(bound: u32) -> (r: u32)
    requires
        bound > 0,
    ensures
        r < bound,
{
    rand::thread_rng().gen_range(0..bound)
}

/// The bar heights of one tick: what the selected pattern yields at the
/// given phase.
fn compute_bars(mode: PatternMode, phase_tenths: u64) -> (bars: Vec<u32>)
    requires
        phase_tenths + 3 * (NUM_BARS as int - 1) <= u64::MAX,
    ensures
        bars.len() == NUM_BARS,
        forall|i: int| 0 <= i < bars.len() ==> bars[i] <= BAR_SCALE,
        mode == PatternMode::Random ==> forall|i: int|
            0 <= i < bars.len() ==> bars[i] < BAR_SCALE,
        mode == PatternMode::SineWave ==> forall|i: int|
            0 <= i < bars.len() ==> bars[i] as int == sine_level_spec(phase_tenths + 3 * i),
        mode == PatternMode::Breathing ==> forall|i: int|
            0 <= i < bars.len() ==> bars[i] as int == sine_level_spec(phase_tenths as int),
{
    let mut bars: Vec<u32> = Vec::new();
    match mode {
        PatternMode::Random => {
            let mut i: usize = 0;
            while i < NUM_BARS
                invariant
                    i <= NUM_BARS,
                    bars.len() == i,
                    forall|j: int| 0 <= j < i ==> bars[j] < BAR_SCALE,
                decreases NUM_BARS - i,
            {
                let level = random_below(BAR_SCALE);
                bars.push(level);
                i = i + 1;
            }
        },
        PatternMode::SineWave => {
            let mut i: usize = 0;
            while i < NUM_BARS
                invariant
                    i <= NUM_BARS,
                    bars.len() == i,
                    phase_tenths + 3 * (NUM_BARS as int - 1) <= u64::MAX,
                    forall|j: int|
                        0 <= j < i ==> bars[j] as int == sine_level_spec(phase_tenths + 3 * j)
                            && bars[j] <= BAR_SCALE,
                decreases NUM_BARS - i,
            {
                let level = sine_level(phase_tenths + 3 * (i as u64));
                bars.push(level);
                i = i + 1;
            }
        },
        PatternMode::Breathing => {
            let level = sine_level(phase_tenths);
            let mut i: usize = 0;
            while i < NUM_BARS
                invariant
                    i <= NUM_BARS,
                    bars.len() == i,
                    level as int == sine_level_spec(phase_tenths as int),
                    level <= BAR_SCALE,
                    forall|j: int|
                        0 <= j < i ==> bars[j] as int == sine_level_spec(phase_tenths as int),
                decreases NUM_BARS - i,
            {
                bars.push(level);
                i = i + 1;
            }
        },
    }
    bars
}

} // verus!
