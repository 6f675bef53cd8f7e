//! Fixed-point colors and the per-frame color animation math.
//!
//! The animator recomputes one RGBA value per frame from the elapsed wall
//! time `t` (in seconds): each channel is a sinusoid `sin(f * t) / 2 + 1/2`
//! with frequencies 1.25, 0.75 and 0.5 for red, green and blue, and alpha
//! is held at 1. Channels, phases and time are kept in micro-units
//! (`COLOR_SCALE` micro-units make 1.0), so the whole pipeline around the
//! sine itself is exact integer arithmetic. The caller evaluates the sine
//! on each phase and hands the results back in micro-units.

use vstd::prelude::*;

verus! {

/// Fixed-point scale: one unit of 1.0 is `1_000_000` micro-units.
pub const COLOR_SCALE: i64 = 1_000_000;

/// Largest elapsed time, in microseconds, that the phase computation
/// accepts; chosen so that the 5/4 frequency multiple cannot overflow.
pub const MAX_PHASE_TIME_MICROS: u64 = 3_000_000_000_000_000_000;

/// A color in fixed-point RGBA; each channel ranges over `0 ..= COLOR_SCALE`.
#[derive(Clone, Copy, Debug, PartialEq, Eq, Structural)]
pub struct Color {
    pub red: i64,
    pub green: i64,
    pub blue: i64,
    pub alpha: i64,
}

impl Color {
    /// Channels in range and a fully opaque alpha.
    pub open spec fn valid(self) -> bool {
        &&& 0 <= self.red <= COLOR_SCALE
        &&& 0 <= self.green <= COLOR_SCALE
        &&& 0 <= self.blue <= COLOR_SCALE
        &&& self.alpha == COLOR_SCALE
    }

    /// Opaque white.
    pub open spec fn white() -> Color {
        Color { red: COLOR_SCALE, green: COLOR_SCALE, blue: COLOR_SCALE, alpha: COLOR_SCALE }
    }

    /// Opaque white, as a value.
    pub fn make_white() -> (c: Color)
        ensures
            c == Color::white(),
            c.valid(),
    {
        Color { red: COLOR_SCALE, green: COLOR_SCALE, blue: COLOR_SCALE, alpha: COLOR_SCALE }
    }

    /// Runtime check of `valid`.
    pub fn is_valid(&self) -> (b: bool)
        ensures
            b == self.valid(),
    {
        0 <= self.red && self.red <= COLOR_SCALE && 0 <= self.green && self.green <= COLOR_SCALE
            && 0 <= self.blue && self.blue <= COLOR_SCALE && self.alpha == COLOR_SCALE
    }
}

/// The phases of the three channel sinusoids at elapsed time `t`
/// microseconds, in microradians: `1.25 t`, `0.75 t` and `0.5 t`,
/// each rounded down to a whole microradian.
pub open spec fn spec_phases(t_micros: u64) -> (u64, u64, u64) {
    (
        ((5 * t_micros as int) / 4) as u64,
        ((3 * t_micros as int) / 4) as u64,
        (t_micros as int / 2) as u64,
    )
}

/// Phases of the red, green and blue sinusoids at elapsed time `t`.
pub fn color_phases(t_micros: u64) -> (p: (u64, u64, u64))
    requires
        t_micros <= MAX_PHASE_TIME_MICROS,
    ensures
        p == spec_phases(t_micros),
{
    (t_micros * 5 / 4, t_micros * 3 / 4, t_micros / 2)
}

/// From a time that is a whole multiple of 4 microseconds, the phases
/// advance additively. The animation therefore repeats with the sines:
/// whenever the advance `dt` moves every phase by a whole number of sine
/// periods — as the common period of the three frequencies does — the
/// colors at `t` and `t + dt` come from equal sine arguments.
pub proof fn lemma_phases_additive(t: u64, dt: u64)
    requires
        t % 4 == 0,
        t <= MAX_PHASE_TIME_MICROS,
        dt <= MAX_PHASE_TIME_MICROS,
    ensures
        spec_phases(((t + dt) as u64)).0 == spec_phases(t).0 + spec_phases(dt).0,
        spec_phases(((t + dt) as u64)).1 == spec_phases(t).1 + spec_phases(dt).1,
        spec_phases(((t + dt) as u64)).2 == spec_phases(t).2 + spec_phases(dt).2,
{
    let ti = t as int;
    let di = dt as int;
    assert((5 * (ti + di)) / 4 == 5 * ti / 4 + 5 * di / 4) by (nonlinear_arith)
        requires
            ti % 4 == 0,
            ti >= 0,
            di >= 0,
    ;
    assert((3 * (ti + di)) / 4 == 3 * ti / 4 + 3 * di / 4) by (nonlinear_arith)
        requires
            ti % 4 == 0,
            ti >= 0,
            di >= 0,
    ;
    assert((ti + di) / 2 == ti / 2 + di / 2) by (nonlinear_arith)
        requires
            ti % 4 == 0,
            ti >= 0,
            di >= 0,
    ;
}

/// One channel from its sine value: `s / 2 + 1/2`, all in micro-units.
pub open spec fn spec_channel(s: int) -> int {
    (s + COLOR_SCALE) / 2
}

/// The animation color assembled from the three sine values.
pub open spec fn spec_color_of_sins(sr: int, sg: int, sb: int) -> Color {
    Color {
        red: spec_channel(sr) as i64,
        green: spec_channel(sg) as i64,
        blue: spec_channel(sb) as i64,
        alpha: COLOR_SCALE,
    }
}

/// Every channel of the animation color is in range and its alpha is
/// exactly 1, whenever the sine values are in the sine's range.
pub proof fn lemma_color_of_sins_valid(sr: int, sg: int, sb: int)
    requires
        -COLOR_SCALE <= sr <= COLOR_SCALE,
        -COLOR_SCALE <= sg <= COLOR_SCALE,
        -COLOR_SCALE <= sb <= COLOR_SCALE,
    ensures
        spec_color_of_sins(sr, sg, sb).valid(),
        spec_color_of_sins(sr, sg, sb).alpha == COLOR_SCALE,
{
}

/// Builds the frame's color from the three sine values, each in
/// micro-units and within the sine's range.
pub fn color_from_sins(sr: i64, sg: i64, sb: i64) -> (c: Color)
    requires
        -COLOR_SCALE <= sr <= COLOR_SCALE,
        -COLOR_SCALE <= sg <= COLOR_SCALE,
        -COLOR_SCALE <= sb <= COLOR_SCALE,
    ensures
        c == spec_color_of_sins(sr as int, sg as int, sb as int),
        c.valid(),
{
    let red: i64 = (sr + COLOR_SCALE) / 2;
    let green: i64 = (sg + COLOR_SCALE) / 2;
    let blue: i64 = (sb + COLOR_SCALE) / 2;
    Color { red, green, blue, alpha: COLOR_SCALE }
}

} // verus!
