//! Value-to-presentation mappings: the temperature-to-color gradient
//! and the usage-to-bar-height scaling. Both are pure and exact; the
//! UI is only meaningful if these are numerically right.

use vstd::prelude::*;
use vstd::arithmetic::div_mod::{lemma_div_is_ordered, lemma_div_multiples_vanish};
use vstd::arithmetic::mul::lemma_mul_inequality;

verus! {

/// Degrees at which the heat-widget gradient starts to fade.
pub const HEAT_TEMP_BASELINE: u8 = 50;

/// Degrees at which the usage-widget gradient starts to fade.
pub const USAGE_TEMP_BASELINE: u8 = 55;

/// Degrees over which either gradient fades from yellow to red.
pub const TEMP_SPAN: u8 = 40;

/// Percent of usage per row of bar.
pub const BAR_DIVISOR: u64 = 10;

/// Smallest bar drawn, so idle cores stay visible.
pub const BAR_FLOOR: u64 = 1;

/// Fixed ceiling of the per-core chart; it never auto-rescales.
pub const BAR_CEILING: u64 = 10;

/// A terminal color as one byte per channel.
#[derive(Clone, Copy, PartialEq, Eq, Structural, Debug)]
pub struct Rgb {
    pub red: u8,
    pub green: u8,
    pub blue: u8,
}

/// Green channel of the heat gradient: full green up to `baseline`,
/// fading linearly to zero at `baseline + span`, clamped outside that
/// range. With red fixed at 255 and blue at 0 the sweep runs from
/// yellow down to pure red.
pub open spec fn spec_green(value: int, baseline: int, span: int) -> int {
    let delta = if value > baseline {
        value - baseline
    } else {
        0
    };
    if delta >= span {
        0
    } else {
        255 * (span - delta) / span
    }
}

/// Bar height for a usage percentage: `percent / divisor`, but never
/// below `floor`, so an idle core still shows a visible bar.
pub open spec fn spec_bar_height(percent: int, divisor: int, floor: int) -> int {
    let scaled = percent / divisor;
    if scaled > floor {
        scaled
    } else {
        floor
    }
}

/// Map a temperature to its gradient color. `baseline` is the reading
/// at which the fade starts and `span` how many degrees the fade
/// takes; both vary by sensor kind.
pub fn temperature_to_color(value: u8, baseline: u8, span: u8) -> (r: Rgb)
    requires
        span >= 1,
    ensures
        r.red == 255,
        r.blue == 0,
        r.green == spec_green(value as int, baseline as int, span as int),
{
    let delta = value.saturating_sub(baseline);
    let green: u8 = if delta >= span {
        0
    } else {
        let scaled: u32 = (255 * ((span - delta) as u32)) / (span as u32);
        proof {
            lemma_mul_inequality((span - delta) as int, span as int, 255);
            lemma_div_is_ordered(
                255 * ((span - delta) as int),
                255 * (span as int),
                span as int,
            );
            lemma_div_multiples_vanish(255, span as int);
        }
        scaled as u8
    };
    Rgb { red: 255, green, blue: 0 }
}

/// Bar height of a core's usage percentage on the fixed-ceiling chart.
pub fn usage_to_bar_height(percent: u64, divisor: u64, floor: u64) -> (r: u64)
    requires
        divisor >= 1,
    ensures
        r == spec_bar_height(percent as int, divisor as int, floor as int),
{
    let scaled = percent / divisor;
    if scaled > floor {
        scaled
    } else {
        floor
    }
}

/// Bar heights for a whole row of cores, on the default scale: one
/// row of bar per 10 percent of usage, and at least one row each.
pub fn core_bar_heights(usages: &Vec<u8>) -> (r: Vec<u64>)
    ensures
        r@.len() == usages@.len(),
        forall|i: int| 0 <= i < r@.len() ==> r@[i] == spec_bar_height(
            usages@[i] as int,
            BAR_DIVISOR as int,
            BAR_FLOOR as int,
        ),
{
    let mut heights: Vec<u64> = Vec::new();
    let mut i: usize = 0;
    while i < usages.len()
        invariant
            0 <= i <= usages@.len(),
            heights@.len() == i,
            forall|j: int| 0 <= j < i ==> heights@[j] == spec_bar_height(
                usages@[j] as int,
                BAR_DIVISOR as int,
                BAR_FLOOR as int,
            ),
        decreases usages@.len() - i,
    {
        let h = usage_to_bar_height(usages[i] as u64, BAR_DIVISOR, BAR_FLOOR);
        heights.push(h);
        i = i + 1;
    }
    heights
}

/// Color monotonicity: for a fixed baseline and span, the green
/// channel never increases as the temperature rises, and the gradient
/// is pinned to 255 at the baseline, to 0 at `baseline + span`, and
/// clamped beyond both ends.
pub proof fn lemma_green_monotone(baseline: int, span: int, v1: int, v2: int)
    requires
        span >= 1,
        v1 <= v2,
    ensures
        spec_green(v2, baseline, span) <= spec_green(v1, baseline, span),
        spec_green(baseline, baseline, span) == 255,
        spec_green(baseline + span, baseline, span) == 0,
        v1 <= baseline ==> spec_green(v1, baseline, span) == 255,
        v2 >= baseline + span ==> spec_green(v2, baseline, span) == 0,
        0 <= spec_green(v1, baseline, span) <= 255,
{
    let d1 = if v1 > baseline { v1 - baseline } else { 0 };
    let d2 = if v2 > baseline { v2 - baseline } else { 0 };
    lemma_div_multiples_vanish(255, span);
    assert(255 * span / span == 255);
    if d2 < span {
        lemma_mul_inequality(span - d2, span - d1, 255);
        lemma_div_is_ordered(255 * (span - d2), 255 * (span - d1), span);
    }
    if d1 < span {
        lemma_mul_inequality(0, span - d1, 255);
        lemma_div_is_ordered(0, 255 * (span - d1), span);
        lemma_mul_inequality(span - d1, span, 255);
        lemma_div_is_ordered(255 * (span - d1), 255 * span, span);
    }
}

} // verus!
