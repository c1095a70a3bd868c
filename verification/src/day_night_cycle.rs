//! The cycle of day and night and the colours it casts.
//!
//! Times count milliseconds, colour channels and factors count thousandths.

use vstd::prelude::*;
use crate::geometry::{lemma_signed_product_bound, round_div, rounded_quotient};

verus! {

/// A colour in sRGB, each channel in thousandths of full intensity.
#[derive(Clone, Copy, Debug, PartialEq, Eq, Structural)]
pub struct Color {
    pub red: i64,
    pub green: i64,
    pub blue: i64,
}

/// Ambient light at midnight, dawn, noon and dusk.
pub open spec fn ambient_key(quarter: int) -> Color {
    if quarter == 0 {
        Color { red: 100, green: 100, blue: 200 }
    } else if quarter == 1 {
        Color { red: 1000, green: 600, blue: 400 }
    } else if quarter == 2 {
        Color { red: 1000, green: 1000, blue: 950 }
    } else {
        Color { red: 1000, green: 500, blue: 300 }
    }
}

/// Colour of the sky at midnight, dawn, noon and dusk.
pub open spec fn sky_key(quarter: int) -> Color {
    if quarter == 0 {
        Color { red: 50, green: 50, blue: 150 }
    } else if quarter == 1 {
        Color { red: 400, green: 300, blue: 500 }
    } else if quarter == 2 {
        Color { red: 530, green: 810, blue: 920 }
    } else {
        Color { red: 800, green: 400, blue: 300 }
    }
}

/// The state of the cycle of day and night.
#[derive(Clone, Copy, Debug, PartialEq, Eq, Structural)]
pub struct DayNightCycle {
    /// Time since midnight, in milliseconds.
    pub time_of_day: u32,
    /// Length of a full day, in milliseconds.
    pub day_duration: u32,
    /// Speed of the cycle, in thousandths of real time.
    pub speed: u32,
}

/// A channel `progress / span` of the way from `from` to `to`.
pub open spec fn lerp(from: int, to: int, progress: int, span: int) -> int {
    from + round_div((to - from) * progress, span)
}

/// A colour `progress / span` of the way from `from` to `to`.
pub open spec fn lerp_color(from: Color, to: Color, progress: int, span: int) -> Color {
    Color {
        red: lerp(from.red as int, to.red as int, progress, span) as i64,
        green: lerp(from.green as int, to.green as int, progress, span) as i64,
        blue: lerp(from.blue as int, to.blue as int, progress, span) as i64,
    }
}

/// The quarter of the day that `time` falls into: 0 from midnight, 1 from
/// dawn, 2 from noon, 3 from dusk on.
pub open spec fn quarter_of(time: int, duration: int) -> int {
    if 4 * time < duration {
        0
    } else if 2 * time < duration {
        1
    } else if 4 * time < 3 * duration {
        2
    } else {
        3
    }
}

impl DayNightCycle {
    /// The time as a fraction of the day, in thousandths.
    pub open spec fn normalized(self) -> int {
        round_div(self.time_of_day * 1000, self.day_duration as int)
    }

    /// It is day between a quarter and three quarters of the cycle, both
    /// ends excluded.
    pub open spec fn day(self) -> bool {
        4 * self.time_of_day > self.day_duration && 4 * self.time_of_day < 3 * self.day_duration
    }

    /// The colour between the key colours of the current quarter and the
    /// next, as far along as the quarter has passed.
    pub open spec fn blend(self, keys: spec_fn(int) -> Color) -> Color {
        let quarter = quarter_of(self.time_of_day as int, self.day_duration as int);
        lerp_color(
            keys(quarter),
            keys((quarter + 1) % 4),
            4 * self.time_of_day - quarter * self.day_duration,
            self.day_duration as int,
        )
    }

    /// The cycle `dt_ms` milliseconds of real time later: the time moves
    /// on by the scaled duration and, where it reaches the end of the day,
    /// falls back by one day.
    pub open spec fn advanced(self, dt_ms: u32) -> DayNightCycle {
        let moved = self.time_of_day + (dt_ms * self.speed) / 1000;
        let wrapped = if moved >= self.day_duration {
            moved - self.day_duration
        } else {
            moved
        };
        DayNightCycle {
            time_of_day: if wrapped > u32::MAX {
                u32::MAX
            } else {
                wrapped as u32
            },
            ..self
        }
    }

    /// The time as a fraction of the day, in thousandths.
    pub fn normalized_time(&self) -> (fraction: u64)
        requires
            self.day_duration > 0,
        ensures
            fraction == self.normalized(),
    {
        rounded_quotient(self.time_of_day as i128 * 1000, self.day_duration as i128) as u64
    }

    /// Whether it is day.
    pub fn is_day(&self) -> (day: bool)
        ensures
            day == self.day(),
    {
        let time: u64 = 4 * (self.time_of_day as u64);
        let duration: u64 = self.day_duration as u64;
        time > duration && time < 3 * duration
    }

    /// The ambient light at the current time.
    pub fn get_ambient_color(&self) -> (color: Color)
        requires
            self.day_duration > 0,
        ensures
            color == self.blend(|quarter: int| ambient_key(quarter)),
    {
        let midnight = Color { red: 100, green: 100, blue: 200 };
        let dawn = Color { red: 1000, green: 600, blue: 400 };
        let noon = Color { red: 1000, green: 1000, blue: 950 };
        let dusk = Color { red: 1000, green: 500, blue: 300 };
        blend_keys(self.time_of_day, self.day_duration, midnight, dawn, noon, dusk)
    }

    /// The colour of the sky at the current time.
    pub fn sky_color(&self) -> (color: Color)
        requires
            self.day_duration > 0,
        ensures
            color == self.blend(|quarter: int| sky_key(quarter)),
    {
        let midnight = Color { red: 50, green: 50, blue: 150 };
        let dawn = Color { red: 400, green: 300, blue: 500 };
        let noon = Color { red: 530, green: 810, blue: 920 };
        let dusk = Color { red: 800, green: 400, blue: 300 };
        blend_keys(self.time_of_day, self.day_duration, midnight, dawn, noon, dusk)
    }
}

impl Default for DayNightCycle {
    /// A day of two minutes at normal speed, starting at its middle.
    fn default() -> (cycle: DayNightCycle)
        ensures
            cycle == (DayNightCycle { time_of_day: 60_000, day_duration: 120_000, speed: 1000 }),
    {
        DayNightCycle { time_of_day: 60_000, day_duration: 120_000, speed: 1000 }
    }
}

/// A channel `progress / span` of the way from `from` to `to`.
pub fn lerp_channel(from: i64, to: i64, progress: i64, span: u32) -> (value: i64)
    requires
        span > 0,
        -1000 <= from <= 1000,
        -1000 <= to <= 1000,
        -0x4_0000_0000 <= progress <= 0x4_0000_0000,
    ensures
        value == lerp(from as int, to as int, progress as int, span as int),
{
    proof {
        lemma_signed_product_bound(to - from, progress as int, 2000, 0x4_0000_0000);
    }
    let change: i128 = rounded_quotient((to as i128 - from as i128) * progress as i128, span as i128);
    (from as i128 + change) as i64
}

/// The colour between two of four key colours at `time` of a day that
/// lasts `duration`.
fn blend_keys(time: u32, duration: u32, midnight: Color, dawn: Color, noon: Color, dusk: Color) -> (color:
    Color)
    requires
        duration > 0,
        key_in_range(midnight),
        key_in_range(dawn),
        key_in_range(noon),
        key_in_range(dusk),
    ensures
        color == lerp_color(
            pick(midnight, dawn, noon, dusk, quarter_of(time as int, duration as int)),
            pick(midnight, dawn, noon, dusk, (quarter_of(time as int, duration as int) + 1) % 4),
            4 * time - quarter_of(time as int, duration as int) * duration,
            duration as int,
        ),
{
    let t: i64 = time as i64;
    let d: i64 = duration as i64;
    proof {
        let quarter = quarter_of(time as int, duration as int);
        assert(quarter * duration == if quarter == 0 {
            0
        } else if quarter == 1 {
            d as int
        } else if quarter == 2 {
            2 * d
        } else {
            3 * d
        }) by (nonlinear_arith)
            requires
                0 <= quarter <= 3,
                d == duration,
        ;
    }
    let (from, to, progress): (Color, Color, i64) = if 4 * t < d {
        (midnight, dawn, 4 * t)
    } else if 2 * t < d {
        (dawn, noon, 4 * t - d)
    } else if 4 * t < 3 * d {
        (noon, dusk, 4 * t - 2 * d)
    } else {
        (dusk, midnight, 4 * t - 3 * d)
    };
    Color {
        red: lerp_channel(from.red, to.red, progress, duration),
        green: lerp_channel(from.green, to.green, progress, duration),
        blue: lerp_channel(from.blue, to.blue, progress, duration),
    }
}

/// Every channel lies between zero and full intensity.
pub open spec fn key_in_range(color: Color) -> bool {
    0 <= color.red <= 1000 && 0 <= color.green <= 1000 && 0 <= color.blue <= 1000
}

/// The key colour of a quarter.
pub open spec fn pick(midnight: Color, dawn: Color, noon: Color, dusk: Color, quarter: int) -> Color {
    if quarter == 0 {
        midnight
    } else if quarter == 1 {
        dawn
    } else if quarter == 2 {
        noon
    } else {
        dusk
    }
}

/// Moves the cycle on by `dt_ms` milliseconds of real time.
pub fn update_day_night_cycle(cycle: &mut DayNightCycle, dt_ms: u32)
    ensures
        *final(cycle) == old(cycle).advanced(dt_ms),
{
    assert(dt_ms as int * cycle.speed as int <= 0xffff_ffff * 0xffff_ffff) by (nonlinear_arith)
        requires
            0 <= dt_ms <= 0xffff_ffff,
            0 <= cycle.speed <= 0xffff_ffff,
    ;
    let moved: u64 = cycle.time_of_day as u64 + (dt_ms as u64 * cycle.speed as u64) / 1000;
    let wrapped: u64 = if moved >= cycle.day_duration as u64 {
        moved - cycle.day_duration as u64
    } else {
        moved
    };
    cycle.time_of_day = if wrapped > u32::MAX as u64 {
        u32::MAX
    } else {
        wrapped as u32
    };
}

/// Sets the background to the colour of the sky at the current time.
pub fn update_sky_color(cycle: &DayNightCycle, clear_color: &mut Color)
    requires
        cycle.day_duration > 0,
    ensures
        *final(clear_color) == cycle.blend(|quarter: int| sky_key(quarter)),
{
    *clear_color = cycle.sky_color();
}

/// One channel of a sprite under the cycle's light: the product of the
/// sprite's own channel, the ambient channel and the brightness, all in
/// thousandths, rounded down.
pub open spec fn lit_channel(base: int, ambient: int, brightness: int) -> int {
    base * ambient * brightness / 1_000_000
}

/// Marks an entity whose sprite takes the light of the cycle.
#[derive(Clone, Copy, Debug, PartialEq, Eq, Structural)]
pub struct AffectedByDayNight {
    /// The sprite's own colour, before any light falls on it.
    pub base_color: Color,
}

/// A sprite's colour under ambient light of the given brightness, in
/// thousandths of full light.
pub fn apply_day_night_lighting(affected: &AffectedByDayNight, ambient: Color, brightness: u32) -> (lit:
    Color)
    requires
        key_in_range(affected.base_color),
        key_in_range(ambient),
        brightness <= 1000,
    ensures
        lit.red == lit_channel(
            affected.base_color.red as int,
            ambient.red as int,
            brightness as int,
        ),
        lit.green == lit_channel(
            affected.base_color.green as int,
            ambient.green as int,
            brightness as int,
        ),
        lit.blue == lit_channel(
            affected.base_color.blue as int,
            ambient.blue as int,
            brightness as int,
        ),
{
    let base: Color = affected.base_color;
    Color {
        red: light_channel(base.red, ambient.red, brightness),
        green: light_channel(base.green, ambient.green, brightness),
        blue: light_channel(base.blue, ambient.blue, brightness),
    }
}

/// One channel of a sprite under the cycle's light.
fn light_channel(base: i64, ambient: i64, brightness: u32) -> (lit: i64)
    requires
        0 <= base <= 1000,
        0 <= ambient <= 1000,
        brightness <= 1000,
    ensures
        lit == lit_channel(base as int, ambient as int, brightness as int),
{
    proof {
        lemma_signed_product_bound(base as int, ambient as int, 1000, 1000);
        lemma_signed_product_bound(base * ambient, brightness as int, 1_000_000, 1000);
        assert(base * ambient >= 0 && base * ambient * brightness >= 0) by (nonlinear_arith)
            requires
                base >= 0,
                ambient >= 0,
                brightness >= 0,
        ;
    }
    base * ambient * (brightness as i64) / 1_000_000
}

} // verus!
