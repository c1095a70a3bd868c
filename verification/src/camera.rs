//! The camera: following the player and zooming on the scroll wheel.
//!
//! Scales count millionths, scroll amounts thousandths of a line or pixel.

use vstd::prelude::*;
use crate::components::SystemToggles;
use crate::geometry::{round_div, rounded_quotient, Point};

verus! {

/// Smallest scale of the camera's projection: a tenth.
pub const MIN_ZOOM: u32 = 100_000;

/// Largest scale of the camera's projection: ten.
pub const MAX_ZOOM: u32 = 10_000_000;

/// Where the camera stands: a position in the plane and a depth above it.
#[derive(Clone, Copy, Debug, PartialEq, Eq, Structural)]
pub struct CameraPose {
    pub position: Point,
    /// Height above the plane, in thousandths of a unit.
    pub depth: i64,
}

/// How a scroll amount is counted.
#[derive(Clone, Copy, Debug, PartialEq, Eq, Structural)]
pub enum ScrollUnit {
    Line,
    Pixel,
}

/// One turn of the scroll wheel.
#[derive(Clone, Copy, Debug, PartialEq, Eq, Structural)]
pub struct ScrollEvent {
    pub unit: ScrollUnit,
    /// Vertical amount, in thousandths of a line or pixel.
    pub y: i32,
}

/// The scale kept between `MIN_ZOOM` and `MAX_ZOOM`.
pub open spec fn clamp_zoom(scale: int) -> int {
    if scale < MIN_ZOOM {
        MIN_ZOOM as int
    } else if scale > MAX_ZOOM {
        MAX_ZOOM as int
    } else {
        scale
    }
}

/// The scale after one scroll event.
///
/// A line scrolled up divides the scale by 1.1, any other line multiplies
/// it by 1.1. Pixels scale by one less a thousandth of their amount, not
/// below a tenth. The outcome is kept between the two limits.
pub open spec fn zoomed(scale: int, event: ScrollEvent) -> int {
    clamp_zoom(
        match event.unit {
            ScrollUnit::Line => if event.y > 0 {
                round_div(scale * 10, 11)
            } else {
                round_div(scale * 11, 10)
            },
            ScrollUnit::Pixel => if 1_000_000 - event.y < 100_000 {
                round_div(scale, 10)
            } else {
                round_div(scale * (1_000_000 - event.y), 1_000_000)
            },
        },
    )
}

/// The scale after a run of scroll events, oldest first.
pub open spec fn zoomed_through(scale: int, events: Seq<ScrollEvent>) -> int
    decreases events.len(),
{
    if events.len() == 0 {
        scale
    } else {
        zoomed(zoomed_through(scale, events.drop_last()), events.last())
    }
}

/// The scale after one scroll event.
pub fn zoom_step(scale: u32, event: ScrollEvent) -> (next: u32)
    ensures
        next == zoomed(scale as int, event),
        MIN_ZOOM <= next <= MAX_ZOOM,
{
    let wide: i128 = scale as i128;
    let raw: i128 = match event.unit {
        ScrollUnit::Line => if event.y > 0 {
            rounded_quotient(wide * 10, 11)
        } else {
            rounded_quotient(wide * 11, 10)
        },
        ScrollUnit::Pixel => {
            let factor: i128 = 1_000_000 - event.y as i128;
            if factor < 100_000 {
                rounded_quotient(wide, 10)
            } else {
                assert(0 <= wide * factor <= 0xffff_ffff * 0x1_0000_0000) by (nonlinear_arith)
                    requires
                        0 <= wide <= 0xffff_ffff,
                        0 <= factor <= 0x1_0000_0000,
                ;
                rounded_quotient(wide * factor, 1_000_000)
            }
        },
    };
    if raw < MIN_ZOOM as i128 {
        MIN_ZOOM
    } else if raw > MAX_ZOOM as i128 {
        MAX_ZOOM
    } else {
        raw as u32
    }
}

/// Zooms the camera through the scroll events of a tick. With zooming
/// switched off the scale stays.
pub fn camera_zoom(scale: &mut u32, events: &Vec<ScrollEvent>, toggles: &SystemToggles)
    ensures
        *final(scale) == if toggles.camera_zoom {
            zoomed_through(*old(scale) as int, events@)
        } else {
            *old(scale) as int
        },
{
    if !toggles.camera_zoom {
        return ;
    }
    let mut i: usize = 0;
    assert(events@.take(0) =~= Seq::<ScrollEvent>::empty());
    while i < events.len()
        invariant
            i <= events.len(),
            *scale == zoomed_through(*old(scale) as int, events@.take(i as int)),
        decreases events.len() - i,
    {
        assert(events@.take(i as int + 1).drop_last() =~= events@.take(i as int));
        *scale = zoom_step(*scale, events[i]);
        i += 1;
    }
    assert(events@.take(i as int) =~= events@);
}

/// Moves the camera over the player, at the depth it has. With following
/// switched off, or without a player, the camera stays.
pub fn camera_follow_player(camera: &mut CameraPose, player: Option<Point>, toggles: &SystemToggles)
    ensures
        final(camera).depth == old(camera).depth,
        final(camera).position == if toggles.camera_follow && player is Some {
            player->0
        } else {
            old(camera).position
        },
{
    if !toggles.camera_follow {
        return ;
    }
    match player {
        Some(position) => {
            camera.position.x = position.x;
            camera.position.y = position.y;
        },
        None => {},
    }
}

/// After any scroll event the scale lies between the two limits.
pub proof fn theorem_zoom_stays_in_limits(scale: int, events: Seq<ScrollEvent>)
    requires
        events.len() > 0,
    ensures
        MIN_ZOOM <= zoomed_through(scale, events) <= MAX_ZOOM,
{
}

} // verus!
