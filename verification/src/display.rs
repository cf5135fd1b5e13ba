//! The preview display surface: a letterboxing rule keeps the 16:9 frame
//! fully visible inside whatever window the host gives it.

use vstd::prelude::*;

verus! {

/// Clamp a non-negative size to what a `u32` can carry.
pub open spec fn clamp_u32(x: int) -> u32
    recommends
        x >= 0,
{
    if x > u32::MAX {
        u32::MAX as u32
    } else {
        x as u32
    }
}

/// The surface size that fits the 16:9 frame inside a window: a window
/// wider than 16:9 keeps the full height of 1080 and widens the surface in
/// proportion; any other window keeps the full width of 1920 and deepens
/// the surface in proportion.
pub open spec fn fit_spec(window_w: u32, window_h: u32) -> (u32, u32)
    recommends
        window_w > 0,
        window_h > 0,
{
    if 9 * (window_w as int) > 16 * (window_h as int) {
        (clamp_u32(1080 * (window_w as int) / (window_h as int)), 1080u32)
    } else {
        (1920u32, clamp_u32(1920 * (window_h as int) / (window_w as int)))
    }
}

/// The surface size for a window of the given inner size.
pub fn fit_window(window_w: u32, window_h: u32) -> (d: (u32, u32))
    requires
        window_w > 0,
        window_h > 0,
    ensures
        d == fit_spec(window_w, window_h),
{
    if 9 * (window_w as u64) > 16 * (window_h as u64) {
        let q: u64 = 1080 * (window_w as u64) / (window_h as u64);
        if q > u32::MAX as u64 {
            (u32::MAX, 1080)
        } else {
            (q as u32, 1080)
        }
    } else {
        let q: u64 = 1920 * (window_h as u64) / (window_w as u64);
        if q > u32::MAX as u64 {
            (1920, u32::MAX)
        } else {
            (1920, q as u32)
        }
    }
}

/// The engine's preview surface, tracked by its current size.
pub struct Display {
    pub width: u32,
    pub height: u32,
}

impl Display {
    /// A surface of the given initial size.
    pub fn new(width: u32, height: u32) -> (d: Display)
        ensures
            d.width == width,
            d.height == height,
    {
        Display { width, height }
    }

    /// Resize the surface.
    pub fn resize(&mut self, cx: u32, cy: u32)
        ensures
            final(self).width == cx,
            final(self).height == cy,
    {
        self.width = cx;
        self.height = cy;
    }

    /// Resize the surface to fit the 16:9 frame inside the given window.
    pub fn fit_to_window(&mut self, window_w: u32, window_h: u32)
        requires
            window_w > 0,
            window_h > 0,
        ensures
            (final(self).width, final(self).height) == fit_spec(window_w, window_h),
    {
        let (cx, cy) = fit_window(window_w, window_h);
        self.width = cx;
        self.height = cy;
    }
}

} // verus!
