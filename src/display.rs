//! Display capability: the operations a pixel display driver offers.

use vstd::prelude::*;

use crate::error::Error;

verus! {

/// Geometry and pixel format of an open display.
#[derive(Debug, Clone, Copy, PartialEq, Eq, Structural)]
pub struct DisplayInfo {
    w: usize,
    h: usize,
    f: PixelFormat,
}

/// How a display stores one pixel.
#[derive(Debug, Clone, Copy, PartialEq, Eq, Structural)]
pub enum PixelFormat {
    Bw,
    Gs8,
    Rgb16,
}

impl DisplayInfo {
    /// Describes a display `w` pixels wide and `h` high, in format `f`.
    pub fn new(w: usize, h: usize, f: PixelFormat) -> (r: DisplayInfo)
        ensures
            r.width_of() == w,
            r.height_of() == h,
            r.format_of() == f,
    {
        DisplayInfo { w, h, f }
    }

    pub closed spec fn width_of(self) -> usize {
        self.w
    }

    pub closed spec fn height_of(self) -> usize {
        self.h
    }

    pub closed spec fn format_of(self) -> PixelFormat {
        self.f
    }

    /// Width in pixels.
    pub fn width(&self) -> (r: usize)
        ensures
            r == self.width_of(),
    {
        self.w
    }

    /// Height in pixels.
    pub fn height(&self) -> (r: usize)
        ensures
            r == self.height_of(),
    {
        self.h
    }

    /// Pixel format.
    pub fn format(&self) -> (r: PixelFormat)
        ensures
            r == self.format_of(),
    {
        self.f
    }
}

/// A display driver.
///
/// Each operation is described by a relation between the driver before the
/// call, its arguments, the driver after the call and the outcome. A driver
/// that does not state a relation promises nothing of that operation.
pub trait Display: Sized {
    /// Outcome of `init`: a handle for the display with number `index`.
    open spec fn init_post(pre: Self, index: u32, post: Self, r: Result<i32, Error>) -> bool {
        true
    }

    /// Outcome of `deinit` on `handle`.
    open spec fn deinit_post(pre: Self, handle: i32, post: Self, r: Result<(), Error>) -> bool {
        true
    }

    /// Outcome of setting the pixel at (`x`, `y`) to `v`.
    open spec fn set_pixel_post(pre: Self, handle: i32, x: u32, y: u32, v: u32, post: Self, r: Result<(), Error>) -> bool {
        true
    }

    /// Outcome of asking for the display's geometry.
    open spec fn info_post(pre: Self, handle: i32, post: Self, r: Result<DisplayInfo, Error>) -> bool {
        true
    }

    fn init(&mut self, index: u32) -> (r: Result<i32, Error>)
        ensures
            Self::init_post(*old(self), index, *final(self), r),
    ;

    fn deinit(&mut self, handle: i32) -> (r: Result<(), Error>)
        ensures
            Self::deinit_post(*old(self), handle, *final(self), r),
    ;

    fn set_pixel(&mut self, handle: i32, x: u32, y: u32, v: u32) -> (r: Result<(), Error>)
        ensures
            Self::set_pixel_post(*old(self), handle, x, y, v, *final(self), r),
    ;

    fn info(&mut self, handle: i32) -> (r: Result<DisplayInfo, Error>)
        ensures
            Self::info_post(*old(self), handle, *final(self), r),
    ;
}

} // verus!
