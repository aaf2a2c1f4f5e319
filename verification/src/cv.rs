//! Core-video buffers and pixel formats.

pub mod pixel_buffer;

use vstd::prelude::*;

verus! {

/// A hardware surface a pixel buffer can be created over: its dimensions
/// and pixel format, as the I/O surface framework reports them.
#[derive(Clone, Copy, Debug, PartialEq, Eq, Structural)]
pub struct Surface {
    pub width: usize,
    pub height: usize,
    pub pixel_format: crate::cv::pixel_buffer::PixelFormat,
}

impl Surface {
    pub fn new(width: usize, height: usize, pixel_format: crate::cv::pixel_buffer::PixelFormat)
        -> (s: Surface)
        ensures
            s.width == width,
            s.height == height,
            s.pixel_format == pixel_format,
    {
        Surface { width, height, pixel_format }
    }
}

} // verus!
