//! Fixed-layout media time values and format descriptions.

use vstd::prelude::*;

verus! {

/// A rational media time: `value / scale` seconds. An invalid time carries
/// no duration and is how "no override" or "unknown" is represented.
#[derive(Clone, Copy, Debug, PartialEq, Eq, Structural)]
pub struct Time {
    pub value: i64,
    pub scale: i32,
    pub valid: bool,
}

impl Time {
    /// A valid time of `value / scale` seconds.
    pub fn new(value: i64, scale: i32) -> (t: Time)
        requires
            scale >= 1,
        ensures
            t.value == value,
            t.scale == scale,
            t.valid,
    {
        Time { value, scale, valid: true }
    }

    /// The invalid time: carries no duration.
    pub fn invalid() -> (t: Time)
        ensures
            !t.valid,
            t.value == 0,
            t.scale == 0,
    {
        Time { value: 0, scale: 0, valid: false }
    }

    pub fn is_valid(&self) -> (r: bool)
        ensures
            r == self.valid,
    {
        self.valid
    }
}

/// A media format description: the coded media's four-character code and
/// its coded dimensions.
#[derive(Clone, Copy, Debug, PartialEq, Eq, Structural)]
pub struct FormatDesc {
    pub media_subtype: u32,
    pub width: u32,
    pub height: u32,
}

impl FormatDesc {
    /// Describe coded video of the given subtype and dimensions.
    pub fn video(media_subtype: u32, width: u32, height: u32) -> (d: FormatDesc)
        ensures
            d.media_subtype == media_subtype,
            d.width == width,
            d.height == height,
    {
        FormatDesc { media_subtype, width, height }
    }

    pub fn media_subtype(&self) -> (r: u32)
        ensures
            r == self.media_subtype,
    {
        self.media_subtype
    }

    pub fn width(&self) -> (r: u32)
        ensures
            r == self.width,
    {
        self.width
    }

    pub fn height(&self) -> (r: u32)
        ensures
            r == self.height,
    {
        self.height
    }
}

/// A sample buffer: coded media data under one format description.
#[derive(Clone, Copy, Debug, PartialEq, Eq, Structural)]
pub struct SampleBuffer {
    pub format_desc: FormatDesc,
    pub num_samples: usize,
}

impl SampleBuffer {
    pub fn new(format_desc: FormatDesc, num_samples: usize) -> (b: SampleBuffer)
        ensures
            b.format_desc == format_desc,
            b.num_samples == num_samples,
    {
        SampleBuffer { format_desc, num_samples }
    }

    pub fn format_desc(&self) -> (r: &FormatDesc)
        ensures
            r == self.format_desc,
    {
        &self.format_desc
    }
}

} // verus!
