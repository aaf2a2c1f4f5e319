//! A bitmap image as the graphics framework describes one: dimensions,
//! alpha layout, and provenance.

use vstd::prelude::*;

verus! {

/// How alpha is laid out in an image's pixel data, if at all.
#[derive(Clone, Copy, Debug, PartialEq, Eq, Structural)]
pub enum AlphaInfo {
    /// For example, RGB: the image carries no alpha.
    NoAlpha,
    /// For example, premultiplied RGBA
    PremultipliedLast,
    /// For example, premultiplied ARGB
    PremultipliedFirst,
    /// For example, non-premultiplied RGBA
    Last,
    /// For example, non-premultiplied ARGB
    First,
    /// For example, RBGX
    NoneSkipLast,
    /// For example, XRGB
    NoneSkipFirst,
    Only,
}

/// A color space an image's samples are interpreted in.
#[derive(Clone, Copy, Debug, PartialEq, Eq, Structural)]
pub enum ColorSpace {
    DeviceRgb,
    Srgb,
    DisplayP3,
}

/// An immutable bitmap image.
#[derive(Clone, Debug, PartialEq, Eq)]
pub struct Image {
    pub is_mask: bool,
    pub width: usize,
    pub height: usize,
    pub alpha_info: AlphaInfo,
    pub ut_type: Option<String>,
    pub color_space: Option<ColorSpace>,
}

impl Image {
    pub fn new(
        is_mask: bool,
        width: usize,
        height: usize,
        alpha_info: AlphaInfo,
        ut_type: Option<String>,
        color_space: Option<ColorSpace>,
    ) -> (img: Image)
        ensures
            img.is_mask == is_mask,
            img.width == width,
            img.height == height,
            img.alpha_info == alpha_info,
            img.ut_type == ut_type,
            img.color_space == color_space,
    {
        Image { is_mask, width, height, alpha_info, ut_type, color_space }
    }

    /// Whether the image is an image mask rather than pixel data.
    pub fn is_mask(&self) -> (r: bool)
        ensures
            r == self.is_mask,
    {
        self.is_mask
    }

    pub fn width(&self) -> (r: usize)
        ensures
            r == self.width,
    {
        self.width
    }

    pub fn height(&self) -> (r: usize)
        ensures
            r == self.height,
    {
        self.height
    }

    pub fn alpha_info(&self) -> (r: AlphaInfo)
        ensures
            r == self.alpha_info,
    {
        self.alpha_info
    }

    /// The uniform type identifier of the image's source, where one is
    /// known.
    pub fn ut_type(&self) -> (r: &Option<String>)
        ensures
            r == self.ut_type,
    {
        &self.ut_type
    }

    pub fn color_space(&self) -> (r: Option<ColorSpace>)
        ensures
            r == self.color_space,
    {
        self.color_space
    }
}

} // verus!
