//! Pixel buffers: creation, geometry, planes, and the base-address lock.

use vstd::prelude::*;

use crate::cf::{Allocator, Dictionary, Number};
use crate::cv::Surface;

verus! {

/// A pixel format, by its four-character code.
#[derive(Clone, Copy, Debug, PartialEq, Eq, Structural)]
pub struct PixelFormat(pub u32);

/// The four-character code of packed 32-bit BGRA.
pub const FOURCC_32_BGRA: u32 = 0x42475241;

/// The code of losslessly compressed 32-bit BGRA.
pub const FOURCC_LOSSLESS_32_BGRA: u32 = 0x26475241;

/// The code of lossily compressed 32-bit BGRA.
pub const FOURCC_LOSSY_32_BGRA: u32 = 0x2D475241;

/// The code of biplanar 8-bit 4:2:0 video-range YCbCr.
pub const FOURCC_420V: u32 = 0x34323076;

/// The code of biplanar 8-bit 4:2:0 full-range YCbCr.
pub const FOURCC_420F: u32 = 0x34323066;

/// The code of lossily compressed biplanar video-range 4:2:0.
pub const FOURCC_LOSSY_420V: u32 = 0x2D387630;

/// The code of lossily compressed biplanar full-range 4:2:0.
pub const FOURCC_LOSSY_420F: u32 = 0x2D386630;

/// The code of biplanar 10-bit 4:2:0 video-range YCbCr.
pub const FOURCC_420V_10: u32 = 0x78343230;

/// The code of lossily compressed packed 10-bit 4:2:0 video range.
pub const FOURCC_LOSSY_PACKED_10_420V: u32 = 0x2D787630;

/// The code of lossily compressed packed 10-bit 4:2:2 video range.
pub const FOURCC_LOSSY_PACKED_10_422V: u32 = 0x2D787632;

/// The code of one-component 8-bit.
pub const FOURCC_ONE_COMPONENT_8: u32 = 0x4C303038;

/// Whether a format lays its pixels out in two planes (luma and chroma).
pub open spec fn is_biplanar(f: PixelFormat) -> bool {
    f.0 == FOURCC_420V || f.0 == FOURCC_420F || f.0 == FOURCC_LOSSY_420V || f.0
        == FOURCC_LOSSY_420F || f.0 == FOURCC_420V_10
}

/// Whether the format is one this pixel-buffer layer can create.
pub open spec fn is_creatable(f: PixelFormat) -> bool {
    f.0 == FOURCC_32_BGRA || f.0 == FOURCC_ONE_COMPONENT_8 || is_biplanar(f)
}

/// The plane count a buffer of a format reports: two for biplanar formats,
/// none for packed ones (a packed buffer is its own single plane and
/// reports zero).
pub open spec fn plane_count_of(f: PixelFormat) -> usize {
    if is_biplanar(f) {
        2
    } else {
        0
    }
}

/// Whether the system's codecs can produce the format's compressed layout:
/// true exactly for the lossless and lossy compressed codes.
pub open spec fn compressed_format_available(f: PixelFormat) -> bool {
    f.0 == FOURCC_LOSSLESS_32_BGRA || f.0 == FOURCC_LOSSY_32_BGRA || f.0 == FOURCC_LOSSY_420V
        || f.0 == FOURCC_LOSSY_420F || f.0 == FOURCC_LOSSY_PACKED_10_420V || f.0
        == FOURCC_LOSSY_PACKED_10_422V
}

/// The exec form of [`plane_count_of`].
pub fn plane_count_for(f: PixelFormat) -> (r: usize)
    ensures
        r == plane_count_of(f),
{
    if f.0 == FOURCC_420V || f.0 == FOURCC_420F || f.0 == FOURCC_LOSSY_420V || f.0
        == FOURCC_LOSSY_420F || f.0 == FOURCC_420V_10 {
        2
    } else {
        0
    }
}

impl PixelFormat {
    /// Packed 32-bit BGRA.
    pub fn bgra32() -> (f: PixelFormat)
        ensures
            f.0 == FOURCC_32_BGRA,
    {
        PixelFormat(FOURCC_32_BGRA)
    }

    /// Losslessly compressed 32-bit BGRA.
    pub fn lossless_bgra32() -> (f: PixelFormat)
        ensures
            f.0 == FOURCC_LOSSLESS_32_BGRA,
    {
        PixelFormat(FOURCC_LOSSLESS_32_BGRA)
    }

    /// Biplanar 8-bit 4:2:0 video-range YCbCr.
    pub fn yuv420v() -> (f: PixelFormat)
        ensures
            f.0 == FOURCC_420V,
    {
        PixelFormat(FOURCC_420V)
    }

    /// Lossily compressed biplanar video-range 4:2:0.
    pub fn lossy_420v() -> (f: PixelFormat)
        ensures
            f.0 == FOURCC_LOSSY_420V,
    {
        PixelFormat(FOURCC_LOSSY_420V)
    }

    /// Lossily compressed biplanar full-range 4:2:0.
    pub fn lossy_420f() -> (f: PixelFormat)
        ensures
            f.0 == FOURCC_LOSSY_420F,
    {
        PixelFormat(FOURCC_LOSSY_420F)
    }

    /// Lossily compressed packed 10-bit 4:2:0 video range.
    pub fn lossy_packed_10_420v() -> (f: PixelFormat)
        ensures
            f.0 == FOURCC_LOSSY_PACKED_10_420V,
    {
        PixelFormat(FOURCC_LOSSY_PACKED_10_420V)
    }

    /// Read a pixel format out of a boxed number: the number's value,
    /// reinterpreted as an unsigned four-character code.
    pub fn from_cf_number(number: &Number) -> (f: PixelFormat)
        ensures
            f.0 == number.value as u32,
    {
        PixelFormat(number.value as u32)
    }

    /// Box the format's code as a number.
    pub fn to_cf_number(&self) -> (n: Number)
        ensures
            n.value == self.0 as i32,
    {
        Number::from_i32(self.0 as i32)
    }

    /// The format's description dictionary, for formats the system can
    /// describe.
    pub fn to_description(&self) -> (r: Option<Dictionary>)
        ensures
            r is Some <==> is_creatable(*self),
    {
        if self.is_creatable_format() {
            Some(Dictionary {  })
        } else {
            None
        }
    }

    fn is_creatable_format(&self) -> (r: bool)
        ensures
            r == is_creatable(*self),
    {
        self.0 == FOURCC_32_BGRA || self.0 == FOURCC_ONE_COMPONENT_8 || self.0 == FOURCC_420V
            || self.0 == FOURCC_420F || self.0 == FOURCC_LOSSY_420V || self.0 == FOURCC_LOSSY_420F
            || self.0 == FOURCC_420V_10
    }

    /// Whether the system's codecs can produce this format's compressed
    /// layout.
    pub fn is_compressed_format_avaliable(&self) -> (r: bool)
        ensures
            r == compressed_format_available(*self),
    {
        self.0 == FOURCC_LOSSLESS_32_BGRA || self.0 == FOURCC_LOSSY_32_BGRA || self.0
            == FOURCC_LOSSY_420V || self.0 == FOURCC_LOSSY_420F || self.0
            == FOURCC_LOSSY_PACKED_10_420V || self.0 == FOURCC_LOSSY_PACKED_10_422V
    }
}

/// Flags for the base-address lock.
#[derive(Clone, Copy, Debug, PartialEq, Eq, Structural)]
pub struct LockFlags(pub u32);

impl LockFlags {
    /// Lock for reading and writing.
    pub fn default_flags() -> (f: LockFlags)
        ensures
            f.0 == 0,
    {
        LockFlags(0)
    }

    /// Lock for reading only.
    pub fn read_only() -> (f: LockFlags)
        ensures
            f.0 == 1,
    {
        LockFlags(1)
    }
}

/// A status a pixel-buffer call returns: zero for success.
#[derive(Clone, Copy, Debug, PartialEq, Eq, Structural)]
pub struct Return(pub i32);

/// The status of a successful call.
pub const RETURN_SUCCESS: i32 = 0;

/// The status for dimensions the buffer layer refuses.
pub const RETURN_INVALID_SIZE: i32 = -6682;

/// The status for a pixel format the buffer layer cannot create.
pub const RETURN_INVALID_PIXEL_FORMAT: i32 = -6680;

/// The status for a lock operation in the wrong state.
pub const RETURN_INVALID_ARGUMENT: i32 = -6661;

impl Return {
    pub open spec fn is_ok_spec(&self) -> bool {
        self.0 == RETURN_SUCCESS
    }

    #[verifier::when_used_as_spec(is_ok_spec)]
    pub fn is_ok(&self) -> (r: bool)
        ensures
            r == self.is_ok_spec(),
    {
        self.0 == RETURN_SUCCESS
    }
}

/// One pixel buffer: geometry, format, plane layout, and whether its base
/// address is currently locked for CPU access.
#[derive(Debug, PartialEq, Eq)]
pub struct PixelBuf {
    pub width_field: usize,
    pub height_field: usize,
    pub pixel_format_field: PixelFormat,
    pub plane_count_field: usize,
    pub base_locked: bool,
}

impl PixelBuf {
    /// A buffer is well-formed when its plane count is the one its format
    /// dictates.
    pub open spec fn wf(&self) -> bool {
        self.plane_count_field == plane_count_of(self.pixel_format_field)
    }

    /// Width in pixels.
    pub fn width(&self) -> (r: usize)
        ensures
            r == self.width_field,
    {
        self.width_field
    }

    /// Height in pixels.
    pub fn height(&self) -> (r: usize)
        ensures
            r == self.height_field,
    {
        self.height_field
    }

    pub fn pixel_format(&self) -> (r: PixelFormat)
        ensures
            r == self.pixel_format_field,
    {
        self.pixel_format_field
    }

    /// How many planes the buffer carries; zero for a packed buffer.
    pub fn plane_count(&self) -> (r: usize)
        ensures
            r == self.plane_count_field,
    {
        self.plane_count_field
    }

    /// The width of one plane: the luma plane is full width, the chroma
    /// plane of a 4:2:0 layout is half width, rounded up.
    pub fn plane_width(&self, plane_index: usize) -> (r: usize)
        requires
            plane_index < self.plane_count_field,
        ensures
            plane_index == 0 ==> r == self.width_field,
            plane_index > 0 ==> r == (self.width_field + 1) / 2,
    {
        if plane_index == 0 {
            self.width_field
        } else {
            self.width_field / 2 + self.width_field % 2
        }
    }

    /// The height of one plane, by the same halving rule as
    /// [`PixelBuf::plane_width`].
    pub fn plane_height(&self, plane_index: usize) -> (r: usize)
        requires
            plane_index < self.plane_count_field,
        ensures
            plane_index == 0 ==> r == self.height_field,
            plane_index > 0 ==> r == (self.height_field + 1) / 2,
    {
        if plane_index == 0 {
            self.height_field
        } else {
            self.height_field / 2 + self.height_field % 2
        }
    }

    /// The native creation entry point: fills the output with a buffer of
    /// the requested geometry exactly when the dimensions are positive and
    /// the format is creatable, and says which requirement failed otherwise.
    pub fn create_in(
        width: usize,
        height: usize,
        pixel_format_type: PixelFormat,
        pixel_buffer_attributes: Option<&Dictionary>,
        pixel_buffer_out: &mut Option<PixelBuf>,
        allocator: Option<&Allocator>,
    ) -> (r: Return)
        ensures
            r.is_ok() <==> (width > 0 && height > 0 && is_creatable(pixel_format_type)),
            r.is_ok() ==> match *final(pixel_buffer_out) {
                Some(b) => {
                    &&& b.width_field == width
                    &&& b.height_field == height
                    &&& b.pixel_format_field == pixel_format_type
                    &&& b.plane_count_field == plane_count_of(pixel_format_type)
                    &&& !b.base_locked
                    &&& b.wf()
                },
                None => false,
            },
            !r.is_ok() ==> *final(pixel_buffer_out) is None && if width == 0 || height == 0 {
                r.0 == RETURN_INVALID_SIZE
            } else {
                r.0 == RETURN_INVALID_PIXEL_FORMAT
            },
    {
        if width == 0 || height == 0 {
            *pixel_buffer_out = None;
            return Return(RETURN_INVALID_SIZE);
        }
        if !pixel_format_type.is_creatable_format() {
            *pixel_buffer_out = None;
            return Return(RETURN_INVALID_PIXEL_FORMAT);
        }
        let plane_count = plane_count_for(pixel_format_type);
        *pixel_buffer_out = Some(
            PixelBuf {
                width_field: width,
                height_field: height,
                pixel_format_field: pixel_format_type,
                plane_count_field: plane_count,
                base_locked: false,
            },
        );
        Return(RETURN_SUCCESS)
    }

    /// Create a pixel buffer: `Ok` exactly for positive dimensions and a
    /// creatable format, with the geometry and plane count pinned.
    pub fn new(
        width: usize,
        height: usize,
        pixel_format_type: PixelFormat,
        pixel_buffer_attributes: Option<&Dictionary>,
    ) -> (r: Result<PixelBuf, Return>)
        ensures
            match r {
                Ok(b) => {
                    &&& width > 0 && height > 0 && is_creatable(pixel_format_type)
                    &&& b.width_field == width
                    &&& b.height_field == height
                    &&& b.pixel_format_field == pixel_format_type
                    &&& b.plane_count_field == plane_count_of(pixel_format_type)
                    &&& !b.base_locked
                    &&& b.wf()
                },
                Err(e) => {
                    &&& !(width > 0 && height > 0 && is_creatable(pixel_format_type))
                    &&& e.0 == if width == 0 || height == 0 {
                        RETURN_INVALID_SIZE
                    } else {
                        RETURN_INVALID_PIXEL_FORMAT
                    }
                },
            },
    {
        let mut pixel_buffer_out: Option<PixelBuf> = None;
        let r = Self::create_in(
            width,
            height,
            pixel_format_type,
            pixel_buffer_attributes,
            &mut pixel_buffer_out,
            None,
        );
        if r.is_ok() {
            match pixel_buffer_out {
                Some(b) => Ok(b),
                None => unreached(),
            }
        } else {
            Err(r)
        }
    }

    /// Create a pixel buffer over an existing surface, in the surface's
    /// geometry and format.
    pub fn with_io_surface_in(
        surface: &Surface,
        pixel_buffer_attributes: Option<&Dictionary>,
        allocator: Option<&Allocator>,
    ) -> (r: Result<PixelBuf, Return>)
        ensures
            match r {
                Ok(b) => {
                    &&& surface.width > 0 && surface.height > 0 && is_creatable(
                        surface.pixel_format,
                    )
                    &&& b.width_field == surface.width
                    &&& b.height_field == surface.height
                    &&& b.pixel_format_field == surface.pixel_format
                    &&& b.wf()
                },
                Err(e) => {
                    &&& !(surface.width > 0 && surface.height > 0 && is_creatable(
                        surface.pixel_format,
                    ))
                    &&& e.0 == if surface.width == 0 || surface.height == 0 {
                        RETURN_INVALID_SIZE
                    } else {
                        RETURN_INVALID_PIXEL_FORMAT
                    }
                },
            },
    {
        Self::new(surface.width, surface.height, surface.pixel_format, pixel_buffer_attributes)
    }

    /// [`PixelBuf::with_io_surface_in`] with the default allocator.
    pub fn with_io_surface(
        surface: &Surface,
        pixel_buffer_attributes: Option<&Dictionary>,
    ) -> (r: Result<PixelBuf, Return>)
        ensures
            match r {
                Ok(b) => {
                    &&& surface.width > 0 && surface.height > 0 && is_creatable(
                        surface.pixel_format,
                    )
                    &&& b.width_field == surface.width
                    &&& b.height_field == surface.height
                    &&& b.pixel_format_field == surface.pixel_format
                    &&& b.wf()
                },
                Err(e) => {
                    &&& !(surface.width > 0 && surface.height > 0 && is_creatable(
                        surface.pixel_format,
                    ))
                    &&& e.0 == if surface.width == 0 || surface.height == 0 {
                        RETURN_INVALID_SIZE
                    } else {
                        RETURN_INVALID_PIXEL_FORMAT
                    }
                },
            },
    {
        Self::with_io_surface_in(surface, pixel_buffer_attributes, None)
    }

    /// The native base-address lock: succeeds exactly when the buffer is
    /// not already locked.
    pub fn lock_base_address(&mut self, flags: LockFlags) -> (r: Return)
        ensures
            r.is_ok() <==> !old(self).base_locked,
            r.is_ok() ==> *final(self) == (PixelBuf { base_locked: true, ..*old(self) }),
            !r.is_ok() ==> *final(self) == *old(self) && r.0 == RETURN_INVALID_ARGUMENT,
    {
        let _ = flags;
        if self.base_locked {
            Return(RETURN_INVALID_ARGUMENT)
        } else {
            self.base_locked = true;
            Return(RETURN_SUCCESS)
        }
    }

    /// The native base-address unlock: balances one lock call.
    pub fn unlock_lock_base_address(&mut self, flags: LockFlags) -> (r: Return)
        ensures
            r.is_ok() <==> old(self).base_locked,
            r.is_ok() ==> *final(self) == (PixelBuf { base_locked: false, ..*old(self) }),
            !r.is_ok() ==> *final(self) == *old(self) && r.0 == RETURN_INVALID_ARGUMENT,
    {
        let _ = flags;
        if self.base_locked {
            self.base_locked = false;
            Return(RETURN_SUCCESS)
        } else {
            Return(RETURN_INVALID_ARGUMENT)
        }
    }

    /// Lock the base address and hand back the guard that carries the
    /// exclusive CPU access; on failure the buffer comes back untouched
    /// beside the status.
    pub fn base_address_lock(self, flags: LockFlags) -> (r: Result<
        BaseAddressLockGuard,
        (PixelBuf, Return),
    >)
        ensures
            match r {
                Ok(g) => {
                    &&& !self.base_locked
                    &&& g.buf_spec() == (PixelBuf { base_locked: true, ..self })
                    &&& g.flags_spec() == flags
                },
                Err((b, e)) => self.base_locked && b == self && !e.is_ok(),
            },
    {
        let mut buf = self;
        let r = buf.lock_base_address(flags);
        if r.is_ok() {
            Ok(BaseAddressLockGuard { buf, flags })
        } else {
            Err((buf, r))
        }
    }
}

/// Exclusive CPU access to a locked pixel buffer, from a successful lock to
/// the matching unlock. Giving the buffer back through
/// [`BaseAddressLockGuard::unlock`] issues the one unlock the acquisition
/// owes.
#[derive(Debug)]
pub struct BaseAddressLockGuard {
    buf: PixelBuf,
    flags: LockFlags,
}

impl BaseAddressLockGuard {
    /// The guarded buffer.
    pub closed spec fn buf_spec(&self) -> PixelBuf {
        self.buf
    }

    /// The flags the lock was taken with.
    pub closed spec fn flags_spec(&self) -> LockFlags {
        self.flags
    }

    /// Read access to the guarded buffer.
    pub fn buf(&self) -> (r: &PixelBuf)
        ensures
            r == self.buf_spec(),
    {
        &self.buf
    }

    /// Give the buffer back, issuing the one unlock this acquisition owes.
    pub fn unlock(self) -> (b: PixelBuf)
        requires
            self.buf_spec().base_locked,
        ensures
            b == (PixelBuf { base_locked: false, ..self.buf_spec() }),
    {
        let mut buf = self.buf;
        let r = buf.unlock_lock_base_address(self.flags);
        proof {
            assert(r.is_ok());
        }
        buf
    }
}

} // verus!
