//! Video-toolbox decompression.

pub mod decompression;

use vstd::prelude::*;

verus! {

/// Flags steering one decode call.
#[derive(Clone, Copy, Debug, PartialEq, Eq, Structural)]
pub struct DecodeFrameFlags(pub u32);

/// The flag asking the session to decode asynchronously.
pub const DECODE_ASYNCHRONOUSLY: u32 = 2;

impl DecodeFrameFlags {
    /// Decode on the calling thread.
    pub fn default_flags() -> (f: DecodeFrameFlags)
        ensures
            f.0 == 0,
    {
        DecodeFrameFlags(0)
    }

    /// Decode asynchronously: the frame becomes a pending frame until the
    /// session finishes it.
    pub fn asynchronous() -> (f: DecodeFrameFlags)
        ensures
            f.0 == DECODE_ASYNCHRONOUSLY,
    {
        DecodeFrameFlags(DECODE_ASYNCHRONOUSLY)
    }
}

/// Flags a decode call reports back.
#[derive(Clone, Copy, Debug, PartialEq, Eq, Structural)]
pub struct DecodeInfoFlags(pub u32);

/// The reported flag saying the frame is being decoded asynchronously.
pub const DECODE_INFO_ASYNCHRONOUS: u32 = 1;

} // verus!
