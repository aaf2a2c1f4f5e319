//! Media types, container file types, and video codecs.

use vstd::prelude::*;

verus! {

/// The broad kind of media a device, format, or port carries.
#[derive(Clone, Copy, Debug, PartialEq, Eq, Structural)]
pub enum MediaType {
    Video,
    Audio,
    Muxed,
    Text,
    ClosedCaption,
    Subtitle,
    Timecode,
    Metadata,
    DepthData,
}

impl MediaType {
    pub fn video() -> (t: MediaType)
        ensures
            t == MediaType::Video,
    {
        MediaType::Video
    }

    pub fn audio() -> (t: MediaType)
        ensures
            t == MediaType::Audio,
    {
        MediaType::Audio
    }

    /// Media that combines video and audio in one stream.
    pub fn muxed() -> (t: MediaType)
        ensures
            t == MediaType::Muxed,
    {
        MediaType::Muxed
    }
}

/// A movie container file type.
#[derive(Clone, Copy, Debug, PartialEq, Eq, Structural)]
pub enum FileType {
    Mov,
    Mp4,
    M4v,
}

impl FileType {
    pub fn mov() -> (t: FileType)
        ensures
            t == FileType::Mov,
    {
        FileType::Mov
    }

    pub fn mp4() -> (t: FileType)
        ensures
            t == FileType::Mp4,
    {
        FileType::Mp4
    }
}

/// A video codec.
#[derive(Clone, Copy, Debug, PartialEq, Eq, Structural)]
pub enum VideoCodec {
    H264,
    Hevc,
    ProRes422,
    JpegXl,
}

impl VideoCodec {
    pub fn h264() -> (c: VideoCodec)
        ensures
            c == VideoCodec::H264,
    {
        VideoCodec::H264
    }

    pub fn hevc() -> (c: VideoCodec)
        ensures
            c == VideoCodec::Hevc,
    {
        VideoCodec::Hevc
    }
}

} // verus!
