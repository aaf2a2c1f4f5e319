//! Decompression sessions: creation, decode, the deliberate blocking
//! points, and orderly teardown.

use vstd::prelude::*;

use crate::cf::{Allocator, Dictionary};
use crate::cm::{FormatDesc, SampleBuffer};
use crate::cv::pixel_buffer::{plane_count_of, PixelBuf, PixelFormat, FOURCC_420V};
use crate::os::Status;
use crate::vt::{DecodeFrameFlags, DecodeInfoFlags, DECODE_ASYNCHRONOUSLY, DECODE_INFO_ASYNCHRONOUS};

verus! {

/// The status for a session used after invalidation.
pub const STATUS_INVALID_SESSION: i32 = -12903;

/// The status for a parameter a creation call refuses.
pub const STATUS_PARAMETER: i32 = -12902;

/// The status for a sample whose format the session cannot decode.
pub const STATUS_FORMAT_DESCRIPTION_CHANGE_NOT_SUPPORTED: i32 = -12916;

/// User state captured for the session's output callback. The native
/// callback function itself is an entry point of the host runtime and has
/// no counterpart among plain values, so the record carries the state the
/// callback would receive.
#[derive(Debug)]
pub struct OutputCallbackRecord<O> {
    pub output_ref_con: O,
}

impl<O> OutputCallbackRecord<O> {
    /// Capture the callback's state. The registration owns it until the
    /// session is torn down.
    pub fn new(ref_con: O) -> (r: OutputCallbackRecord<O>)
        ensures
            r.output_ref_con == ref_con,
    {
        OutputCallbackRecord { output_ref_con: ref_con }
    }
}

/// Whether a session created over a format description accepts a sample of
/// another: the coded subtype must match and the dimensions must not grow.
pub open spec fn accepts_format(session_desc: FormatDesc, new_desc: FormatDesc) -> bool {
    &&& session_desc.media_subtype == new_desc.media_subtype
    &&& new_desc.width <= session_desc.width
    &&& new_desc.height <= session_desc.height
}

/// A decompression session: the format it was created over, the pixel
/// format it decodes into, how many asynchronous frames are outstanding,
/// whether it is still valid, and the callback context registered to
/// receive every decoded-frame delivery of this session. The registration
/// owns its context until the session is torn down.
#[derive(Debug)]
pub struct Session {
    pub format_desc: FormatDesc,
    pub output_pixel_format: PixelFormat,
    pub pending_frames: u64,
    pub valid: bool,
    pub callback_ref_con: Option<u64>,
}

impl Session {
    /// The native creation entry point: a session over a video format
    /// description, populated exactly when the description has positive
    /// dimensions.
    pub fn create_in(
        allocator: Option<&Allocator>,
        video_format_description: &FormatDesc,
        video_decoder_specification: Option<&Dictionary>,
        destination_image_buffer_attributes: Option<&Dictionary>,
        output_callback: Option<&OutputCallbackRecord<u64>>,
        decompression_session_out: &mut Option<Session>,
    ) -> (r: Status)
        ensures
            r.is_ok() <==> (video_format_description.width > 0 && video_format_description.height
                > 0),
            r.is_ok() ==> match *final(decompression_session_out) {
                Some(s) => {
                    &&& s.format_desc == *video_format_description
                    &&& s.valid
                    &&& s.pending_frames == 0
                    &&& s.output_pixel_format.0 == FOURCC_420V
                    &&& s.callback_ref_con == match output_callback {
                        Some(record) => Some(record.output_ref_con),
                        None => None,
                    }
                },
                None => false,
            },
            !r.is_ok() ==> *final(decompression_session_out) is None && r.0 == STATUS_PARAMETER,
    {
        if video_format_description.width > 0 && video_format_description.height > 0 {
            let callback_ref_con = match output_callback {
                Some(record) => Some(record.output_ref_con),
                None => None,
            };
            *decompression_session_out = Some(
                Session {
                    format_desc: *video_format_description,
                    output_pixel_format: PixelFormat(FOURCC_420V),
                    pending_frames: 0,
                    valid: true,
                    callback_ref_con,
                },
            );
            Status(0)
        } else {
            *decompression_session_out = None;
            Status(STATUS_PARAMETER)
        }
    }

    /// Create a decompression session: `Ok` exactly when the format
    /// description has positive dimensions, with the output callback's
    /// context registered for the session's decoded-frame deliveries;
    /// otherwise exactly the status the native creation returned.
    pub fn new(
        video_format_description: &FormatDesc,
        video_decoder_specification: Option<&Dictionary>,
        destination_image_buffer_attributes: Option<&Dictionary>,
        output_callback: Option<&OutputCallbackRecord<u64>>,
    ) -> (r: Result<Session, Status>)
        ensures
            match r {
                Ok(s) => {
                    &&& video_format_description.width > 0 && video_format_description.height > 0
                    &&& s.format_desc == *video_format_description
                    &&& s.valid
                    &&& s.pending_frames == 0
                    &&& s.callback_ref_con == match output_callback {
                        Some(record) => Some(record.output_ref_con),
                        None => None,
                    }
                },
                Err(e) => {
                    &&& !(video_format_description.width > 0 && video_format_description.height
                        > 0)
                    &&& e.0 == STATUS_PARAMETER
                },
            },
    {
        let mut session: Option<Session> = None;
        let r = Self::create_in(
            None,
            video_format_description,
            video_decoder_specification,
            destination_image_buffer_attributes,
            output_callback,
            &mut session,
        );
        if r.is_ok() {
            match session {
                Some(s) => Ok(s),
                None => unreached(),
            }
        } else {
            Err(r)
        }
    }

    /// Tear the session down deterministically. After invalidation every
    /// decode is refused; pending frames are dropped.
    pub fn invalidate(&mut self)
        ensures
            *final(self) == (Session { valid: false, pending_frames: 0, ..*old(self) }),
    {
        self.valid = false;
        self.pending_frames = 0;
    }

    /// The native decode entry point: refuses an invalidated session and a
    /// sample of a format the session cannot accept; an asynchronous decode
    /// adds a pending frame, a synchronous one completes before returning.
    pub fn decode_frame(
        &mut self,
        sample_buffer: &SampleBuffer,
        decode_flags: DecodeFrameFlags,
        info_flags_out: &mut Option<DecodeInfoFlags>,
    ) -> (r: Result<(), Status>)
        requires
            old(self).pending_frames < u64::MAX,
        ensures
            ({
                let asynchronous = decode_flags.0 == DECODE_ASYNCHRONOUSLY;
                match r {
                    Ok(u) => {
                        &&& old(self).valid
                        &&& accepts_format(old(self).format_desc, sample_buffer.format_desc)
                        &&& *final(self) == (Session {
                            pending_frames: if asynchronous {
                                (old(self).pending_frames + 1) as u64
                            } else {
                                old(self).pending_frames
                            },
                            ..*old(self)
                        })
                        &&& match *final(info_flags_out) {
                            Some(f) => f.0 == if asynchronous {
                                DECODE_INFO_ASYNCHRONOUS
                            } else {
                                0
                            },
                            None => false,
                        }
                    },
                    Err(e) => {
                        &&& !(old(self).valid && accepts_format(
                            old(self).format_desc,
                            sample_buffer.format_desc,
                        ))
                        &&& *final(self) == *old(self)
                        &&& if !old(self).valid {
                            e.0 == STATUS_INVALID_SESSION
                        } else {
                            e.0 == STATUS_FORMAT_DESCRIPTION_CHANGE_NOT_SUPPORTED
                        }
                        &&& *final(info_flags_out) is None
                    },
                }
            }),
    {
        if !self.valid {
            *info_flags_out = None;
            return Err(Status(STATUS_INVALID_SESSION));
        }
        if !self.can_accept_format_description(sample_buffer.format_desc()) {
            *info_flags_out = None;
            return Err(Status(STATUS_FORMAT_DESCRIPTION_CHANGE_NOT_SUPPORTED));
        }
        if decode_flags.0 == DECODE_ASYNCHRONOUSLY {
            self.pending_frames = self.pending_frames + 1;
            *info_flags_out = Some(DecodeInfoFlags(DECODE_INFO_ASYNCHRONOUS));
        } else {
            *info_flags_out = Some(DecodeInfoFlags(0));
        }
        Ok(())
    }

    /// Decompress one video frame, without caring which info flags come
    /// back.
    pub fn decode(&mut self, sample_buffer: &SampleBuffer, decode_flags: DecodeFrameFlags) -> (r:
        Result<(), Status>)
        requires
            old(self).pending_frames < u64::MAX,
        ensures
            ({
                let asynchronous = decode_flags.0 == DECODE_ASYNCHRONOUSLY;
                match r {
                    Ok(u) => {
                        &&& old(self).valid
                        &&& accepts_format(old(self).format_desc, sample_buffer.format_desc)
                        &&& *final(self) == (Session {
                            pending_frames: if asynchronous {
                                (old(self).pending_frames + 1) as u64
                            } else {
                                old(self).pending_frames
                            },
                            ..*old(self)
                        })
                    },
                    Err(e) => {
                        &&& !(old(self).valid && accepts_format(
                            old(self).format_desc,
                            sample_buffer.format_desc,
                        ))
                        &&& *final(self) == *old(self)
                        &&& !e.is_ok()
                    },
                }
            }),
    {
        let mut info_flags_out: Option<DecodeInfoFlags> = None;
        self.decode_frame(sample_buffer, decode_flags, &mut info_flags_out)
    }

    /// Block until every delayed frame has been emitted. This call waits on
    /// the decoder's own threads and returns only when nothing is pending.
    pub fn finish_delayed_frames(&mut self) -> (r: Result<(), Status>)
        ensures
            match r {
                Ok(u) => old(self).valid && *final(self) == (Session {
                    pending_frames: 0,
                    ..*old(self)
                }),
                Err(e) => !old(self).valid && *final(self) == *old(self) && e.0
                    == STATUS_INVALID_SESSION,
            },
    {
        if self.valid {
            self.pending_frames = 0;
            Ok(())
        } else {
            Err(Status(STATUS_INVALID_SESSION))
        }
    }

    /// Block until every asynchronous frame has completed. Like
    /// [`Session::finish_delayed_frames`], this is a deliberate blocking
    /// point.
    pub fn wait_for_async_frames(&mut self) -> (r: Result<(), Status>)
        ensures
            match r {
                Ok(u) => old(self).valid && *final(self) == (Session {
                    pending_frames: 0,
                    ..*old(self)
                }),
                Err(e) => !old(self).valid && *final(self) == *old(self) && e.0
                    == STATUS_INVALID_SESSION,
            },
    {
        if self.valid {
            self.pending_frames = 0;
            Ok(())
        } else {
            Err(Status(STATUS_INVALID_SESSION))
        }
    }

    /// Whether the session can decode samples under the given format
    /// description without being rebuilt.
    pub fn can_accept_format_description(&self, format_description: &FormatDesc) -> (r: bool)
        ensures
            r == accepts_format(self.format_desc, *format_description),
    {
        self.format_desc.media_subtype == format_description.media_subtype
            && format_description.width <= self.format_desc.width && format_description.height
            <= self.format_desc.height
    }

    /// A black pixel buffer in the format and geometry the session decodes
    /// into; refused once the session is invalidated.
    pub fn copy_black_pixel_buffer(&self) -> (r: Result<PixelBuf, Status>)
        ensures
            match r {
                Ok(b) => {
                    &&& self.valid
                    &&& b.width_field == self.format_desc.width as usize
                    &&& b.height_field == self.format_desc.height as usize
                    &&& b.pixel_format_field == self.output_pixel_format
                    &&& b.plane_count_field == plane_count_of(self.output_pixel_format)
                },
                Err(e) => !self.valid && e.0 == STATUS_INVALID_SESSION,
            },
    {
        if !self.valid {
            return Err(Status(STATUS_INVALID_SESSION));
        }
        let plane_count = crate::cv::pixel_buffer::plane_count_for(self.output_pixel_format);
        Ok(
            PixelBuf {
                width_field: self.format_desc.width as usize,
                height_field: self.format_desc.height as usize,
                pixel_format_field: self.output_pixel_format,
                plane_count_field: plane_count,
                base_locked: false,
            },
        )
    }
}

/// Whether the system decodes the given codec in hardware; the mock system
/// does so for the common video codecs.
pub fn is_hardware_decode_supported(codec_type: crate::av::media_format::VideoCodec) -> (r: bool)
    ensures
        r == (codec_type == crate::av::media_format::VideoCodec::H264 || codec_type
            == crate::av::media_format::VideoCodec::Hevc),
{
    match codec_type {
        crate::av::media_format::VideoCodec::H264 => true,
        crate::av::media_format::VideoCodec::Hevc => true,
        _ => false,
    }
}

} // verus!
