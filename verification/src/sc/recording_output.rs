//! A recording output: its configuration and the running recording's
//! progress, with a delegate for its lifecycle events.

use vstd::prelude::*;

use crate::av::media_format::{FileType, VideoCodec};
use crate::cm::Time;
use crate::ns::Error;

verus! {

/// Configuration of a recording output: where to record, with which codec,
/// into which container.
#[derive(Debug)]
pub struct RecordingOutputCfg {
    pub output_url_field: Option<String>,
    pub video_codec_field: VideoCodec,
    pub output_file_type_field: FileType,
}

impl RecordingOutputCfg {
    /// A fresh configuration: no output location yet, and the default codec
    /// and container.
    pub fn new() -> (cfg: RecordingOutputCfg)
        ensures
            cfg.output_url_field is None,
            cfg.video_codec_field == VideoCodec::H264,
            cfg.output_file_type_field == FileType::Mov,
    {
        RecordingOutputCfg {
            output_url_field: None,
            video_codec_field: VideoCodec::H264,
            output_file_type_field: FileType::Mov,
        }
    }

    /// The location the recording will be written to, once one is set.
    pub fn output_url(&self) -> (r: &Option<String>)
        ensures
            r == self.output_url_field,
    {
        &self.output_url_field
    }

    /// The autoreleased variant of [`RecordingOutputCfg::output_url`].
    pub fn output_url_ar(&self) -> (r: &Option<String>)
        ensures
            r == self.output_url_field,
    {
        &self.output_url_field
    }

    pub fn set_output_url(&mut self, val: String)
        ensures
            final(self).output_url_field == Some(val),
            final(self).video_codec_field == old(self).video_codec_field,
            final(self).output_file_type_field == old(self).output_file_type_field,
    {
        self.output_url_field = Some(val);
    }

    pub fn video_codec(&self) -> (r: VideoCodec)
        ensures
            r == self.video_codec_field,
    {
        self.video_codec_field
    }

    /// The autoreleased variant of [`RecordingOutputCfg::video_codec`].
    pub fn video_codec_ar(&self) -> (r: VideoCodec)
        ensures
            r == self.video_codec_field,
    {
        self.video_codec_field
    }

    pub fn output_file_type(&self) -> (r: FileType)
        ensures
            r == self.output_file_type_field,
    {
        self.output_file_type_field
    }

    /// The autoreleased variant of [`RecordingOutputCfg::output_file_type`].
    pub fn output_file_type_ar(&self) -> (r: FileType)
        ensures
            r == self.output_file_type_field,
    {
        self.output_file_type_field
    }

    /// The codecs a recording output can encode with.
    pub fn available_video_codecs(&self) -> (r: Vec<VideoCodec>)
        ensures
            r@ =~= seq![VideoCodec::H264, VideoCodec::Hevc],
    {
        let mut r: Vec<VideoCodec> = Vec::new();
        r.push(VideoCodec::H264);
        r.push(VideoCodec::Hevc);
        r
    }

    /// The autoreleased variant of
    /// [`RecordingOutputCfg::available_video_codecs`].
    pub fn available_video_codecs_ar(&self) -> (r: Vec<VideoCodec>)
        ensures
            r@ =~= seq![VideoCodec::H264, VideoCodec::Hevc],
    {
        self.available_video_codecs()
    }

    /// The container file types a recording output can write.
    pub fn available_output_file_types(&self) -> (r: Vec<FileType>)
        ensures
            r@ =~= seq![FileType::Mov, FileType::Mp4],
    {
        let mut r: Vec<FileType> = Vec::new();
        r.push(FileType::Mov);
        r.push(FileType::Mp4);
        r
    }

    /// The autoreleased variant of
    /// [`RecordingOutputCfg::available_output_file_types`].
    pub fn available_output_file_types_ar(&self) -> (r: Vec<FileType>)
        ensures
            r@ =~= seq![FileType::Mov, FileType::Mp4],
    {
        self.available_output_file_types()
    }
}

/// The lifecycle events a recording output reports to its owner. The
/// library calls these on the delegate its user registered; what an
/// implementation does with them is the user's business, so the methods
/// carry no contract.
pub trait Delegate {
    fn recording_output_did_start_recording(&mut self, recording_output: &mut RecordingOutput);

    fn recording_output_did_fail_with_err(
        &mut self,
        recording_output: &mut RecordingOutput,
        error: &Error,
    );

    fn recording_output_did_finish_recording(&mut self, recording_output: &mut RecordingOutput);
}

/// A delegate that ignores every event.
#[derive(Debug)]
pub struct AnyDelegate {
}

impl Delegate for AnyDelegate {
    fn recording_output_did_start_recording(&mut self, recording_output: &mut RecordingOutput) {
    }

    fn recording_output_did_fail_with_err(
        &mut self,
        recording_output: &mut RecordingOutput,
        error: &Error,
    ) {
    }

    fn recording_output_did_finish_recording(&mut self, recording_output: &mut RecordingOutput) {
    }
}

/// A running recording: its configuration and what has been written so far.
#[derive(Debug)]
pub struct RecordingOutput {
    pub cfg: RecordingOutputCfg,
    pub recorded_duration_field: Time,
    pub recorded_file_size_field: i64,
}

impl RecordingOutput {
    /// The native initializer: a recording output over the given
    /// configuration, registered with a delegate, with nothing recorded yet.
    pub fn init_with_cfg_delegate<D: Delegate>(cfg: RecordingOutputCfg, delegate: &D) -> (r:
        RecordingOutput)
        ensures
            r.cfg == cfg,
            r.recorded_duration_field.value == 0,
            r.recorded_duration_field.valid,
            r.recorded_file_size_field == 0,
    {
        RecordingOutput {
            cfg,
            recorded_duration_field: Time::new(0, 1),
            recorded_file_size_field: 0,
        }
    }

    /// A recording output over the given configuration and delegate.
    pub fn with_cfg<D: Delegate>(cfg: RecordingOutputCfg, delegate: &D) -> (r: RecordingOutput)
        ensures
            r.cfg == cfg,
            r.recorded_duration_field.value == 0,
            r.recorded_duration_field.valid,
            r.recorded_file_size_field == 0,
    {
        Self::init_with_cfg_delegate(cfg, delegate)
    }

    /// The duration recorded to the output file so far.
    pub fn recorded_duration(&self) -> (r: Time)
        ensures
            r == self.recorded_duration_field,
    {
        self.recorded_duration_field
    }

    /// The size in bytes recorded to the output file so far.
    pub fn recorded_file_size(&self) -> (r: i64)
        ensures
            r == self.recorded_file_size_field,
    {
        self.recorded_file_size_field
    }
}

} // verus!
