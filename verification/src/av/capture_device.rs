//! Capture devices: properties, formats, discovery, and the scoped
//! exclusive-configuration guard.
//!
//! A [`Device`] models one capture device of the native media framework as
//! plain data, together with the lock discipline the framework imposes:
//! properties that configure the hardware may only be written between a
//! successful "lock for configuration" and the matching unlock. The guard
//! type [`ConfigurationLockGuard`] makes that discipline structural — the
//! mutating methods exist only on the guard, and the guard is the only
//! witness that the lock is held — and the device carries counters for lock
//! and unlock calls so that the exactly-once unlock rule can be stated and
//! checked.

use vstd::prelude::*;

use crate::cg::{Point, Rect, UNIT};
use crate::cm::{FormatDesc, Time};
use crate::ns::{capture, CallOutcome, Error, Exception, ExceptionName};
use crate::blocks::{Completion, CompletionState};
use crate::av::media_format::MediaType;

verus! {

/// A capture device type, as declared by the framework.
#[derive(Clone, Copy, Debug, PartialEq, Eq, Structural)]
pub enum Type {
    /// An external device, such as a UVC camera.
    External,
    BuiltInMicrophone,
    BuiltInWideAngleCamera,
    BuiltInTelephotoCamera,
    BuiltInUltraWideCamera,
    BuiltInDualCamera,
    BuiltInDualWideCamera,
    BuiltInTripleCamera,
    BuiltInTrueDepthCamera,
    BuiltInLidarDepthCamera,
    ContinuityCamera,
    DeskViewCamera,
}

impl Type {
    pub fn external() -> (t: Type)
        ensures
            t == Type::External,
    {
        Type::External
    }

    pub fn built_in_microphone() -> (t: Type)
        ensures
            t == Type::BuiltInMicrophone,
    {
        Type::BuiltInMicrophone
    }

    pub fn built_in_wide_angle_camera() -> (t: Type)
        ensures
            t == Type::BuiltInWideAngleCamera,
    {
        Type::BuiltInWideAngleCamera
    }

    pub fn built_in_telephoto_camera() -> (t: Type)
        ensures
            t == Type::BuiltInTelephotoCamera,
    {
        Type::BuiltInTelephotoCamera
    }

    pub fn built_in_ultra_wide_camera() -> (t: Type)
        ensures
            t == Type::BuiltInUltraWideCamera,
    {
        Type::BuiltInUltraWideCamera
    }

    pub fn built_in_dual_camera() -> (t: Type)
        ensures
            t == Type::BuiltInDualCamera,
    {
        Type::BuiltInDualCamera
    }

    pub fn built_in_dual_wide_camera() -> (t: Type)
        ensures
            t == Type::BuiltInDualWideCamera,
    {
        Type::BuiltInDualWideCamera
    }

    pub fn built_in_tripple_camera() -> (t: Type)
        ensures
            t == Type::BuiltInTripleCamera,
    {
        Type::BuiltInTripleCamera
    }

    pub fn built_in_true_depth_camera() -> (t: Type)
        ensures
            t == Type::BuiltInTrueDepthCamera,
    {
        Type::BuiltInTrueDepthCamera
    }

    pub fn built_in_lidar_depth_camera() -> (t: Type)
        ensures
            t == Type::BuiltInLidarDepthCamera,
    {
        Type::BuiltInLidarDepthCamera
    }

    pub fn continuity_camera() -> (t: Type)
        ensures
            t == Type::ContinuityCamera,
    {
        Type::ContinuityCamera
    }

    pub fn desk_view_camera() -> (t: Type)
        ensures
            t == Type::DeskViewCamera,
    {
        Type::DeskViewCamera
    }
}

/// The physical position of a capture device.
#[derive(Clone, Copy, Debug, PartialEq, Eq, Structural)]
pub enum Position {
    Unspecified,
    Back,
    Front,
}

/// The rank discovery uses when ordering devices of equal type by position.
pub open spec fn position_rank(p: Position) -> int {
    match p {
        Position::Unspecified => 0,
        Position::Back => 1,
        Position::Front => 2,
    }
}

/// A microphone mode, as selected in the system's control center.
#[derive(Clone, Copy, Debug, PartialEq, Eq, Structural)]
pub enum MicMode {
    Standard,
    WideSpectrum,
    VoiceIsolation,
}

/// Who controls the center-stage feature: the user, the application, or
/// both cooperatively.
#[derive(Clone, Copy, Debug, PartialEq, Eq, Structural)]
pub enum CenterStageControlMode {
    User,
    App,
    Cooperative,
}

/// A system user-interface pane that the framework can bring up.
#[derive(Clone, Copy, Debug, PartialEq, Eq, Structural)]
pub enum SystemUi {
    VideoEffects,
    MicModes,
}

/// A capture color space.
#[derive(Clone, Copy, Debug, PartialEq, Eq, Structural)]
pub enum ColorSpace {
    Srgb,
    P3D65,
    HlgBt2020,
    AppleLog,
}

/// A torch mode.
#[derive(Clone, Copy, Debug, PartialEq, Eq, Structural)]
pub enum TorchMode {
    Off,
    On,
    Auto,
}

/// A focus mode.
#[derive(Clone, Copy, Debug, PartialEq, Eq, Structural)]
pub enum FocusMode {
    /// Focus is locked at the lens' current position.
    Locked,
    /// The device autofocuses once, then the mode changes to `Locked`.
    AutoFocus,
    /// The device refocuses automatically when needed.
    ContinuousAutoFocus,
}

/// The autofocus system a format offers.
#[derive(Clone, Copy, Debug, PartialEq, Eq, Structural)]
pub enum AutoFocusSystem {
    /// Autofocus is not available.
    Unavailable,
    /// Autofocus by contrast detection, which performs a focus scan.
    ContrastDetection,
    /// Autofocus by phase detection, which often needs no scan.
    PhaseDetection,
}

/// A restriction of the autofocus range.
#[derive(Clone, Copy, Debug, PartialEq, Eq, Structural)]
pub enum AutoFocusRangeRestriction {
    /// The autofocus system searches the full range.
    Unrestricted,
    /// The search is restricted to subjects near the camera.
    Near,
    /// The search is restricted to subjects far from the camera.
    Far,
}

/// An exposure mode.
#[derive(Clone, Copy, Debug, PartialEq, Eq, Structural)]
pub enum ExposureMode {
    /// Exposure is locked at its current value.
    Locked,
    /// The device adjusts exposure once, then the mode changes to `Locked`.
    AutoExpose,
    /// The device adjusts exposure automatically when needed.
    ContinuousAutoExposure,
    /// Exposure follows only user-provided settings.
    Custom,
}

/// A video stabilization mode.
#[derive(Clone, Copy, Debug, PartialEq, Eq, Structural)]
pub enum VideoStabilizationMode {
    Off,
    Standard,
    Cinematic,
    CinematicExtended,
    PreviewOptimized,
    Auto,
}

/// A session preset a device may support.
#[derive(Clone, Copy, Debug, PartialEq, Eq, Structural)]
pub enum SessionPreset {
    Photo,
    High,
    Medium,
    Low,
    Hd1280x720,
    Hd1920x1080,
    Uhd4k3840x2160,
}

impl SessionPreset {
    pub fn photo() -> (p: SessionPreset)
        ensures
            p == SessionPreset::Photo,
    {
        SessionPreset::Photo
    }

    pub fn high() -> (p: SessionPreset)
        ensures
            p == SessionPreset::High,
    {
        SessionPreset::High
    }
}

/// A reaction that can be rendered onto the video stream.
#[derive(Clone, Copy, Debug, PartialEq, Eq, Structural)]
pub enum ReactionType {
    ThumbsUp,
    ThumbsDown,
    Balloons,
    Hearts,
    Fireworks,
    Rain,
    Confetti,
    Lasers,
}

/// A reaction effect currently rendering on the stream.
#[derive(Clone, Copy, Debug, PartialEq, Eq, Structural)]
pub struct ReactionEffectState {
    pub reaction_type: ReactionType,
}

/// A range of frame rates a format supports, given by its extremal frame
/// durations.
#[derive(Clone, Copy, Debug, PartialEq, Eq, Structural)]
pub struct FrameRateRange {
    pub min_frame_duration_field: Time,
    pub max_frame_duration_field: Time,
}

impl FrameRateRange {
    pub fn new(min_frame_duration: Time, max_frame_duration: Time) -> (r: FrameRateRange)
        ensures
            r.min_frame_duration_field == min_frame_duration,
            r.max_frame_duration_field == max_frame_duration,
    {
        FrameRateRange {
            min_frame_duration_field: min_frame_duration,
            max_frame_duration_field: max_frame_duration,
        }
    }

    /// The longest frame duration of the range (its lowest frame rate).
    pub fn max_frame_duration(&self) -> (t: Time)
        ensures
            t == self.max_frame_duration_field,
    {
        self.max_frame_duration_field
    }

    /// The shortest frame duration of the range (its highest frame rate).
    pub fn min_frame_duration(&self) -> (t: Time)
        ensures
            t == self.min_frame_duration_field,
    {
        self.min_frame_duration_field
    }
}

/// Which video stabilization modes a format supports.
#[derive(Clone, Copy, Debug, PartialEq, Eq, Structural)]
pub struct StabilizationSupport {
    pub off: bool,
    pub standard: bool,
    pub cinematic: bool,
    pub cinematic_extended: bool,
    pub preview_optimized: bool,
    pub auto: bool,
}

/// One media format a capture device offers. Zoom factors are in
/// thousandths, so 1000 is a factor of one.
#[derive(Clone, Copy, Debug, PartialEq, Eq, Structural)]
pub struct Format {
    pub media_type_field: MediaType,
    pub format_desc_field: FormatDesc,
    pub frame_rate_range_field: FrameRateRange,
    pub is_video_binned_field: bool,
    pub stabilization_support: StabilizationSupport,
    pub video_max_zoom_factor_field: u32,
    pub video_zoom_factor_upscale_threshold_field: u32,
    pub min_exposure_duration_field: Time,
    pub max_exposure_duration_field: Time,
    pub auto_focus_system_field: AutoFocusSystem,
    pub is_multi_cam_supported_field: bool,
    pub is_center_stage_supported_field: bool,
    pub video_min_zoom_factor_for_center_stage_field: u32,
    pub video_frame_rate_range_for_center_stage_field: Option<FrameRateRange>,
    pub is_portrait_effect_supported_field: bool,
}

impl Format {
    pub fn media_type(&self) -> (r: MediaType)
        ensures
            r == self.media_type_field,
    {
        self.media_type_field
    }

    pub fn format_desc(&self) -> (r: &FormatDesc)
        ensures
            r == self.format_desc_field,
    {
        &self.format_desc_field
    }

    /// The frame-rate ranges this format supports.
    pub fn video_supported_frame_rate_ranges(&self) -> (r: Vec<FrameRateRange>)
        ensures
            r@ =~= seq![self.frame_rate_range_field],
    {
        let mut r: Vec<FrameRateRange> = Vec::new();
        r.push(self.frame_rate_range_field);
        r
    }

    pub fn is_video_binned(&self) -> (r: bool)
        ensures
            r == self.is_video_binned_field,
    {
        self.is_video_binned_field
    }

    /// Whether a stabilization mode is supported by this format.
    pub open spec fn stabilization_mode_supported(
        &self,
        mode: VideoStabilizationMode,
    ) -> bool {
        match mode {
            VideoStabilizationMode::Off => self.stabilization_support.off,
            VideoStabilizationMode::Standard => self.stabilization_support.standard,
            VideoStabilizationMode::Cinematic => self.stabilization_support.cinematic,
            VideoStabilizationMode::CinematicExtended => self.stabilization_support.cinematic_extended,
            VideoStabilizationMode::PreviewOptimized => self.stabilization_support.preview_optimized,
            VideoStabilizationMode::Auto => self.stabilization_support.auto,
        }
    }

    pub fn is_video_stabilization_mode_supported(&self, mode: VideoStabilizationMode) -> (r: bool)
        ensures
            r == self.stabilization_mode_supported(mode),
    {
        match mode {
            VideoStabilizationMode::Off => self.stabilization_support.off,
            VideoStabilizationMode::Standard => self.stabilization_support.standard,
            VideoStabilizationMode::Cinematic => self.stabilization_support.cinematic,
            VideoStabilizationMode::CinematicExtended => self.stabilization_support.cinematic_extended,
            VideoStabilizationMode::PreviewOptimized => self.stabilization_support.preview_optimized,
            VideoStabilizationMode::Auto => self.stabilization_support.auto,
        }
    }

    /// The greatest video zoom factor the format supports, in thousandths.
    pub fn video_max_zoom_factor(&self) -> (r: u32)
        ensures
            r == self.video_max_zoom_factor_field,
    {
        self.video_max_zoom_factor_field
    }

    /// The zoom factor above which zooming upscales the image, in
    /// thousandths.
    pub fn video_zoom_factor_upscale_threshold(&self) -> (r: u32)
        ensures
            r == self.video_zoom_factor_upscale_threshold_field,
    {
        self.video_zoom_factor_upscale_threshold_field
    }

    pub fn min_exposure_duration(&self) -> (t: Time)
        ensures
            t == self.min_exposure_duration_field,
    {
        self.min_exposure_duration_field
    }

    pub fn max_exposure_duration(&self) -> (t: Time)
        ensures
            t == self.max_exposure_duration_field,
    {
        self.max_exposure_duration_field
    }

    pub fn auto_focus_system(&self) -> (r: AutoFocusSystem)
        ensures
            r == self.auto_focus_system_field,
    {
        self.auto_focus_system_field
    }

    pub fn is_mutli_cam_supported(&self) -> (r: bool)
        ensures
            r == self.is_multi_cam_supported_field,
    {
        self.is_multi_cam_supported_field
    }

    pub fn is_center_stage_supported(&self) -> (r: bool)
        ensures
            r == self.is_center_stage_supported_field,
    {
        self.is_center_stage_supported_field
    }

    /// The least zoom factor available while center stage is active, in
    /// thousandths.
    pub fn video_min_zoom_factor_for_center_stage(&self) -> (r: u32)
        ensures
            r == self.video_min_zoom_factor_for_center_stage_field,
    {
        self.video_min_zoom_factor_for_center_stage_field
    }

    pub fn video_frame_rate_range_for_center_stage(&self) -> (r: Option<FrameRateRange>)
        ensures
            r == self.video_frame_rate_range_for_center_stage_field,
    {
        self.video_frame_rate_range_for_center_stage_field
    }

    pub fn is_portrait_effect_supported(&self) -> (r: bool)
        ensures
            r == self.is_portrait_effect_supported_field,
    {
        self.is_portrait_effect_supported_field
    }
}


/// One capture device, as plain data. Zoom factors and lens positions are
/// in thousandths; points and rectangles of interest live in the normalized
/// space of [`crate::cg`].
#[derive(Debug)]
pub struct Device {
    pub unique_id_field: String,
    pub model_id_field: String,
    pub localized_name_field: String,
    pub manufacturer_field: String,
    pub device_type_field: Type,
    pub position_field: Position,
    pub media_types: Vec<MediaType>,
    pub formats_field: Vec<Format>,
    pub active_format_field: Format,
    pub supported_presets: Vec<SessionPreset>,
    pub is_connected_field: bool,
    pub active_video_min_frame_duration_field: Time,
    pub active_video_max_frame_duration_field: Time,
    pub has_torch_field: bool,
    pub is_ramping_video_zoom_field: bool,
    pub video_zoom_factor_field: u32,
    pub zoom_ramp_target: u32,
    pub can_perform_reaction_effects_field: bool,
    pub available_reaction_types_field: Vec<ReactionType>,
    pub reaction_effects_in_progress_field: Vec<ReactionEffectState>,
    pub is_continuity_camera_field: bool,
    pub is_center_stage_active_field: bool,
    pub center_stage_rect_of_interest_field: Rect,
    pub active_color_space_field: ColorSpace,
    pub supported_focus_modes: Vec<FocusMode>,
    pub focus_mode_field: FocusMode,
    pub is_focus_point_of_interest_supported_field: bool,
    pub focus_point_of_interest_field: Point,
    pub is_adjusting_focus_field: bool,
    pub is_auto_focus_range_restriction_supported_field: bool,
    pub auto_focus_range_restriction_field: AutoFocusRangeRestriction,
    pub is_smooth_auto_focus_supported_field: bool,
    pub is_smooth_auto_focus_enabled_field: bool,
    pub automatically_adjusts_face_driven_auto_focus_enabled_field: bool,
    pub is_face_driven_auto_focus_enabled_field: bool,
    pub is_locking_focus_with_custom_lens_position_supported_field: bool,
    pub lens_position_field: u32,
    pub minimum_focus_distance_field: i64,
    pub supported_exposure_modes: Vec<ExposureMode>,
    pub exposure_mode_field: ExposureMode,
    pub is_exposure_point_of_interest_supported_field: bool,
    pub exposure_point_of_interest_field: Point,
    pub automatically_adjusts_face_driven_auto_exposure_enabled_field: bool,
    pub is_face_driven_auto_exposure_enabled_field: bool,
    pub active_max_exposure_duration_field: Time,
    pub clock_field: Time,
    pub config_locked: bool,
    pub lock_count: u64,
    pub unlock_count: u64,
}

impl Device {
    /// The lock-balance invariant: while the configuration lock is held,
    /// exactly one lock call is outstanding; while it is not, every lock
    /// call has been matched by its unlock.
    pub open spec fn wf(&self) -> bool {
        if self.config_locked {
            self.lock_count == self.unlock_count + 1
        } else {
            self.lock_count == self.unlock_count
        }
    }

    pub fn unique_id(&self) -> (r: &String)
        ensures
            r == self.unique_id_field,
    {
        &self.unique_id_field
    }

    /// An identifier shared by all devices of the same model.
    pub fn model_id(&self) -> (r: &String)
        ensures
            r == self.model_id_field,
    {
        &self.model_id_field
    }

    /// A localized human-readable name, for display in a user interface.
    pub fn localized_name(&self) -> (r: &String)
        ensures
            r == self.localized_name_field,
    {
        &self.localized_name_field
    }

    /// The manufacturer's human-readable name.
    pub fn manufacturer(&self) -> (r: &String)
        ensures
            r == self.manufacturer_field,
    {
        &self.manufacturer_field
    }

    pub fn device_type(&self) -> (r: Type)
        ensures
            r == self.device_type_field,
    {
        self.device_type_field
    }

    pub fn position(&self) -> (r: Position)
        ensures
            r == self.position_field,
    {
        self.position_field
    }

    /// Whether the device outputs the given media type.
    pub fn has_media_type(&self, media_type: &MediaType) -> (r: bool)
        ensures
            r == self.media_types@.contains(*media_type),
    {
        let mut i: usize = 0;
        while i < self.media_types.len()
            invariant
                0 <= i <= self.media_types@.len(),
                forall|j: int| 0 <= j < i ==> self.media_types@[j] != *media_type,
            decreases self.media_types@.len() - i,
        {
            if self.media_types[i] == *media_type {
                return true;
            }
            i = i + 1;
        }
        false
    }

    pub fn formats(&self) -> (r: &Vec<Format>)
        ensures
            r == self.formats_field,
    {
        &self.formats_field
    }

    pub fn supports_preset(&self, preset: &SessionPreset) -> (r: bool)
        ensures
            r == self.supported_presets@.contains(*preset),
    {
        let mut i: usize = 0;
        while i < self.supported_presets.len()
            invariant
                0 <= i <= self.supported_presets@.len(),
                forall|j: int| 0 <= j < i ==> self.supported_presets@[j] != *preset,
            decreases self.supported_presets@.len() - i,
        {
            if self.supported_presets[i] == *preset {
                return true;
            }
            i = i + 1;
        }
        false
    }

    pub fn active_format(&self) -> (r: &Format)
        ensures
            r == self.active_format_field,
    {
        &self.active_format_field
    }

    /// Whether the device is connected and available. Once false for an
    /// instance, it never becomes true again for that instance.
    pub fn is_connected(&self) -> (r: bool)
        ensures
            r == self.is_connected_field,
    {
        self.is_connected_field
    }

    pub fn active_video_min_frame_duration(&self) -> (t: Time)
        ensures
            t == self.active_video_min_frame_duration_field,
    {
        self.active_video_min_frame_duration_field
    }

    pub fn active_video_max_frame_duration(&self) -> (t: Time)
        ensures
            t == self.active_video_max_frame_duration_field,
    {
        self.active_video_max_frame_duration_field
    }

    pub fn has_torch(&self) -> (r: bool)
        ensures
            r == self.has_torch_field,
    {
        self.has_torch_field
    }

    pub fn is_ramping_video_zoom(&self) -> (r: bool)
        ensures
            r == self.is_ramping_video_zoom_field,
    {
        self.is_ramping_video_zoom_field
    }

    pub fn can_perform_reaction_effects(&self) -> (r: bool)
        ensures
            r == self.can_perform_reaction_effects_field,
    {
        self.can_perform_reaction_effects_field
    }

    /// The reactions that may be passed to
    /// [`Device::perform_effect_for_reaction`] in the current configuration.
    pub fn available_reaction_types(&self) -> (r: &Vec<ReactionType>)
        ensures
            r == self.available_reaction_types_field,
    {
        &self.available_reaction_types_field
    }

    /// Trigger a reaction on the video stream: it joins the effects in
    /// progress.
    pub fn perform_effect_for_reaction(&mut self, reaction_type: &ReactionType)
        requires
            old(self).can_perform_reaction_effects_field,
            old(self).available_reaction_types_field@.contains(*reaction_type),
        ensures
            *final(self) == (Device {
                reaction_effects_in_progress_field: final(self).reaction_effects_in_progress_field,
                ..*old(self)
            }),
            final(self).reaction_effects_in_progress_field@ =~= old(
                self,
            ).reaction_effects_in_progress_field@.push(
                ReactionEffectState { reaction_type: *reaction_type },
            ),
    {
        self.reaction_effects_in_progress_field.push(
            ReactionEffectState { reaction_type: *reaction_type },
        );
    }

    pub fn reaction_effects_in_progress(&self) -> (r: &Vec<ReactionEffectState>)
        ensures
            r == self.reaction_effects_in_progress_field,
    {
        &self.reaction_effects_in_progress_field
    }

    /// Whether the receiver is a continuity camera.
    pub fn is_continuity_camera(&self) -> (r: bool)
        ensures
            r == self.is_continuity_camera_field,
    {
        self.is_continuity_camera_field
    }

    pub fn is_center_stage_active(&self) -> (r: bool)
        ensures
            r == self.is_center_stage_active_field,
    {
        self.is_center_stage_active_field
    }

    pub fn center_stage_rect_of_interest(&self) -> (r: Rect)
        ensures
            r == self.center_stage_rect_of_interest_field,
    {
        self.center_stage_rect_of_interest_field
    }

    pub fn active_color_space(&self) -> (r: ColorSpace)
        ensures
            r == self.active_color_space_field,
    {
        self.active_color_space_field
    }

    pub fn is_focus_mode_supported(&self, mode: FocusMode) -> (r: bool)
        ensures
            r == self.supported_focus_modes@.contains(mode),
    {
        let mut i: usize = 0;
        while i < self.supported_focus_modes.len()
            invariant
                0 <= i <= self.supported_focus_modes@.len(),
                forall|j: int| 0 <= j < i ==> self.supported_focus_modes@[j] != mode,
            decreases self.supported_focus_modes@.len() - i,
        {
            if self.supported_focus_modes[i] == mode {
                return true;
            }
            i = i + 1;
        }
        false
    }

    pub fn is_locking_focus_with_custom_lens_position_supported(&self) -> (r: bool)
        ensures
            r == self.is_locking_focus_with_custom_lens_position_supported_field,
    {
        self.is_locking_focus_with_custom_lens_position_supported_field
    }

    pub fn focus_mode(&self) -> (r: FocusMode)
        ensures
            r == self.focus_mode_field,
    {
        self.focus_mode_field
    }

    pub fn is_focus_point_of_interest_supported(&self) -> (r: bool)
        ensures
            r == self.is_focus_point_of_interest_supported_field,
    {
        self.is_focus_point_of_interest_supported_field
    }

    pub fn focus_point_of_intereset(&self) -> (r: Point)
        ensures
            r == self.focus_point_of_interest_field,
    {
        self.focus_point_of_interest_field
    }

    /// Whether a focus scan is currently adjusting the camera's focus.
    pub fn is_adjusting_focus(&self) -> (r: bool)
        ensures
            r == self.is_adjusting_focus_field,
    {
        self.is_adjusting_focus_field
    }

    pub fn is_auto_focus_range_restriction_supported(&self) -> (r: bool)
        ensures
            r == self.is_auto_focus_range_restriction_supported_field,
    {
        self.is_auto_focus_range_restriction_supported_field
    }

    pub fn auto_focus_range_restriction(&self) -> (r: AutoFocusRangeRestriction)
        ensures
            r == self.auto_focus_range_restriction_field,
    {
        self.auto_focus_range_restriction_field
    }

    pub fn is_smooth_auto_focus_supported(&self) -> (r: bool)
        ensures
            r == self.is_smooth_auto_focus_supported_field,
    {
        self.is_smooth_auto_focus_supported_field
    }

    pub fn is_smooth_auto_focus_enabled(&self) -> (r: bool)
        ensures
            r == self.is_smooth_auto_focus_enabled_field,
    {
        self.is_smooth_auto_focus_enabled_field
    }

    pub fn automatically_adjusts_face_driven_auto_focus_enabled(&self) -> (r: bool)
        ensures
            r == self.automatically_adjusts_face_driven_auto_focus_enabled_field,
    {
        self.automatically_adjusts_face_driven_auto_focus_enabled_field
    }

    pub fn is_face_driven_auto_focus_enabled(&self) -> (r: bool)
        ensures
            r == self.is_face_driven_auto_focus_enabled_field,
    {
        self.is_face_driven_auto_focus_enabled_field
    }

    /// The lens position, in thousandths of the travel range.
    pub fn lens_position(&self) -> (r: u32)
        ensures
            r == self.lens_position_field,
    {
        self.lens_position_field
    }

    /// The minimum focus distance in millimeters, or -1 if unknown.
    pub fn minimum_focus_distance(&self) -> (r: i64)
        ensures
            r == self.minimum_focus_distance_field,
    {
        self.minimum_focus_distance_field
    }

    pub fn is_exposure_mode_supported(&self, value: ExposureMode) -> (r: bool)
        ensures
            r == self.supported_exposure_modes@.contains(value),
    {
        let mut i: usize = 0;
        while i < self.supported_exposure_modes.len()
            invariant
                0 <= i <= self.supported_exposure_modes@.len(),
                forall|j: int| 0 <= j < i ==> self.supported_exposure_modes@[j] != value,
            decreases self.supported_exposure_modes@.len() - i,
        {
            if self.supported_exposure_modes[i] == value {
                return true;
            }
            i = i + 1;
        }
        false
    }

    pub fn exposure_mode(&self) -> (r: ExposureMode)
        ensures
            r == self.exposure_mode_field,
    {
        self.exposure_mode_field
    }

    pub fn is_exposure_point_of_interest_supported(&self) -> (r: bool)
        ensures
            r == self.is_exposure_point_of_interest_supported_field,
    {
        self.is_exposure_point_of_interest_supported_field
    }

    pub fn exposure_point_of_interest(&self) -> (r: Point)
        ensures
            r == self.exposure_point_of_interest_field,
    {
        self.exposure_point_of_interest_field
    }

    pub fn automatically_adjusts_face_driven_auto_exposure_enabled(&self) -> (r: bool)
        ensures
            r == self.automatically_adjusts_face_driven_auto_exposure_enabled_field,
    {
        self.automatically_adjusts_face_driven_auto_exposure_enabled_field
    }

    pub fn is_face_driven_auto_exposure_enabled(&self) -> (r: bool)
        ensures
            r == self.is_face_driven_auto_exposure_enabled_field,
    {
        self.is_face_driven_auto_exposure_enabled_field
    }

    pub fn active_max_exposure_duration(&self) -> (t: Time)
        ensures
            t == self.active_max_exposure_duration_field,
    {
        self.active_max_exposure_duration_field
    }

    /// How many configuration-lock calls this device has answered.
    pub fn configuration_lock_count(&self) -> (n: u64)
        ensures
            n == self.lock_count,
    {
        self.lock_count
    }

    /// How many configuration-unlock calls this device has answered.
    pub fn configuration_unlock_count(&self) -> (n: u64)
        ensures
            n == self.unlock_count,
    {
        self.unlock_count
    }

    /// Let a device value go. Device values are plain data — the native
    /// object's counts live with its handles — so nothing is owed here.
    pub fn leak_device(self) {
    }

    /// Whether the user has reaction effects switched on in the system's
    /// control center; the mock system's default is on.
    pub fn reaction_effects_enabled() -> (r: bool)
        ensures
            r,
    {
        true
    }

    /// Whether reaction gestures are switched on in the system's control
    /// center; the mock system's default is on.
    pub fn reaction_effect_gestures_enabled() -> (r: bool)
        ensures
            r,
    {
        true
    }

    /// The microphone mode the user selected in the control center; the
    /// mock system's selection is the standard mode.
    pub fn preferred_mic_mode() -> (r: MicMode)
        ensures
            r == MicMode::Standard,
    {
        MicMode::Standard
    }

    /// The microphone mode actually in effect, which the mock system's
    /// audio route can always honor.
    pub fn active_mic_mode() -> (r: MicMode)
        ensures
            r == MicMode::Standard,
    {
        MicMode::Standard
    }

    /// Who controls center stage; the mock system leaves it with the user.
    pub fn center_stage_control_mode() -> (r: CenterStageControlMode)
        ensures
            r == CenterStageControlMode::User,
    {
        CenterStageControlMode::User
    }
}


/// A zoom factor or lens position of one, in thousandths.
pub const ZOOM_UNIT: u32 = 1000;

/// The error code a device reports when it cannot be locked because it is
/// not connected.
pub const ERROR_CODE_NOT_CONNECTED: i64 = -11852;

/// Whether a device meets discovery criteria: its declared type is the one
/// asked for, it carries the requested media type (if one was requested),
/// and it sits at the requested position (unspecified matches any).
pub open spec fn matches_criteria(
    d: Device,
    device_type: Type,
    media_type: Option<MediaType>,
    position: Position,
) -> bool {
    &&& d.device_type_field == device_type
    &&& match media_type {
        Some(mt) => d.media_types@.contains(mt),
        None => true,
    }
    &&& (position == Position::Unspecified || d.position_field == position)
}

/// The value behind an optional reference, as discovery criteria use it.
pub open spec fn media_type_of(media_type: Option<&MediaType>) -> Option<MediaType> {
    match media_type {
        Some(mt) => Some(*mt),
        None => None,
    }
}

/// Whether `d` is the first device of `devices` that meets the criteria.
pub open spec fn is_first_match(
    devices: Seq<Device>,
    device_type: Type,
    media_type: Option<MediaType>,
    position: Position,
    d: Device,
) -> bool {
    exists|i: int|
        0 <= i < devices.len() && devices[i] == d && matches_criteria(
            d,
            device_type,
            media_type,
            position,
        ) && (forall|j: int|
            0 <= j < i ==> !matches_criteria(devices[j], device_type, media_type, position))
}

/// Whether `d` is the first device of `devices` carrying the identifier.
pub open spec fn is_first_id_match(devices: Seq<Device>, unique_id: Seq<char>, d: Device) -> bool {
    exists|i: int|
        0 <= i < devices.len() && devices[i] == d && d.unique_id_field@ == unique_id && (forall|
            j: int,
        |
            0 <= j < i ==> (#[trigger] devices[j]).unique_id_field@ != unique_id)
}

/// Against the pinned registry, the criteria search succeeds exactly when
/// [`system_has_device`] says a device meeting the criteria exists.
pub proof fn lemma_registry_search_is_exact(
    sys: Seq<Device>,
    device_type: Type,
    media_type: Option<MediaType>,
    position: Position,
    r: Option<Device>,
)
    requires
        is_system_registry(sys),
        match r {
            Some(d) => is_first_match(sys, device_type, media_type, position, d),
            None => forall|i: int|
                0 <= i < sys.len() ==> !matches_criteria(
                    sys[i],
                    device_type,
                    media_type,
                    position,
                ),
        },
    ensures
        match r {
            Some(d) => system_has_device(device_type, media_type, position) && registry_device(d)
                && matches_criteria(d, device_type, media_type, position) && (exists|i: int|
                0 <= i < 5 && registry_entry(d, i)),
            None => !system_has_device(device_type, media_type, position),
        },
{
    match r {
        Some(d) => {
            let i = choose|i: int|
                0 <= i < sys.len() && sys[i] == d && matches_criteria(
                    d,
                    device_type,
                    media_type,
                    position,
                ) && (forall|j: int|
                    0 <= j < i ==> !matches_criteria(sys[j], device_type, media_type, position));
            assert(registry_entry(sys[i], i));
            assert(registry_entry(d, i));
            assert(registry_device(sys[i]));
            assert(system_has_device(device_type, media_type, position)) by {
                if i == 0 {
                } else if i == 1 || i == 3 || i == 4 {
                } else {
                    assert(i == 2);
                }
            }
        },
        None => {
            assert(!system_has_device(device_type, media_type, position)) by {
                if system_has_device(device_type, media_type, position) {
                    if device_type == Type::BuiltInWideAngleCamera && media_among(
                        media_type,
                        seq![MediaType::Video],
                    ) && (position == Position::Unspecified || position == Position::Front) {
                        assert(matches_criteria(sys[0], device_type, media_type, position));
                    } else if device_type == Type::BuiltInMicrophone && media_among(
                        media_type,
                        seq![MediaType::Audio],
                    ) && position == Position::Unspecified {
                        assert(matches_criteria(sys[2], device_type, media_type, position));
                    } else {
                        assert(device_type == Type::External);
                        match position {
                            Position::Unspecified => {
                                assert(matches_criteria(sys[1], device_type, media_type, position));
                            },
                            Position::Back => {
                                assert(matches_criteria(sys[1], device_type, media_type, position));
                            },
                            Position::Front => {
                                assert(matches_criteria(sys[3], device_type, media_type, position));
                            },
                        }
                    }
                }
            }
        },
    }
}

/// Against the pinned registry, the identifier search succeeds exactly for
/// the identifiers of [`system_device_ids`].
pub proof fn lemma_registry_id_search_is_exact(
    sys: Seq<Device>,
    unique_id: Seq<char>,
    r: Option<Device>,
)
    requires
        is_system_registry(sys),
        match r {
            Some(d) => is_first_id_match(sys, unique_id, d),
            None => forall|i: int|
                0 <= i < sys.len() ==> (#[trigger] sys[i]).unique_id_field@ != unique_id,
        },
    ensures
        match r {
            Some(d) => d.unique_id_field@ == unique_id && registry_device(d)
                && system_device_ids().contains(unique_id) && (exists|i: int|
                0 <= i < 5 && registry_entry(d, i)),
            None => !system_device_ids().contains(unique_id),
        },
{
    match r {
        Some(d) => {
            let i = choose|i: int|
                0 <= i < sys.len() && sys[i] == d && d.unique_id_field@ == unique_id && (forall|
                    j: int,
                |
                    0 <= j < i ==> (#[trigger] sys[j]).unique_id_field@ != unique_id);
            assert(registry_entry(sys[i], i));
            assert(registry_entry(d, i));
            assert(registry_device(sys[i]));
            assert(system_device_ids().contains(unique_id)) by {
                if i == 0 {
                    assert(system_device_ids()[0] == unique_id);
                } else if i == 1 {
                    assert(system_device_ids()[1] == unique_id);
                } else if i == 2 {
                    assert(system_device_ids()[2] == unique_id);
                } else if i == 3 {
                    assert(system_device_ids()[3] == unique_id);
                } else {
                    assert(system_device_ids()[4] == unique_id);
                }
            }
        },
        None => {
            assert(!system_device_ids().contains(unique_id)) by {
                if system_device_ids().contains(unique_id) {
                    let k = choose|k: int|
                        0 <= k < system_device_ids().len() && system_device_ids()[k] == unique_id;
                    if k == 0 {
                        assert(sys[0].unique_id_field@ == unique_id);
                    } else if k == 1 {
                        assert(sys[1].unique_id_field@ == unique_id);
                    } else if k == 2 {
                        assert(sys[2].unique_id_field@ == unique_id);
                    } else if k == 3 {
                        assert(sys[3].unique_id_field@ == unique_id);
                    } else {
                        assert(sys[4].unique_id_field@ == unique_id);
                    }
                }
            }
        },
    }
}

impl Device {
    /// Whether some format of this device supports center stage.
    pub open spec fn supports_center_stage(&self) -> bool {
        exists|i: int|
            0 <= i < self.formats_field@.len() && self.formats_field@[i].is_center_stage_supported_field
    }

    fn any_format_supports_center_stage(&self) -> (r: bool)
        ensures
            r == self.supports_center_stage(),
    {
        let mut i: usize = 0;
        while i < self.formats_field.len()
            invariant
                0 <= i <= self.formats_field@.len(),
                forall|j: int|
                    0 <= j < i ==> !self.formats_field@[j].is_center_stage_supported_field,
            decreases self.formats_field@.len() - i,
        {
            if self.formats_field[i].is_center_stage_supported_field {
                return true;
            }
            i = i + 1;
        }
        false
    }

    fn matches(&self, device_type: &Type, media_type: Option<&MediaType>, position: Position) -> (r:
        bool)
        ensures
            r == matches_criteria(*self, *device_type, media_type_of(media_type), position),
    {
        if self.device_type_field != *device_type {
            return false;
        }
        let media_ok = match media_type {
            Some(mt) => self.has_media_type(mt),
            None => true,
        };
        if !media_ok {
            return false;
        }
        match position {
            Position::Unspecified => true,
            _ => self.position_field == position,
        }
    }

    /// The first device of a list that meets the given criteria, taken out
    /// of the list; `None` when no device of the list meets them.
    #[verifier::loop_isolation(false)]
    pub fn first_device_matching(
        mut devices: Vec<Device>,
        device_type: &Type,
        media_type: Option<&MediaType>,
        position: Position,
    ) -> (r: Option<Device>)
        ensures
            match r {
                Some(d) => is_first_match(
                    devices@,
                    *device_type,
                    media_type_of(media_type),
                    position,
                    d,
                ),
                None => forall|i: int|
                    0 <= i < devices@.len() ==> !matches_criteria(
                        devices@[i],
                        *device_type,
                        media_type_of(media_type),
                        position,
                    ),
            },
    {
        let ghost orig = devices@;
        let mut i: usize = 0;
        while i < devices.len()
            invariant
                0 <= i <= devices@.len(),
                devices@ == orig,
                forall|j: int|
                    0 <= j < i ==> !matches_criteria(
                        orig[j],
                        *device_type,
                        media_type_of(media_type),
                        position,
                    ),
            decreases devices@.len() - i,
        {
            if devices[i].matches(device_type, media_type, position) {
                let d = devices.remove(i);
                proof {
                    assert(orig[i as int] == d);
                    assert(is_first_match(
                        orig,
                        *device_type,
                        media_type_of(media_type),
                        position,
                        d,
                    )) by {
                        assert(0 <= (i as int) && (i as int) < orig.len() && orig[i as int] == d);
                    }
                }
                return Some(d);
            }
            i = i + 1;
        }
        None
    }

    /// The system's default device for a device type, media type, and
    /// position: the first device of the system's registry that meets the
    /// criteria. Absence of a matching device is an expected outcome and is
    /// the `None` case, not an error; it happens exactly when the registry
    /// holds no such device.
    pub fn with_device_type_media_and_position(
        device_type: &Type,
        media_type: Option<&MediaType>,
        position: Position,
    ) -> (r: Option<Device>)
        ensures
            match r {
                Some(d) => {
                    &&& system_has_device(*device_type, media_type_of(media_type), position)
                    &&& matches_criteria(d, *device_type, media_type_of(media_type), position)
                    &&& registry_device(d)
                    &&& exists|i: int| 0 <= i < 5 && registry_entry(d, i)
                },
                None => !system_has_device(*device_type, media_type_of(media_type), position),
            },
    {
        let devices = system_devices();
        let ghost sys = devices@;
        let r = Self::first_device_matching(devices, device_type, media_type, position);
        proof {
            lemma_registry_search_is_exact(
                sys,
                *device_type,
                media_type_of(media_type),
                position,
                r,
            );
        }
        r
    }

    /// The autoreleased variant of
    /// [`Device::with_device_type_media_and_position`]; the result must be
    /// retained before the enclosing pool drains, which the ownership model
    /// of this crate expresses by handing back the same owned value.
    pub fn with_device_type_media_and_position_ar(
        device_type: &Type,
        media_type: Option<&MediaType>,
        position: Position,
    ) -> (r: Option<Device>)
        ensures
            match r {
                Some(d) => {
                    &&& system_has_device(*device_type, media_type_of(media_type), position)
                    &&& matches_criteria(d, *device_type, media_type_of(media_type), position)
                    &&& registry_device(d)
                    &&& exists|i: int| 0 <= i < 5 && registry_entry(d, i)
                },
                None => !system_has_device(*device_type, media_type_of(media_type), position),
            },
    {
        Self::with_device_type_media_and_position(device_type, media_type, position)
    }

    /// The first device of a list carrying the given unique identifier,
    /// taken out of the list; `None` exactly when no device of the list
    /// carries it.
    #[verifier::loop_isolation(false)]
    pub fn first_device_with_id(mut devices: Vec<Device>, unique_id: &String) -> (r: Option<
        Device,
    >)
        ensures
            match r {
                Some(d) => is_first_id_match(devices@, unique_id@, d),
                None => forall|i: int|
                    0 <= i < devices@.len() ==> (#[trigger] devices@[i]).unique_id_field@
                        != unique_id@,
            },
    {
        let ghost orig = devices@;
        let mut i: usize = 0;
        while i < devices.len()
            invariant
                0 <= i <= devices@.len(),
                devices@ == orig,
                forall|j: int|
                    0 <= j < i ==> (#[trigger] orig[j]).unique_id_field@ != unique_id@,
            decreases devices@.len() - i,
        {
            if devices[i].unique_id_field == *unique_id {
                let d = devices.remove(i);
                proof {
                    assert(orig[i as int] == d);
                    assert(is_first_id_match(orig, unique_id@, d)) by {
                        assert(0 <= (i as int) && (i as int) < orig.len() && orig[i as int] == d);
                    }
                }
                return Some(d);
            }
            i = i + 1;
        }
        None
    }

    /// The connected device carrying the given unique identifier: `Some`
    /// exactly when the system registry holds a device with that id.
    pub fn with_unique_id(unique_id: String) -> (r: Option<Device>)
        ensures
            match r {
                Some(d) => d.unique_id_field@ == unique_id@ && registry_device(d)
                    && system_device_ids().contains(unique_id@) && (exists|i: int|
                0 <= i < 5 && registry_entry(d, i)),
                None => !system_device_ids().contains(unique_id@),
            },
    {
        let devices = system_devices();
        let ghost sys = devices@;
        let r = Self::first_device_with_id(devices, &unique_id);
        proof {
            lemma_registry_id_search_is_exact(sys, unique_id@, r);
        }
        r
    }

    /// The autoreleased variant of [`Device::with_unique_id`].
    pub fn with_unique_id_ar(unique_id: String) -> (r: Option<Device>)
        ensures
            match r {
                Some(d) => d.unique_id_field@ == unique_id@ && registry_device(d)
                    && system_device_ids().contains(unique_id@) && (exists|i: int|
                0 <= i < 5 && registry_entry(d, i)),
                None => !system_device_ids().contains(unique_id@),
            },
    {
        Self::with_unique_id(unique_id)
    }

    /// The native lock-for-configuration entry point. It succeeds exactly
    /// when the device is connected; on failure it populates the error
    /// output and leaves the device untouched.
    pub fn lock_for_configuration(&mut self, error: &mut Option<Error>) -> (r: bool)
        requires
            old(self).wf(),
            !old(self).config_locked,
            old(self).lock_count < u64::MAX,
        ensures
            r == old(self).is_connected_field,
            r ==> *final(self) == (Device {
                config_locked: true,
                lock_count: (old(self).lock_count + 1) as u64,
                ..*old(self)
            }) && *final(error) is None && final(self).wf(),
            !r ==> *final(self) == *old(self) && match *final(error) {
                Some(e) => e.domain@ == "AVFoundationErrorDomain"@ && e.code
                    == ERROR_CODE_NOT_CONNECTED,
                None => false,
            },
    {
        if self.is_connected_field {
            self.config_locked = true;
            self.lock_count = self.lock_count + 1;
            *error = None;
            true
        } else {
            *error = Some(
                Error::new(
                    "AVFoundationErrorDomain".to_owned(),
                    ERROR_CODE_NOT_CONNECTED,
                    "the device is not connected".to_owned(),
                ),
            );
            false
        }
    }

    /// The native unlock-for-configuration entry point: balances one
    /// outstanding lock call.
    pub fn unlock_for_configuration(&mut self)
        requires
            old(self).wf(),
            old(self).config_locked,
        ensures
            *final(self) == (Device {
                config_locked: false,
                unlock_count: (old(self).unlock_count + 1) as u64,
                ..*old(self)
            }),
            final(self).wf(),
    {
        self.config_locked = false;
        self.unlock_count = self.unlock_count + 1;
    }

    /// Acquire exclusive configuration rights. On success the device moves
    /// into the guard, which is the only witness that the lock is held and
    /// the only path to the restricted setters; on failure the lock state is
    /// unchanged and the device comes back beside the structured error.
    pub fn configuration_lock(self) -> (r: Result<ConfigurationLockGuard, (Device, Error)>)
        requires
            self.wf(),
            !self.config_locked,
            self.lock_count < u64::MAX,
        ensures
            match r {
                Ok(g) => {
                    &&& self.is_connected_field
                    &&& g.wf()
                    &&& g.device_spec() == (Device {
                        config_locked: true,
                        lock_count: (self.lock_count + 1) as u64,
                        ..self
                    })
                },
                Err((d, e)) => {
                    &&& !self.is_connected_field
                    &&& d == self
                    &&& e.domain@ == "AVFoundationErrorDomain"@
                    &&& e.code == ERROR_CODE_NOT_CONNECTED
                },
            },
    {
        let mut device = self;
        let mut error: Option<Error> = None;
        let locked = device.lock_for_configuration(&mut error);
        match error {
            Some(e) => Err((device, e)),
            None => {
                assert(locked);
                Ok(ConfigurationLockGuard { device })
            },
        }
    }
}


impl Device {
    /// The native active-format setter. Setting a format the device does
    /// not offer would raise; that input is excluded here, since the guard
    /// only hands over formats the device reported.
    pub fn set_active_format(&mut self, value: &Format)
        requires
            old(self).config_locked,
            old(self).formats_field@.contains(*value),
        ensures
            *final(self) == (Device { active_format_field: *value, ..*old(self) }),
    {
        self.active_format_field = *value;
    }

    /// The native setter for the shortest allowed frame duration.
    pub fn set_active_video_min_frame_duration(&mut self, value: Time)
        requires
            old(self).config_locked,
            value.valid,
        ensures
            *final(self) == (Device {
                active_video_min_frame_duration_field: value,
                ..*old(self)
            }),
    {
        self.active_video_min_frame_duration_field = value;
    }

    /// The native setter for the longest allowed frame duration.
    pub fn set_active_video_max_frame_duration(&mut self, value: Time)
        requires
            old(self).config_locked,
            value.valid,
        ensures
            *final(self) == (Device {
                active_video_max_frame_duration_field: value,
                ..*old(self)
            }),
    {
        self.active_video_max_frame_duration_field = value;
    }

    /// The native zoom ramp: raises when the target factor lies outside the
    /// range the active format supports; otherwise the ramp begins.
    pub fn ramp_to_video_zoom_factor_throws(&mut self, factor: u32, rate: u32) -> (r: CallOutcome<
        (),
    >)
        requires
            old(self).config_locked,
        ensures
            ({
                let ok = ZOOM_UNIT <= factor <= old(self).active_format_field.video_max_zoom_factor_field;
                match r {
                    CallOutcome::Returned(_) => ok && *final(self) == (Device {
                        is_ramping_video_zoom_field: true,
                        zoom_ramp_target: factor,
                        ..*old(self)
                    }),
                    CallOutcome::Raised(e) => !ok && *final(self) == *old(self) && e.name
                        == ExceptionName::InvalidArgument,
                }
            }),
    {
        let _ = rate;
        if ZOOM_UNIT <= factor && factor <= self.active_format_field.video_max_zoom_factor_field {
            self.is_ramping_video_zoom_field = true;
            self.zoom_ramp_target = factor;
            CallOutcome::Returned(())
        } else {
            CallOutcome::Raised(
                Exception::new(
                    ExceptionName::InvalidArgument,
                    "zoom factor outside the supported range".to_owned(),
                ),
            )
        }
    }

    /// The native zoom-ramp cancellation: the zoom stops where it is.
    pub fn cancel_video_zoom_ramp_throws(&mut self)
        requires
            old(self).config_locked,
        ensures
            *final(self) == (Device {
                is_ramping_video_zoom_field: false,
                zoom_ramp_target: old(self).video_zoom_factor_field,
                ..*old(self)
            }),
    {
        self.is_ramping_video_zoom_field = false;
        self.zoom_ramp_target = self.video_zoom_factor_field;
    }

    /// The native center-stage rectangle-of-interest setter: raises when the
    /// rectangle leaves the normalized space or no format of the device
    /// supports center stage; on a raise the property keeps its prior value.
    pub fn set_center_stage_rect_of_interest_throws(&mut self, value: Rect) -> (r: CallOutcome<()>)
        requires
            old(self).config_locked,
        ensures
            ({
                let ok = value.is_normalized_spec() && old(self).supports_center_stage();
                match r {
                    CallOutcome::Returned(_) => ok && *final(self) == (Device {
                        center_stage_rect_of_interest_field: value,
                        ..*old(self)
                    }),
                    CallOutcome::Raised(e) => !ok && *final(self) == *old(self) && e.name
                        == ExceptionName::InvalidArgument,
                }
            }),
    {
        if !value.is_normalized() {
            return CallOutcome::Raised(
                Exception::new(
                    ExceptionName::InvalidArgument,
                    "rect of interest outside the normalized space".to_owned(),
                ),
            );
        }
        if !self.any_format_supports_center_stage() {
            return CallOutcome::Raised(
                Exception::new(
                    ExceptionName::InvalidArgument,
                    "no format of this device supports center stage".to_owned(),
                ),
            );
        }
        self.center_stage_rect_of_interest_field = value;
        CallOutcome::Returned(())
    }

    /// The native active-color-space setter. It raises only when called
    /// without the configuration lock, which the guard rules out.
    pub fn set_active_color_space_throws(&mut self, value: ColorSpace)
        requires
            old(self).config_locked,
        ensures
            *final(self) == (Device { active_color_space_field: value, ..*old(self) }),
    {
        self.active_color_space_field = value;
    }

    /// The native focus-mode setter: raises for a mode the device does not support.
    fn set_focus_mode_throws(&mut self, mode: FocusMode) -> (r: CallOutcome<()>)
        requires
            old(self).config_locked,
        ensures
            ({
                let ok = old(self).supported_focus_modes@.contains(mode);
                match r {
                    CallOutcome::Returned(_) => ok && *final(self) == (Device {
                        focus_mode_field: mode,
                        ..*old(self)
                    }),
                    CallOutcome::Raised(e) => !ok && *final(self) == *old(self) && e.name
                        == ExceptionName::InvalidArgument,
                }
            }),
    {
        if self.is_focus_mode_supported(mode) {
            self.focus_mode_field = mode;
            CallOutcome::Returned(())
        } else {
            CallOutcome::Raised(
                Exception::new(
                    ExceptionName::InvalidArgument,
                    "focus mode not supported by this device".to_owned(),
                ),
            )
        }
    }

    /// The native focus point-of-interest setter: raises when the device has no focus point of interest or the point leaves the normalized space.
    fn set_focus_point_of_interest_throws(&mut self, value: Point) -> (r: CallOutcome<()>)
        requires
            old(self).config_locked,
        ensures
            ({
                let ok = old(self).is_focus_point_of_interest_supported_field && value.is_normalized_spec();
                match r {
                    CallOutcome::Returned(_) => ok && *final(self) == (Device {
                        focus_point_of_interest_field: value,
                        ..*old(self)
                    }),
                    CallOutcome::Raised(e) => !ok && *final(self) == *old(self) && e.name
                        == ExceptionName::InvalidArgument,
                }
            }),
    {
        if self.is_focus_point_of_interest_supported_field && value.is_normalized() {
            self.focus_point_of_interest_field = value;
            CallOutcome::Returned(())
        } else {
            CallOutcome::Raised(
                Exception::new(
                    ExceptionName::InvalidArgument,
                    "focus point of interest not settable".to_owned(),
                ),
            )
        }
    }

    /// The native autofocus range-restriction setter: raises when the device does not support restriction.
    fn set_auto_focus_range_restriction_throws(&mut self, value: AutoFocusRangeRestriction) -> (r: CallOutcome<()>)
        requires
            old(self).config_locked,
        ensures
            ({
                let ok = old(self).is_auto_focus_range_restriction_supported_field;
                match r {
                    CallOutcome::Returned(_) => ok && *final(self) == (Device {
                        auto_focus_range_restriction_field: value,
                        ..*old(self)
                    }),
                    CallOutcome::Raised(e) => !ok && *final(self) == *old(self) && e.name
                        == ExceptionName::InvalidArgument,
                }
            }),
    {
        if self.is_auto_focus_range_restriction_supported_field {
            self.auto_focus_range_restriction_field = value;
            CallOutcome::Returned(())
        } else {
            CallOutcome::Raised(
                Exception::new(
                    ExceptionName::InvalidArgument,
                    "autofocus range restriction not supported".to_owned(),
                ),
            )
        }
    }

    /// The native smooth-autofocus switch: raises when the device does not support smooth autofocus.
    fn set_smooth_auto_focus_enabled_throws(&mut self, value: bool) -> (r: CallOutcome<()>)
        requires
            old(self).config_locked,
        ensures
            ({
                let ok = old(self).is_smooth_auto_focus_supported_field;
                match r {
                    CallOutcome::Returned(_) => ok && *final(self) == (Device {
                        is_smooth_auto_focus_enabled_field: value,
                        ..*old(self)
                    }),
                    CallOutcome::Raised(e) => !ok && *final(self) == *old(self) && e.name
                        == ExceptionName::InvalidArgument,
                }
            }),
    {
        if self.is_smooth_auto_focus_supported_field {
            self.is_smooth_auto_focus_enabled_field = value;
            CallOutcome::Returned(())
        } else {
            CallOutcome::Raised(
                Exception::new(
                    ExceptionName::InvalidArgument,
                    "smooth autofocus not supported".to_owned(),
                ),
            )
        }
    }

    /// The native switch for automatic face-driven autofocus adjustment. It raises only without the lock, which the guard rules out.
    fn set_automatically_adjusts_face_driven_auto_focus_enabled_throws(&mut self, value: bool)
        requires
            old(self).config_locked,
        ensures
            *final(self) == (Device {
                automatically_adjusts_face_driven_auto_focus_enabled_field: value,
                ..*old(self)
            }),
    {
        self.automatically_adjusts_face_driven_auto_focus_enabled_field = value;
    }

    /// The native face-driven-autofocus switch. It raises only without the lock, which the guard rules out.
    fn set_face_driven_auto_focus_enabled_throws(&mut self, value: bool)
        requires
            old(self).config_locked,
        ensures
            *final(self) == (Device {
                is_face_driven_auto_focus_enabled_field: value,
                ..*old(self)
            }),
    {
        self.is_face_driven_auto_focus_enabled_field = value;
    }

    /// The native lens-position lock: raises when custom lens positions are
    /// unsupported or the position leaves the travel range; on success the
    /// focus mode locks at the given position and the completion resolves
    /// with the device clock at which the lens settled.
    fn set_focus_mode_locked_with_lens_position_throws(
        &mut self,
        value: u32,
        completion: &mut Completion<Time>,
    ) -> (r: CallOutcome<()>)
        requires
            old(self).config_locked,
            old(completion).is_pending(),
            old(completion).resolve_calls_spec() < u64::MAX,
        ensures
            ({
                let ok = old(self).is_locking_focus_with_custom_lens_position_supported_field
                    && value <= ZOOM_UNIT;
                match r {
                    CallOutcome::Returned(_) => ok && *final(self) == (Device {
                        focus_mode_field: FocusMode::Locked,
                        lens_position_field: value,
                        ..*old(self)
                    }) && final(completion).state_spec() == CompletionState::Resolved(
                        old(self).clock_field,
                    ),
                    CallOutcome::Raised(e) => !ok && *final(self) == *old(self) && e.name
                        == ExceptionName::InvalidArgument && final(completion).is_pending(),
                }
            }),
    {
        if self.is_locking_focus_with_custom_lens_position_supported_field && value <= ZOOM_UNIT {
            self.focus_mode_field = FocusMode::Locked;
            self.lens_position_field = value;
            let accepted = completion.resolve(self.clock_field);
            assert(accepted);
            CallOutcome::Returned(())
        } else {
            CallOutcome::Raised(
                Exception::new(
                    ExceptionName::InvalidArgument,
                    "custom lens position not settable".to_owned(),
                ),
            )
        }
    }

    /// The native exposure-mode setter: raises for a mode the device does not support.
    fn set_exposure_mode_throws(&mut self, value: ExposureMode) -> (r: CallOutcome<()>)
        requires
            old(self).config_locked,
        ensures
            ({
                let ok = old(self).supported_exposure_modes@.contains(value);
                match r {
                    CallOutcome::Returned(_) => ok && *final(self) == (Device {
                        exposure_mode_field: value,
                        ..*old(self)
                    }),
                    CallOutcome::Raised(e) => !ok && *final(self) == *old(self) && e.name
                        == ExceptionName::InvalidArgument,
                }
            }),
    {
        if self.is_exposure_mode_supported(value) {
            self.exposure_mode_field = value;
            CallOutcome::Returned(())
        } else {
            CallOutcome::Raised(
                Exception::new(
                    ExceptionName::InvalidArgument,
                    "exposure mode not supported by this device".to_owned(),
                ),
            )
        }
    }

    /// The native exposure point-of-interest setter: raises when the device has no exposure point of interest or the point leaves the normalized space.
    fn set_exposure_point_of_interest_throws(&mut self, value: Point) -> (r: CallOutcome<()>)
        requires
            old(self).config_locked,
        ensures
            ({
                let ok = old(self).is_exposure_point_of_interest_supported_field && value.is_normalized_spec();
                match r {
                    CallOutcome::Returned(_) => ok && *final(self) == (Device {
                        exposure_point_of_interest_field: value,
                        ..*old(self)
                    }),
                    CallOutcome::Raised(e) => !ok && *final(self) == *old(self) && e.name
                        == ExceptionName::InvalidArgument,
                }
            }),
    {
        if self.is_exposure_point_of_interest_supported_field && value.is_normalized() {
            self.exposure_point_of_interest_field = value;
            CallOutcome::Returned(())
        } else {
            CallOutcome::Raised(
                Exception::new(
                    ExceptionName::InvalidArgument,
                    "exposure point of interest not settable".to_owned(),
                ),
            )
        }
    }

    /// The native switch for automatic face-driven auto-exposure adjustment. It raises only without the lock, which the guard rules out.
    fn set_automatically_adjusts_face_driven_auto_exposure_enabled_throws(&mut self, value: bool)
        requires
            old(self).config_locked,
        ensures
            *final(self) == (Device {
                automatically_adjusts_face_driven_auto_exposure_enabled_field: value,
                ..*old(self)
            }),
    {
        self.automatically_adjusts_face_driven_auto_exposure_enabled_field = value;
    }

    /// The native face-driven-auto-exposure switch. It raises only without the lock, which the guard rules out.
    fn set_face_driven_auto_exposure_enabled_throws(&mut self, value: bool)
        requires
            old(self).config_locked,
        ensures
            *final(self) == (Device {
                is_face_driven_auto_exposure_enabled_field: value,
                ..*old(self)
            }),
    {
        self.is_face_driven_auto_exposure_enabled_field = value;
    }

    /// The native maximum-exposure-duration setter: raises for an invalid duration.
    fn set_active_max_exposure_duration_throws(&mut self, value: Time) -> (r: CallOutcome<()>)
        requires
            old(self).config_locked,
        ensures
            ({
                let ok = value.valid;
                match r {
                    CallOutcome::Returned(_) => ok && *final(self) == (Device {
                        active_max_exposure_duration_field: value,
                        ..*old(self)
                    }),
                    CallOutcome::Raised(e) => !ok && *final(self) == *old(self) && e.name
                        == ExceptionName::InvalidArgument,
                }
            }),
    {
        if value.is_valid() {
            self.active_max_exposure_duration_field = value;
            CallOutcome::Returned(())
        } else {
            CallOutcome::Raised(
                Exception::new(
                    ExceptionName::InvalidArgument,
                    "exposure duration is not a valid time".to_owned(),
                ),
            )
        }
    }
}


/// Exclusive configuration rights over one device, from a successful lock
/// to the matching unlock. While the guard lives it owns the device, so no
/// second lock and no unguarded mutation can happen; giving the device back
/// through [`ConfigurationLockGuard::unlock_for_configuration`] issues the
/// one native unlock the acquisition owes.
#[derive(Debug)]
pub struct ConfigurationLockGuard {
    device: Device,
}

impl ConfigurationLockGuard {
    /// The guarded device.
    pub closed spec fn device_spec(&self) -> Device {
        self.device
    }

    /// A guard is well-formed when the device it holds is lock-balanced and
    /// the configuration lock is held.
    pub open spec fn wf(&self) -> bool {
        self.device_spec().wf() && self.device_spec().config_locked
    }

    /// Read access to the guarded device.
    pub fn device(&self) -> (r: &Device)
        ensures
            r == self.device_spec(),
    {
        &self.device
    }

    /// Give the device back, issuing the one native unlock this acquisition
    /// owes. This is the only way to consume the guard, so the unlock runs
    /// on every path out of a guarded scope.
    pub fn unlock_for_configuration(self) -> (d: Device)
        requires
            self.wf(),
        ensures
            d == (Device {
                config_locked: false,
                unlock_count: (self.device_spec().unlock_count + 1) as u64,
                ..self.device_spec()
            }),
            d.wf(),
    {
        let mut device = self.device;
        device.unlock_for_configuration();
        device
    }

    /// Make the given format the device's active format. The format must be
    /// one the device offers; the native call raises on any other, so the
    /// contract excludes them.
    pub fn set_active_format(&mut self, value: &Format)
        requires
            old(self).wf(),
            old(self).device_spec().formats_field@.contains(*value),
        ensures
            final(self).wf(),
            final(self).device_spec() == (Device {
                active_format_field: *value,
                ..old(self).device_spec()
            }),
    {
        self.device.set_active_format(value);
    }

    /// Set the shortest allowed frame duration.
    pub fn set_active_video_min_frame_duration(&mut self, value: Time)
        requires
            old(self).wf(),
            value.valid,
        ensures
            final(self).wf(),
            final(self).device_spec() == (Device {
                active_video_min_frame_duration_field: value,
                ..old(self).device_spec()
            }),
    {
        self.device.set_active_video_min_frame_duration(value);
    }

    /// Set the longest allowed frame duration.
    pub fn set_active_video_max_frame_duration(&mut self, value: Time)
        requires
            old(self).wf(),
            value.valid,
        ensures
            final(self).wf(),
            final(self).device_spec() == (Device {
                active_video_max_frame_duration_field: value,
                ..old(self).device_spec()
            }),
    {
        self.device.set_active_video_max_frame_duration(value);
    }

    /// Begin a smooth ramp of the video zoom toward the given factor, in
    /// thousandths. The factor must lie within what the active format
    /// supports; the native call raises on any other, so the contract
    /// excludes them.
    pub fn ramp_to_video_zoom_factor(&mut self, factor: u32, rate: u32)
        requires
            old(self).wf(),
            ZOOM_UNIT <= factor
                <= old(self).device_spec().active_format_field.video_max_zoom_factor_field,
        ensures
            final(self).wf(),
            final(self).device_spec() == (Device {
                is_ramping_video_zoom_field: true,
                zoom_ramp_target: factor,
                ..old(self).device_spec()
            }),
    {
        match self.device.ramp_to_video_zoom_factor_throws(factor, rate) {
            CallOutcome::Returned(_) => (),
            CallOutcome::Raised(_) => unreached(),
        }
    }

    /// Stop a zoom ramp where it currently stands.
    pub fn cancel_video_zoom_ramp(&mut self)
        requires
            old(self).wf(),
        ensures
            final(self).wf(),
            final(self).device_spec() == (Device {
                is_ramping_video_zoom_field: false,
                zoom_ramp_target: old(self).device_spec().video_zoom_factor_field,
                ..old(self).device_spec()
            }),
    {
        self.device.cancel_video_zoom_ramp_throws();
    }

    /// Set the rectangle of interest for center-stage framing. The raised
    /// exception for a rectangle outside the normalized space, or for a
    /// device without center-stage support, comes back as a structured
    /// error, and the property keeps its prior value.
    pub fn set_center_stage_rect_of_interest(&mut self, value: Rect) -> (r: Result<(), Exception>)
        requires
            old(self).wf(),
        ensures
            final(self).wf(),
            ({
                let d = old(self).device_spec();
                let ok = value.is_normalized_spec() && d.supports_center_stage();
                match r {
                    Ok(_) => ok && final(self).device_spec() == (Device {
                        center_stage_rect_of_interest_field: value,
                        ..d
                    }),
                    Err(e) => !ok && final(self).device_spec() == d && e.name
                        == ExceptionName::InvalidArgument,
                }
            }),
    {
        capture(self.device.set_center_stage_rect_of_interest_throws(value))
    }

    /// Set the device's active color space. Under the guard the native call
    /// cannot raise.
    pub fn set_active_color_space(&mut self, value: ColorSpace)
        requires
            old(self).wf(),
        ensures
            final(self).wf(),
            final(self).device_spec() == (Device {
                active_color_space_field: value,
                ..old(self).device_spec()
            }),
    {
        self.device.set_active_color_space_throws(value);
    }

    /// Set the focus mode, raising for a mode the device does not support.
    pub fn set_focus_mode_throws(&mut self, mode: FocusMode) -> (r: CallOutcome<()>)
        requires
            old(self).wf(),
        ensures
            final(self).wf(),
            ({
                let d = old(self).device_spec();
                let ok = d.supported_focus_modes@.contains(mode);
                match r {
                    CallOutcome::Returned(_) => ok && final(self).device_spec() == (Device {
                        focus_mode_field: mode,
                        ..d
                    }),
                    CallOutcome::Raised(e) => !ok && final(self).device_spec() == d && e.name
                        == ExceptionName::InvalidArgument,
                }
            }),
    {
        self.device.set_focus_mode_throws(mode)
    }

    /// Set the focus mode; an unsupported mode comes back as a structured error.
    pub fn set_focus_mode(&mut self, mode: FocusMode) -> (r: Result<(), Exception>)
        requires
            old(self).wf(),
        ensures
            final(self).wf(),
            ({
                let d = old(self).device_spec();
                let ok = d.supported_focus_modes@.contains(mode);
                match r {
                    Ok(_) => ok && final(self).device_spec() == (Device {
                        focus_mode_field: mode,
                        ..d
                    }),
                    Err(e) => !ok && final(self).device_spec() == d && e.name
                        == ExceptionName::InvalidArgument,
                }
            }),
    {
        capture(self.set_focus_mode_throws(mode))
    }

    /// Set the focus point of interest, raising when unsupported or outside the normalized space. Setting the point alone starts no focus scan; follow it with a focus-mode call.
    pub fn set_focus_point_of_interest_throws(&mut self, value: Point) -> (r: CallOutcome<()>)
        requires
            old(self).wf(),
        ensures
            final(self).wf(),
            ({
                let d = old(self).device_spec();
                let ok = d.is_focus_point_of_interest_supported_field && value.is_normalized_spec();
                match r {
                    CallOutcome::Returned(_) => ok && final(self).device_spec() == (Device {
                        focus_point_of_interest_field: value,
                        ..d
                    }),
                    CallOutcome::Raised(e) => !ok && final(self).device_spec() == d && e.name
                        == ExceptionName::InvalidArgument,
                }
            }),
    {
        self.device.set_focus_point_of_interest_throws(value)
    }

    /// Set the focus point of interest; an unsupported or out-of-range point comes back as a structured error.
    pub fn set_focus_point_of_interest(&mut self, value: Point) -> (r: Result<(), Exception>)
        requires
            old(self).wf(),
        ensures
            final(self).wf(),
            ({
                let d = old(self).device_spec();
                let ok = d.is_focus_point_of_interest_supported_field && value.is_normalized_spec();
                match r {
                    Ok(_) => ok && final(self).device_spec() == (Device {
                        focus_point_of_interest_field: value,
                        ..d
                    }),
                    Err(e) => !ok && final(self).device_spec() == d && e.name
                        == ExceptionName::InvalidArgument,
                }
            }),
    {
        capture(self.set_focus_point_of_interest_throws(value))
    }

    /// Restrict the autofocus range, raising when the device does not support restriction.
    pub fn set_auto_focus_range_restriction_throws(&mut self, value: AutoFocusRangeRestriction) -> (r: CallOutcome<()>)
        requires
            old(self).wf(),
        ensures
            final(self).wf(),
            ({
                let d = old(self).device_spec();
                let ok = d.is_auto_focus_range_restriction_supported_field;
                match r {
                    CallOutcome::Returned(_) => ok && final(self).device_spec() == (Device {
                        auto_focus_range_restriction_field: value,
                        ..d
                    }),
                    CallOutcome::Raised(e) => !ok && final(self).device_spec() == d && e.name
                        == ExceptionName::InvalidArgument,
                }
            }),
    {
        self.device.set_auto_focus_range_restriction_throws(value)
    }

    /// Restrict the autofocus range; lack of support comes back as a structured error.
    pub fn set_auto_focus_range_restriction(&mut self, value: AutoFocusRangeRestriction) -> (r: Result<(), Exception>)
        requires
            old(self).wf(),
        ensures
            final(self).wf(),
            ({
                let d = old(self).device_spec();
                let ok = d.is_auto_focus_range_restriction_supported_field;
                match r {
                    Ok(_) => ok && final(self).device_spec() == (Device {
                        auto_focus_range_restriction_field: value,
                        ..d
                    }),
                    Err(e) => !ok && final(self).device_spec() == d && e.name
                        == ExceptionName::InvalidArgument,
                }
            }),
    {
        capture(self.set_auto_focus_range_restriction_throws(value))
    }

    /// Switch smooth autofocus, raising when the device does not support it.
    pub fn set_smooth_auto_focus_enabled_throws(&mut self, value: bool) -> (r: CallOutcome<()>)
        requires
            old(self).wf(),
        ensures
            final(self).wf(),
            ({
                let d = old(self).device_spec();
                let ok = d.is_smooth_auto_focus_supported_field;
                match r {
                    CallOutcome::Returned(_) => ok && final(self).device_spec() == (Device {
                        is_smooth_auto_focus_enabled_field: value,
                        ..d
                    }),
                    CallOutcome::Raised(e) => !ok && final(self).device_spec() == d && e.name
                        == ExceptionName::InvalidArgument,
                }
            }),
    {
        self.device.set_smooth_auto_focus_enabled_throws(value)
    }

    /// Switch smooth autofocus; lack of support comes back as a structured error.
    pub fn set_smooth_auto_focus_enabled(&mut self, value: bool) -> (r: Result<(), Exception>)
        requires
            old(self).wf(),
        ensures
            final(self).wf(),
            ({
                let d = old(self).device_spec();
                let ok = d.is_smooth_auto_focus_supported_field;
                match r {
                    Ok(_) => ok && final(self).device_spec() == (Device {
                        is_smooth_auto_focus_enabled_field: value,
                        ..d
                    }),
                    Err(e) => !ok && final(self).device_spec() == d && e.name
                        == ExceptionName::InvalidArgument,
                }
            }),
    {
        capture(self.set_smooth_auto_focus_enabled_throws(value))
    }

    /// Switch automatic adjustment of face-driven autofocus.
    pub fn set_automatically_adjusts_face_driven_auto_focus_enabled_throws(&mut self, value: bool)
        requires
            old(self).wf(),
        ensures
            final(self).wf(),
            final(self).device_spec() == (Device {
                automatically_adjusts_face_driven_auto_focus_enabled_field: value,
                ..old(self).device_spec()
            }),
    {
        self.device.set_automatically_adjusts_face_driven_auto_focus_enabled_throws(value)
    }

    /// The structured variant of [`ConfigurationLockGuard::set_automatically_adjusts_face_driven_auto_focus_enabled_throws`];
    /// with the guard held the call cannot raise, so it always succeeds.
    pub fn set_automatically_adjusts_face_driven_auto_focus_enabled(&mut self, value: bool) -> (r: Result<(), Exception>)
        requires
            old(self).wf(),
        ensures
            final(self).wf(),
            r is Ok,
            final(self).device_spec() == (Device {
                automatically_adjusts_face_driven_auto_focus_enabled_field: value,
                ..old(self).device_spec()
            }),
    {
        self.device.set_automatically_adjusts_face_driven_auto_focus_enabled_throws(value);
        Ok(())
    }

    /// Switch face-driven autofocus.
    pub fn set_face_driven_auto_focus_enabled_throws(&mut self, value: bool)
        requires
            old(self).wf(),
        ensures
            final(self).wf(),
            final(self).device_spec() == (Device {
                is_face_driven_auto_focus_enabled_field: value,
                ..old(self).device_spec()
            }),
    {
        self.device.set_face_driven_auto_focus_enabled_throws(value)
    }

    /// The structured variant of [`ConfigurationLockGuard::set_face_driven_auto_focus_enabled_throws`];
    /// with the guard held the call cannot raise, so it always succeeds.
    pub fn set_face_driven_auto_focus_enabled(&mut self, value: bool) -> (r: Result<(), Exception>)
        requires
            old(self).wf(),
        ensures
            final(self).wf(),
            r is Ok,
            final(self).device_spec() == (Device {
                is_face_driven_auto_focus_enabled_field: value,
                ..old(self).device_spec()
            }),
    {
        self.device.set_face_driven_auto_focus_enabled_throws(value);
        Ok(())
    }

    /// Set the exposure mode, raising for a mode the device does not support.
    pub fn set_exposure_mode_throws(&mut self, value: ExposureMode) -> (r: CallOutcome<()>)
        requires
            old(self).wf(),
        ensures
            final(self).wf(),
            ({
                let d = old(self).device_spec();
                let ok = d.supported_exposure_modes@.contains(value);
                match r {
                    CallOutcome::Returned(_) => ok && final(self).device_spec() == (Device {
                        exposure_mode_field: value,
                        ..d
                    }),
                    CallOutcome::Raised(e) => !ok && final(self).device_spec() == d && e.name
                        == ExceptionName::InvalidArgument,
                }
            }),
    {
        self.device.set_exposure_mode_throws(value)
    }

    /// Set the exposure mode; an unsupported mode comes back as a structured error.
    pub fn set_exposure_mode(&mut self, value: ExposureMode) -> (r: Result<(), Exception>)
        requires
            old(self).wf(),
        ensures
            final(self).wf(),
            ({
                let d = old(self).device_spec();
                let ok = d.supported_exposure_modes@.contains(value);
                match r {
                    Ok(_) => ok && final(self).device_spec() == (Device {
                        exposure_mode_field: value,
                        ..d
                    }),
                    Err(e) => !ok && final(self).device_spec() == d && e.name
                        == ExceptionName::InvalidArgument,
                }
            }),
    {
        capture(self.set_exposure_mode_throws(value))
    }

    /// Set the exposure point of interest, raising when unsupported or outside the normalized space.
    pub fn set_exposure_point_of_interest_throws(&mut self, value: Point) -> (r: CallOutcome<()>)
        requires
            old(self).wf(),
        ensures
            final(self).wf(),
            ({
                let d = old(self).device_spec();
                let ok = d.is_exposure_point_of_interest_supported_field && value.is_normalized_spec();
                match r {
                    CallOutcome::Returned(_) => ok && final(self).device_spec() == (Device {
                        exposure_point_of_interest_field: value,
                        ..d
                    }),
                    CallOutcome::Raised(e) => !ok && final(self).device_spec() == d && e.name
                        == ExceptionName::InvalidArgument,
                }
            }),
    {
        self.device.set_exposure_point_of_interest_throws(value)
    }

    /// Set the exposure point of interest; an unsupported or out-of-range point comes back as a structured error.
    pub fn set_exposure_point_of_interest(&mut self, value: Point) -> (r: Result<(), Exception>)
        requires
            old(self).wf(),
        ensures
            final(self).wf(),
            ({
                let d = old(self).device_spec();
                let ok = d.is_exposure_point_of_interest_supported_field && value.is_normalized_spec();
                match r {
                    Ok(_) => ok && final(self).device_spec() == (Device {
                        exposure_point_of_interest_field: value,
                        ..d
                    }),
                    Err(e) => !ok && final(self).device_spec() == d && e.name
                        == ExceptionName::InvalidArgument,
                }
            }),
    {
        capture(self.set_exposure_point_of_interest_throws(value))
    }

    /// Switch automatic adjustment of face-driven auto-exposure.
    pub fn set_automatically_adjusts_face_driven_auto_exposure_enabled_throws(&mut self, value: bool)
        requires
            old(self).wf(),
        ensures
            final(self).wf(),
            final(self).device_spec() == (Device {
                automatically_adjusts_face_driven_auto_exposure_enabled_field: value,
                ..old(self).device_spec()
            }),
    {
        self.device.set_automatically_adjusts_face_driven_auto_exposure_enabled_throws(value)
    }

    /// The structured variant of [`ConfigurationLockGuard::set_automatically_adjusts_face_driven_auto_exposure_enabled_throws`];
    /// with the guard held the call cannot raise, so it always succeeds.
    pub fn set_automatically_adjusts_face_driven_auto_exposure_enabled(&mut self, value: bool) -> (r: Result<(), Exception>)
        requires
            old(self).wf(),
        ensures
            final(self).wf(),
            r is Ok,
            final(self).device_spec() == (Device {
                automatically_adjusts_face_driven_auto_exposure_enabled_field: value,
                ..old(self).device_spec()
            }),
    {
        self.device.set_automatically_adjusts_face_driven_auto_exposure_enabled_throws(value);
        Ok(())
    }

    /// Switch face-driven auto-exposure.
    pub fn set_face_driven_auto_exposure_enabled_throws(&mut self, value: bool)
        requires
            old(self).wf(),
        ensures
            final(self).wf(),
            final(self).device_spec() == (Device {
                is_face_driven_auto_exposure_enabled_field: value,
                ..old(self).device_spec()
            }),
    {
        self.device.set_face_driven_auto_exposure_enabled_throws(value)
    }

    /// The structured variant of [`ConfigurationLockGuard::set_face_driven_auto_exposure_enabled_throws`];
    /// with the guard held the call cannot raise, so it always succeeds.
    pub fn set_face_driven_auto_exposure_enabled(&mut self, value: bool) -> (r: Result<(), Exception>)
        requires
            old(self).wf(),
        ensures
            final(self).wf(),
            r is Ok,
            final(self).device_spec() == (Device {
                is_face_driven_auto_exposure_enabled_field: value,
                ..old(self).device_spec()
            }),
    {
        self.device.set_face_driven_auto_exposure_enabled_throws(value);
        Ok(())
    }

    /// Set the longest exposure the device may choose, raising for an invalid duration.
    pub fn set_active_max_exposure_duration_throws(&mut self, value: Time) -> (r: CallOutcome<()>)
        requires
            old(self).wf(),
        ensures
            final(self).wf(),
            ({
                let d = old(self).device_spec();
                let ok = value.valid;
                match r {
                    CallOutcome::Returned(_) => ok && final(self).device_spec() == (Device {
                        active_max_exposure_duration_field: value,
                        ..d
                    }),
                    CallOutcome::Raised(e) => !ok && final(self).device_spec() == d && e.name
                        == ExceptionName::InvalidArgument,
                }
            }),
    {
        self.device.set_active_max_exposure_duration_throws(value)
    }

    /// Set the longest exposure the device may choose; an invalid duration comes back as a structured error.
    pub fn set_active_max_exposure_duration(&mut self, value: Time) -> (r: Result<(), Exception>)
        requires
            old(self).wf(),
        ensures
            final(self).wf(),
            ({
                let d = old(self).device_spec();
                let ok = value.valid;
                match r {
                    Ok(_) => ok && final(self).device_spec() == (Device {
                        active_max_exposure_duration_field: value,
                        ..d
                    }),
                    Err(e) => !ok && final(self).device_spec() == d && e.name
                        == ExceptionName::InvalidArgument,
                }
            }),
    {
        capture(self.set_active_max_exposure_duration_throws(value))
    }

    /// Lock the focus mode at a custom lens position (in thousandths),
    /// raising when the device does not support custom positions or the
    /// position leaves the travel range. No completion is observed.
    pub fn set_focus_mode_locked_with_lens_position_no_completion_handler_throws(
        &mut self,
        value: u32,
    ) -> (r: CallOutcome<()>)
        requires
            old(self).wf(),
        ensures
            final(self).wf(),
            ({
                let d = old(self).device_spec();
                let ok = d.is_locking_focus_with_custom_lens_position_supported_field && value
                    <= ZOOM_UNIT;
                match r {
                    CallOutcome::Returned(_) => ok && final(self).device_spec() == (Device {
                        focus_mode_field: FocusMode::Locked,
                        lens_position_field: value,
                        ..d
                    }),
                    CallOutcome::Raised(e) => !ok && final(self).device_spec() == d && e.name
                        == ExceptionName::InvalidArgument,
                }
            }),
    {
        let mut completion: Completion<Time> = Completion::new();
        let r = self.device.set_focus_mode_locked_with_lens_position_throws(
            value,
            &mut completion,
        );
        r
    }

    /// The structured variant of
    /// [`ConfigurationLockGuard::set_focus_mode_locked_with_lens_position_no_completion_handler_throws`].
    pub fn set_focus_mode_locked_with_lens_position_no_completion_handler(
        &mut self,
        value: u32,
    ) -> (r: Result<(), Exception>)
        requires
            old(self).wf(),
        ensures
            final(self).wf(),
            ({
                let d = old(self).device_spec();
                let ok = d.is_locking_focus_with_custom_lens_position_supported_field && value
                    <= ZOOM_UNIT;
                match r {
                    Ok(_) => ok && final(self).device_spec() == (Device {
                        focus_mode_field: FocusMode::Locked,
                        lens_position_field: value,
                        ..d
                    }),
                    Err(e) => !ok && final(self).device_spec() == d && e.name
                        == ExceptionName::InvalidArgument,
                }
            }),
    {
        capture(self.set_focus_mode_locked_with_lens_position_no_completion_handler_throws(value))
    }

    /// Lock the focus mode at a custom lens position and hand the given
    /// completion to the native call: on success the lens settles and the
    /// completion resolves exactly once with the device clock; on a raise
    /// the completion stays pending.
    pub fn set_focus_mode_locked_with_lens_position_with_completion_handler_throws(
        &mut self,
        value: u32,
        completion: &mut Completion<Time>,
    ) -> (r: CallOutcome<()>)
        requires
            old(self).wf(),
            old(completion).is_pending(),
            old(completion).resolve_calls_spec() < u64::MAX,
        ensures
            final(self).wf(),
            ({
                let d = old(self).device_spec();
                let ok = d.is_locking_focus_with_custom_lens_position_supported_field && value
                    <= ZOOM_UNIT;
                match r {
                    CallOutcome::Returned(_) => ok && final(self).device_spec() == (Device {
                        focus_mode_field: FocusMode::Locked,
                        lens_position_field: value,
                        ..d
                    }) && final(completion).state_spec() == CompletionState::Resolved(
                        d.clock_field,
                    ),
                    CallOutcome::Raised(e) => !ok && final(self).device_spec() == d && e.name
                        == ExceptionName::InvalidArgument && final(completion).is_pending(),
                }
            }),
    {
        self.device.set_focus_mode_locked_with_lens_position_throws(value, completion)
    }

    /// The structured variant of
    /// [`ConfigurationLockGuard::set_focus_mode_locked_with_lens_position_with_completion_handler_throws`].
    pub fn set_focus_mode_locked_with_lens_position_with_completion_handler(
        &mut self,
        value: u32,
        completion: &mut Completion<Time>,
    ) -> (r: Result<(), Exception>)
        requires
            old(self).wf(),
            old(completion).is_pending(),
            old(completion).resolve_calls_spec() < u64::MAX,
        ensures
            final(self).wf(),
            ({
                let d = old(self).device_spec();
                let ok = d.is_locking_focus_with_custom_lens_position_supported_field && value
                    <= ZOOM_UNIT;
                match r {
                    Ok(_) => ok && final(self).device_spec() == (Device {
                        focus_mode_field: FocusMode::Locked,
                        lens_position_field: value,
                        ..d
                    }) && final(completion).state_spec() == CompletionState::Resolved(
                        d.clock_field,
                    ),
                    Err(e) => !ok && final(self).device_spec() == d && e.name
                        == ExceptionName::InvalidArgument && final(completion).is_pending(),
                }
            }),
    {
        capture(
            self.set_focus_mode_locked_with_lens_position_with_completion_handler_throws(
                value,
                completion,
            ),
        )
    }

    /// Lock the focus mode at a custom lens position and wait for the lens
    /// to settle: on success the call yields the device clock at which it
    /// did. This is the awaited form of the completion-handler variant.
    pub fn set_focus_mode_locked_with_lens_position(&mut self, value: u32) -> (r: Result<
        Time,
        Exception,
    >)
        requires
            old(self).wf(),
        ensures
            final(self).wf(),
            ({
                let d = old(self).device_spec();
                let ok = d.is_locking_focus_with_custom_lens_position_supported_field && value
                    <= ZOOM_UNIT;
                match r {
                    Ok(t) => ok && final(self).device_spec() == (Device {
                        focus_mode_field: FocusMode::Locked,
                        lens_position_field: value,
                        ..d
                    }) && t == d.clock_field,
                    Err(e) => !ok && final(self).device_spec() == d && e.name
                        == ExceptionName::InvalidArgument,
                }
            }),
    {
        let mut completion: Completion<Time> = Completion::new();
        let r = self.device.set_focus_mode_locked_with_lens_position_throws(
            value,
            &mut completion,
        );
        match r {
            CallOutcome::Returned(_) => Ok(completion.take()),
            CallOutcome::Raised(e) => Err(e),
        }
    }
}


/// A video format of the mock system registry.
fn camera_format(width: u32, height: u32, center_stage: bool) -> (f: Format)
    ensures
        f.media_type_field == MediaType::Video,
        f.format_desc_field.width == width,
        f.format_desc_field.height == height,
        f.is_center_stage_supported_field == center_stage,
        f.video_max_zoom_factor_field == 4 * ZOOM_UNIT,
{
    Format {
        media_type_field: MediaType::Video,
        format_desc_field: FormatDesc { media_subtype: 0x34323076, width, height },
        frame_rate_range_field: FrameRateRange {
            min_frame_duration_field: Time { value: 1, scale: 60, valid: true },
            max_frame_duration_field: Time { value: 1, scale: 24, valid: true },
        },
        is_video_binned_field: false,
        stabilization_support: StabilizationSupport {
            off: true,
            standard: true,
            cinematic: false,
            cinematic_extended: false,
            preview_optimized: false,
            auto: true,
        },
        video_max_zoom_factor_field: 4 * ZOOM_UNIT,
        video_zoom_factor_upscale_threshold_field: 2 * ZOOM_UNIT,
        min_exposure_duration_field: Time { value: 1, scale: 8000, valid: true },
        max_exposure_duration_field: Time { value: 1, scale: 3, valid: true },
        auto_focus_system_field: AutoFocusSystem::PhaseDetection,
        is_multi_cam_supported_field: true,
        is_center_stage_supported_field: center_stage,
        video_min_zoom_factor_for_center_stage_field: ZOOM_UNIT,
        video_frame_rate_range_for_center_stage_field: if center_stage {
            Some(
                FrameRateRange {
                    min_frame_duration_field: Time { value: 1, scale: 30, valid: true },
                    max_frame_duration_field: Time { value: 1, scale: 24, valid: true },
                },
            )
        } else {
            None
        },
        is_portrait_effect_supported_field: center_stage,
    }
}

/// An audio or muxed format of the mock system registry.
fn stream_format(media_type: MediaType) -> (f: Format)
    ensures
        f.media_type_field == media_type,
{
    Format {
        media_type_field: media_type,
        format_desc_field: FormatDesc { media_subtype: 0x6C70636D, width: 0, height: 0 },
        frame_rate_range_field: FrameRateRange {
            min_frame_duration_field: Time { value: 1, scale: 30, valid: true },
            max_frame_duration_field: Time { value: 1, scale: 30, valid: true },
        },
        is_video_binned_field: false,
        stabilization_support: StabilizationSupport {
            off: true,
            standard: false,
            cinematic: false,
            cinematic_extended: false,
            preview_optimized: false,
            auto: false,
        },
        video_max_zoom_factor_field: ZOOM_UNIT,
        video_zoom_factor_upscale_threshold_field: ZOOM_UNIT,
        min_exposure_duration_field: Time { value: 0, scale: 1, valid: true },
        max_exposure_duration_field: Time { value: 0, scale: 1, valid: true },
        auto_focus_system_field: AutoFocusSystem::Unavailable,
        is_multi_cam_supported_field: false,
        is_center_stage_supported_field: false,
        video_min_zoom_factor_for_center_stage_field: ZOOM_UNIT,
        video_frame_rate_range_for_center_stage_field: None,
        is_portrait_effect_supported_field: false,
    }
}

/// One device of the mock system registry, connected, unlocked, and with
/// the common capability defaults.
#[allow(unused)]
fn mock_device(
    unique_id: &str,
    model_id: &str,
    localized_name: &str,
    device_type: Type,
    position: Position,
    media_types: Vec<MediaType>,
    formats: Vec<Format>,
    active_format: Format,
    supported_presets: Vec<SessionPreset>,
    has_torch: bool,
    is_continuity_camera: bool,
) -> (d: Device)
    ensures
        d.wf(),
        d.is_connected_field,
        !d.config_locked,
        d.lock_count == 0,
        d.unlock_count == 0,
        d.unique_id_field@ == unique_id@,
        d.device_type_field == device_type,
        d.position_field == position,
        d.media_types == media_types,
        d.formats_field == formats,
        d.active_format_field == active_format,
        d.supported_presets == supported_presets,
        d.has_torch_field == has_torch,
        d.is_continuity_camera_field == is_continuity_camera,
{
    let mut supported_focus_modes: Vec<FocusMode> = Vec::new();
    supported_focus_modes.push(FocusMode::Locked);
    supported_focus_modes.push(FocusMode::AutoFocus);
    supported_focus_modes.push(FocusMode::ContinuousAutoFocus);
    let mut supported_exposure_modes: Vec<ExposureMode> = Vec::new();
    supported_exposure_modes.push(ExposureMode::Locked);
    supported_exposure_modes.push(ExposureMode::AutoExpose);
    supported_exposure_modes.push(ExposureMode::ContinuousAutoExposure);
    let mut available_reactions: Vec<ReactionType> = Vec::new();
    available_reactions.push(ReactionType::ThumbsUp);
    available_reactions.push(ReactionType::Hearts);
    Device {
        unique_id_field: unique_id.to_owned(),
        model_id_field: model_id.to_owned(),
        localized_name_field: localized_name.to_owned(),
        manufacturer_field: "Apple Inc.".to_owned(),
        device_type_field: device_type,
        position_field: position,
        media_types,
        formats_field: formats,
        active_format_field: active_format,
        supported_presets,
        is_connected_field: true,
        active_video_min_frame_duration_field: Time { value: 1, scale: 60, valid: true },
        active_video_max_frame_duration_field: Time { value: 1, scale: 24, valid: true },
        has_torch_field: has_torch,
        is_ramping_video_zoom_field: false,
        video_zoom_factor_field: ZOOM_UNIT,
        zoom_ramp_target: ZOOM_UNIT,
        can_perform_reaction_effects_field: true,
        available_reaction_types_field: available_reactions,
        reaction_effects_in_progress_field: Vec::new(),
        is_continuity_camera_field: is_continuity_camera,
        is_center_stage_active_field: false,
        center_stage_rect_of_interest_field: Rect { x: 0, y: 0, width: UNIT, height: UNIT },
        active_color_space_field: ColorSpace::Srgb,
        supported_focus_modes,
        focus_mode_field: FocusMode::ContinuousAutoFocus,
        is_focus_point_of_interest_supported_field: true,
        focus_point_of_interest_field: Point { x: UNIT / 2, y: UNIT / 2 },
        is_adjusting_focus_field: false,
        is_auto_focus_range_restriction_supported_field: true,
        auto_focus_range_restriction_field: AutoFocusRangeRestriction::Unrestricted,
        is_smooth_auto_focus_supported_field: true,
        is_smooth_auto_focus_enabled_field: false,
        automatically_adjusts_face_driven_auto_focus_enabled_field: true,
        is_face_driven_auto_focus_enabled_field: false,
        is_locking_focus_with_custom_lens_position_supported_field: true,
        lens_position_field: ZOOM_UNIT / 2,
        minimum_focus_distance_field: 100,
        supported_exposure_modes,
        exposure_mode_field: ExposureMode::ContinuousAutoExposure,
        is_exposure_point_of_interest_supported_field: true,
        exposure_point_of_interest_field: Point { x: UNIT / 2, y: UNIT / 2 },
        automatically_adjusts_face_driven_auto_exposure_enabled_field: true,
        is_face_driven_auto_exposure_enabled_field: false,
        active_max_exposure_duration_field: Time { value: 1, scale: 3, valid: true },
        clock_field: Time { value: 0, scale: 1, valid: true },
        config_locked: false,
        lock_count: 0,
        unlock_count: 0,
    }
}

/// What one device of the mock registry looks like, beyond its identity:
/// well-formed, connected, unlocked, and with no lock call answered yet.
pub open spec fn registry_device(d: Device) -> bool {
    &&& d.wf()
    &&& d.is_connected_field
    &&& !d.config_locked
    &&& d.lock_count == 0
    &&& d.unlock_count == 0
}

/// What the i-th device of the mock registry looks like: the front
/// wide-angle camera, then the rear external deck, the microphone, the desk
/// external deck, and the position-free external deck. A lookup that hands
/// a device out also says which entry it is, so a caller knows the device's
/// fields, not only that it met the criteria.
pub open spec fn registry_entry(d: Device, i: int) -> bool {
    &&& registry_device(d)
    &&& if i == 0 {
        &&& d.device_type_field == Type::BuiltInWideAngleCamera
        &&& d.position_field == Position::Front
        &&& d.unique_id_field@ == "wide-front-0"@
        &&& !d.has_torch_field
        &&& d.media_types@ =~= seq![MediaType::Video]
        &&& d.supported_presets@ =~= seq![
            SessionPreset::Photo,
            SessionPreset::High,
            SessionPreset::Hd1280x720,
        ]
        &&& d.formats_field@.len() == 2
    } else if i == 1 {
        &&& d.device_type_field == Type::External
        &&& d.position_field == Position::Back
        &&& d.unique_id_field@ == "ext-back-0"@
        &&& !d.has_torch_field
        &&& d.media_types@ =~= seq![MediaType::Muxed, MediaType::Video, MediaType::Audio]
    } else if i == 2 {
        &&& d.device_type_field == Type::BuiltInMicrophone
        &&& d.position_field == Position::Unspecified
        &&& d.unique_id_field@ == "mic-0"@
        &&& !d.has_torch_field
        &&& d.media_types@ =~= seq![MediaType::Audio]
    } else if i == 3 {
        &&& d.device_type_field == Type::External
        &&& d.position_field == Position::Front
        &&& d.unique_id_field@ == "ext-front-0"@
        &&& !d.has_torch_field
        &&& d.media_types@ =~= seq![MediaType::Muxed, MediaType::Video, MediaType::Audio]
    } else if i == 4 {
        &&& d.device_type_field == Type::External
        &&& d.position_field == Position::Unspecified
        &&& d.unique_id_field@ == "ext-any-0"@
        &&& !d.has_torch_field
        &&& d.media_types@ =~= seq![MediaType::Muxed, MediaType::Video, MediaType::Audio]
    } else {
        false
    }
}

/// The mock system registry, pinned device by device.
pub open spec fn is_system_registry(devs: Seq<Device>) -> bool {
    &&& devs.len() == 5
    &&& forall|i: int| 0 <= i < devs.len() ==> registry_entry(#[trigger] devs[i], i)
}

/// Whether the requested media type is among the given ones (no request
/// matches any device).
pub open spec fn media_among(media_type: Option<MediaType>, offered: Seq<MediaType>) -> bool {
    match media_type {
        Some(mt) => offered.contains(mt),
        None => true,
    }
}

/// Whether the mock system registry holds a device meeting the criteria.
/// External devices sit at every position the registry distinguishes, so
/// for them any requested position finds one.
pub open spec fn system_has_device(
    device_type: Type,
    media_type: Option<MediaType>,
    position: Position,
) -> bool {
    ||| (device_type == Type::BuiltInWideAngleCamera && media_among(media_type, seq![MediaType::Video])
        && (position == Position::Unspecified || position == Position::Front))
    ||| (device_type == Type::BuiltInMicrophone && media_among(media_type, seq![MediaType::Audio])
        && position == Position::Unspecified)
    ||| (device_type == Type::External && media_among(
        media_type,
        seq![MediaType::Muxed, MediaType::Video, MediaType::Audio],
    ))
}

/// The unique identifiers the mock system registry carries.
pub open spec fn system_device_ids() -> Seq<Seq<char>> {
    seq!["wide-front-0"@, "ext-back-0"@, "mic-0"@, "ext-front-0"@, "ext-any-0"@]
}

/// The devices the mock system reports, in the unsorted order the native
/// registry happens to hold them.
pub fn system_devices() -> (r: Vec<Device>)
    ensures
        is_system_registry(r@),
        r@.len() > 0,
        forall|i: int| 0 <= i < r@.len() ==> (#[trigger] r@[i]).wf(),
        forall|i: int| 0 <= i < r@.len() ==> (#[trigger] r@[i]).is_connected_field,
        forall|i: int| 0 <= i < r@.len() ==> !(#[trigger] r@[i]).config_locked,
{
    let mut video_media: Vec<MediaType> = Vec::new();
    video_media.push(MediaType::Video);
    let mut audio_media: Vec<MediaType> = Vec::new();
    audio_media.push(MediaType::Audio);

    let hd = camera_format(1920, 1080, true);
    let uhd = camera_format(3840, 2160, false);
    let mut camera_formats: Vec<Format> = Vec::new();
    camera_formats.push(hd);
    camera_formats.push(uhd);
    let mut camera_presets: Vec<SessionPreset> = Vec::new();
    camera_presets.push(SessionPreset::Photo);
    camera_presets.push(SessionPreset::High);
    camera_presets.push(SessionPreset::Hd1280x720);
    let camera = mock_device(
        "wide-front-0",
        "WideCam3",
        "Front Camera",
        Type::BuiltInWideAngleCamera,
        Position::Front,
        video_media,
        camera_formats,
        hd,
        camera_presets,
        false,
        false,
    );

    let mic_format = stream_format(MediaType::Audio);
    let mut mic_formats: Vec<Format> = Vec::new();
    mic_formats.push(mic_format);
    let mut mic_presets: Vec<SessionPreset> = Vec::new();
    mic_presets.push(SessionPreset::High);
    let microphone = mock_device(
        "mic-0",
        "StudioMic",
        "Built-in Microphone",
        Type::BuiltInMicrophone,
        Position::Unspecified,
        audio_media,
        mic_formats,
        mic_format,
        mic_presets,
        false,
        false,
    );

    let external_back = external_device("ext-back-0", "Capture Deck Rear", Position::Back);
    let external_unspecified = external_device("ext-any-0", "Capture Deck", Position::Unspecified);
    let external_front = external_device("ext-front-0", "Capture Deck Desk", Position::Front);

    let mut r: Vec<Device> = Vec::new();
    r.push(camera);
    r.push(external_back);
    r.push(microphone);
    r.push(external_front);
    r.push(external_unspecified);
    proof {
        assert(r@[0].media_types@ =~= seq![MediaType::Video]);
        assert(r@[0].supported_presets@ =~= seq![
            SessionPreset::Photo,
            SessionPreset::High,
            SessionPreset::Hd1280x720,
        ]);
        assert(r@[2].media_types@ =~= seq![MediaType::Audio]);
        assert(registry_entry(r@[0], 0));
        assert(registry_entry(r@[1], 1));
        assert(registry_entry(r@[2], 2));
        assert(registry_entry(r@[3], 3));
        assert(registry_entry(r@[4], 4));
    }
    r
}

/// One external muxed device of the mock registry.
fn external_device(unique_id: &str, localized_name: &str, position: Position) -> (d: Device)
    ensures
        registry_device(d),
        d.device_type_field == Type::External,
        d.position_field == position,
        d.unique_id_field@ == unique_id@,
        !d.has_torch_field,
        d.media_types@ =~= seq![MediaType::Muxed, MediaType::Video, MediaType::Audio],
{
    let mut muxed_media: Vec<MediaType> = Vec::new();
    muxed_media.push(MediaType::Muxed);
    muxed_media.push(MediaType::Video);
    muxed_media.push(MediaType::Audio);
    proof {
        assert(muxed_media@ =~= seq![MediaType::Muxed, MediaType::Video, MediaType::Audio]);
    }
    let fmt = stream_format(MediaType::Muxed);
    let mut formats: Vec<Format> = Vec::new();
    formats.push(fmt);
    let mut presets: Vec<SessionPreset> = Vec::new();
    presets.push(SessionPreset::High);
    mock_device(
        unique_id,
        "UVC-Box",
        localized_name,
        Type::External,
        position,
        muxed_media,
        formats,
        fmt,
        presets,
        false,
        false,
    )
}



} // verus!
