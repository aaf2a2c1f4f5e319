use cidre::av::capture_device::{Device, Position, Type};
use cidre::av::capture_input::{DeviceInput, MultichannelAudioMode};
use cidre::av::media_format::{FileType, MediaType, VideoCodec};
use cidre::sc::recording_output::{AnyDelegate, RecordingOutput, RecordingOutputCfg};

#[test]
fn recording_output_basics() {
    let cfg = RecordingOutputCfg::new();
    assert!(cfg.output_url().is_none());

    let codec = cfg.video_codec();

    assert_eq!(codec, VideoCodec::h264());

    let available_codecs = cfg.available_video_codecs();
    assert!(!available_codecs.is_empty());

    let available_file_types = cfg.available_output_file_types();
    assert!(!available_file_types.is_empty());
}

#[test]
fn recording_output_starts_empty() {
    let mut cfg = RecordingOutputCfg::new();
    cfg.set_output_url(String::from("file:///tmp/capture.mov"));
    assert_eq!(cfg.output_file_type(), FileType::mov());
    let delegate = AnyDelegate {};
    let output = RecordingOutput::with_cfg(cfg, &delegate);
    assert_eq!(output.recorded_file_size(), 0);
    assert_eq!(output.recorded_duration().value, 0);
}

#[test]
fn device_input_wraps_device() {
    let device = Device::with_device_type_media_and_position(
        &Type::built_in_microphone(),
        Some(&MediaType::audio()),
        Position::Unspecified,
    )
    .expect("device");
    let input = DeviceInput::with_device(device).expect("input");
    assert!(input.device().has_media_type(&MediaType::audio()));
    assert!(input.is_multichannel_audio_mode_supported(MultichannelAudioMode::Stereo));
    let ports = input.ports_with(Some(&MediaType::audio()), None, Position::Unspecified);
    assert_eq!(ports.len(), 1);
    assert!(ports[0].enabled());
}
