use cidre::av::capture_device::{
    Device, ExposureMode, FocusMode, Position, SessionPreset, Type,
};
use cidre::av::configure::ConfigUpdate;
use cidre::av::discovery::DiscoverySession;
use cidre::av::media_format::MediaType;
use cidre::cg::Rect;
use cidre::ns::ExceptionName;

#[test]
fn device_basics() {
    let device_type = Type::built_in_wide_angle_camera();
    let media_type = MediaType::video();
    let position = Position::Front;
    let device = Device::with_device_type_media_and_position(
        &device_type,
        Some(&media_type),
        position,
    )
    .expect("device");
    assert!(!device.has_torch());
    assert!(device.formats().len() > 0);
    assert!(device.supports_preset(&SessionPreset::photo()));
    let _lock = device.configuration_lock().expect("locked");
}

#[test]
fn center_stage_rect_error_keeps_prior_value() {
    let device = Device::with_device_type_media_and_position(
        &Type::built_in_wide_angle_camera(),
        Some(&MediaType::video()),
        Position::Front,
    )
    .expect("device");
    let before = device.center_stage_rect_of_interest();
    let mut guard = device.configuration_lock().expect("locked");
    let out_of_range = Rect::new(500, 500, 800, 800);
    let err = guard
        .set_center_stage_rect_of_interest(out_of_range)
        .unwrap_err();
    assert_eq!(err.name, ExceptionName::InvalidArgument);
    assert_eq!(guard.device().center_stage_rect_of_interest(), before);
    let in_range = Rect::new(100, 100, 500, 500);
    guard.set_center_stage_rect_of_interest(in_range).unwrap();
    assert_eq!(guard.device().center_stage_rect_of_interest(), in_range);
    let device = guard.unlock_for_configuration();
    assert_eq!(device.center_stage_rect_of_interest(), in_range);
}

#[test]
fn unlock_fires_exactly_once_on_error_paths() {
    let device = Device::with_device_type_media_and_position(
        &Type::built_in_wide_angle_camera(),
        Some(&MediaType::video()),
        Position::Front,
    )
    .expect("device");
    let locks_before = device.configuration_lock_count();
    let unlocks_before = device.configuration_unlock_count();

    let mut guard = device.configuration_lock().expect("locked");
    let updates = vec![
        ConfigUpdate::FocusMode(FocusMode::Locked),
        ConfigUpdate::ExposureMode(ExposureMode::Custom),
        ConfigUpdate::FocusMode(FocusMode::AutoFocus),
    ];
    let failure = guard.apply_updates(&updates);
    assert!(failure.is_some());
    let device = guard.unlock_for_configuration();

    assert_eq!(device.configuration_lock_count(), locks_before + 1);
    assert_eq!(device.configuration_unlock_count(), unlocks_before + 1);
    assert_eq!(device.focus_mode(), FocusMode::Locked);
    assert_eq!(device.exposure_mode(), ExposureMode::ContinuousAutoExposure);
}

#[test]
fn guarded_updates_apply_in_order() {
    let device = Device::with_device_type_media_and_position(
        &Type::built_in_wide_angle_camera(),
        Some(&MediaType::video()),
        Position::Front,
    )
    .expect("device");
    let mut guard = device.configuration_lock().expect("locked");
    let updates = vec![
        ConfigUpdate::FocusMode(FocusMode::Locked),
        ConfigUpdate::ExposureMode(ExposureMode::Locked),
    ];
    let failure = guard.apply_updates(&updates);
    assert!(failure.is_none());
    let device = guard.unlock_for_configuration();
    assert_eq!(device.focus_mode(), FocusMode::Locked);
    assert_eq!(device.exposure_mode(), ExposureMode::Locked);
}

#[test]
fn zoom_ramp_and_cancel() {
    let device = Device::with_device_type_media_and_position(
        &Type::built_in_wide_angle_camera(),
        Some(&MediaType::video()),
        Position::Front,
    )
    .expect("device");
    let mut guard = device.configuration_lock().expect("locked");
    guard.ramp_to_video_zoom_factor(2000, 500);
    assert!(guard.device().is_ramping_video_zoom());
    guard.cancel_video_zoom_ramp();
    assert!(!guard.device().is_ramping_video_zoom());
    let _device = guard.unlock_for_configuration();
}

#[test]
fn lens_position_lock_resolves_completion() {
    let device = Device::with_device_type_media_and_position(
        &Type::built_in_wide_angle_camera(),
        Some(&MediaType::video()),
        Position::Front,
    )
    .expect("device");
    let mut guard = device.configuration_lock().expect("locked");
    let t = guard.set_focus_mode_locked_with_lens_position(250).unwrap();
    assert!(t.valid);
    assert_eq!(guard.device().focus_mode(), FocusMode::Locked);
    assert_eq!(guard.device().lens_position(), 250);
    let err = guard
        .set_focus_mode_locked_with_lens_position(2000)
        .unwrap_err();
    assert_eq!(err.name, ExceptionName::InvalidArgument);
    let _device = guard.unlock_for_configuration();
}

#[test]
fn device_lookup_by_unique_id() {
    let device = Device::with_unique_id(String::from("mic-0")).expect("device");
    assert_eq!(device.device_type(), Type::built_in_microphone());
    assert!(device.has_media_type(&MediaType::audio()));
    assert!(Device::with_unique_id(String::from("absent")).is_none());
}

#[test]
fn session() {
    let list = vec![Type::external()];
    let session = DiscoverySession::with_device_types_media_and_position(
        &list,
        Some(&MediaType::muxed()),
        Position::Unspecified,
    );

    let devices = session.devices();
    let _ = devices;
}

#[test]
fn discovery_orders_by_type_then_position() {
    let list = vec![Type::external()];
    let session = DiscoverySession::with_device_types_media_and_position(
        &list,
        Some(&MediaType::muxed()),
        Position::Unspecified,
    );
    let devices = session.devices();
    assert_eq!(devices.len(), 3);
    assert_eq!(devices[0].position(), Position::Unspecified);
    assert_eq!(devices[1].position(), Position::Back);
    assert_eq!(devices[2].position(), Position::Front);

    let list = vec![Type::external(), Type::built_in_microphone()];
    let session = DiscoverySession::with_device_types_media_and_position(
        &list,
        None,
        Position::Unspecified,
    );
    let devices = session.devices();
    assert_eq!(devices.len(), 4);
    assert_eq!(devices[0].device_type(), Type::external());
    assert_eq!(devices[1].device_type(), Type::external());
    assert_eq!(devices[2].device_type(), Type::external());
    assert_eq!(devices[3].device_type(), Type::built_in_microphone());
    assert_eq!(devices[3].unique_id(), &String::from("mic-0"));
}
