use cidre::cf::array::{Array, MutableArray};
use cidre::cf::notification_center::{
    NotificationCenter, NotificationName, NotificationSuspensionBehavior,
};
use cidre::cm::{FormatDesc, SampleBuffer};
use cidre::vt::decompression::{OutputCallbackRecord, Session};
use cidre::vt::DecodeFrameFlags;

#[test]
fn array_create_and_copy() {
    let arr = Array::new().unwrap();
    assert_eq!(arr.len(), 0);
    assert!(arr.is_empty());

    let values = vec![3u64, 5, 8];
    let arr = Array::from_type_refs(&values).unwrap();
    assert_eq!(arr.len(), 3);

    let copy = arr.copy().unwrap();
    assert_eq!(copy.len(), 3);

    let mut arr2 = arr.mutable_copy().unwrap();
    arr2.append(13);
    assert_eq!(arr2.len(), 4);
    assert_eq!(arr.len(), 3);
    arr2.remove_all_values();
    assert_eq!(arr2.len(), 0);

    let mut arr3 = MutableArray::new().unwrap();
    assert_eq!(0, arr3.len());
    arr3.append(1);
    assert_eq!(1, arr3.len());
}

#[test]
fn notification_center_registry() {
    let mut nc = NotificationCenter::local_center();
    let was_connected = NotificationName(1);
    let was_disconnected = NotificationName(2);

    let camera_object = 77;
    nc.add_observer(
        10,
        was_connected,
        None,
        NotificationSuspensionBehavior::DeliverImmediately,
    );
    nc.add_observer(11, was_connected, None, NotificationSuspensionBehavior::Hold);
    nc.add_observer(10, was_disconnected, None, NotificationSuspensionBehavior::Drop);
    nc.add_observer(
        12,
        was_connected,
        Some(camera_object),
        NotificationSuspensionBehavior::Hold,
    );

    assert_eq!(nc.post_notification(was_connected, None, true), vec![10, 11]);
    assert_eq!(
        nc.post_notification(was_connected, Some(camera_object), true),
        vec![10, 11, 12]
    );

    nc.remove_observer(10, was_connected, None);
    assert_eq!(nc.post_notification(was_connected, None, true), vec![11]);

    nc.remove_every_observer(11);
    nc.remove_every_observer(12);
    assert!(nc.post_notification(was_connected, None, true).is_empty());
    assert_eq!(nc.post_notification(was_disconnected, None, true), vec![10]);
}

#[test]
fn decompression_session_lifecycle() {
    let desc = FormatDesc::video(0x68766331, 1920, 1080);
    let record = OutputCallbackRecord::new(42u64);
    let mut session = Session::new(&desc, None, None, Some(&record)).unwrap();
    assert_eq!(session.callback_ref_con, Some(42));

    let sample = SampleBuffer::new(FormatDesc::video(0x68766331, 1920, 1080), 1);
    session
        .decode(&sample, DecodeFrameFlags::asynchronous())
        .unwrap();
    session.wait_for_async_frames().unwrap();

    let black = session.copy_black_pixel_buffer().unwrap();
    assert_eq!(black.width(), 1920);
    assert_eq!(black.height(), 1080);
    assert_eq!(black.plane_count(), 2);

    session.invalidate();
    assert!(session
        .decode(&sample, DecodeFrameFlags::default_flags())
        .is_err());
}

#[test]
fn decompression_session_rejects_bad_input() {
    let bad = FormatDesc::video(0x68766331, 0, 1080);
    assert!(Session::new(&bad, None, None, None).is_err());

    let desc = FormatDesc::video(0x68766331, 1280, 720);
    let mut session = Session::new(&desc, None, None, None).unwrap();
    let foreign = SampleBuffer::new(FormatDesc::video(0x61766331, 1280, 720), 1);
    assert!(session
        .decode(&foreign, DecodeFrameFlags::default_flags())
        .is_err());
    let grown = SampleBuffer::new(FormatDesc::video(0x68766331, 1920, 1080), 1);
    assert!(session
        .decode(&grown, DecodeFrameFlags::default_flags())
        .is_err());
    session.finish_delayed_frames().unwrap();
}
