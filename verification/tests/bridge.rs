use cidre::arc::{Ownership, Runtime};
use cidre::cf::array::Array;
use cidre::cv::pixel_buffer::{PixelBuf, PixelFormat};
use cidre::blocks::Completion;
use cidre::ns::{self, CallOutcome, Exception, ExceptionName};

#[test]
fn owned_handle_release_restores_count() {
    let mut rt = Runtime::new();
    let h = rt.allocate();
    assert_eq!(rt.count(&h), 1);
    let before_retains = rt.retain_calls();
    let owned = rt.retain(&h);
    assert_eq!(rt.count(&h), 2);
    assert_eq!(rt.retain_calls(), before_retains + 1);
    rt.release(owned);
    assert_eq!(rt.count(&h), 1);
    assert_eq!(rt.release_calls(), 1);
    rt.release(h);
    assert_eq!(rt.release_calls(), 2);
}

#[test]
fn borrowed_handles_never_release() {
    let mut rt = Runtime::new();
    let h = rt.allocate();
    let b = h.as_borrowed();
    assert_eq!(b.ownership(), Ownership::Borrowed);
    assert_eq!(b.obj(), h.obj());
    assert_eq!(rt.count(&h), 1);
    assert_eq!(rt.release_calls(), 0);
}

#[test]
fn autoreleased_conversion_retains() {
    let mut rt = Runtime::new();
    let h = rt.allocate();
    let ar = rt.wrap(h.obj(), Ownership::Autoreleased);
    let owned = rt.retain_autoreleased(ar);
    assert_eq!(owned.ownership(), Ownership::Owned);
    assert_eq!(rt.count(&h), 2);
}

#[test]
fn try_catch_captures_raise() {
    let r: Result<u32, Exception> = ns::try_catch(|| {
        CallOutcome::Raised(Exception::new(
            ExceptionName::InvalidArgument,
            String::from("out of range"),
        ))
    });
    let e = r.unwrap_err();
    assert_eq!(e.name, ExceptionName::InvalidArgument);
    assert_eq!(e.description(), String::from("out of range"));
}

#[test]
fn try_catch_passes_value_through() {
    let r: Result<u32, Exception> = ns::try_catch(|| CallOutcome::Returned(7));
    assert_eq!(r.unwrap(), 7);
}

#[test]
fn completion_resolves_exactly_once() {
    let mut c: Completion<u32> = Completion::new();
    assert!(c.pending());
    assert!(c.resolve(5));
    assert!(c.resolved());
    assert!(!c.resolve(9));
    assert_eq!(c.resolve_calls(), 2);
    assert_eq!(c.take(), 5);
}

#[test]
fn completion_abandoned_ignores_late_callback() {
    let mut c: Completion<u32> = Completion::new();
    c.abandon();
    assert!(!c.resolve(3));
    assert!(!c.resolved());
}

#[test]
fn retained_objects_balance_their_counts() {
    let mut rt = Runtime::new();

    let buf = PixelBuf::new(200, 100, PixelFormat::bgra32(), None).unwrap();
    let retained = rt.allocate_retained(buf);
    assert_eq!(rt.count(&retained.as_borrowed()), 1);
    assert_eq!(retained.value().width(), 200);
    let handle = retained.as_borrowed();
    let buf = rt.release_retained(retained);
    assert_eq!(rt.count(&handle), 0);
    assert_eq!(rt.release_calls(), 1);
    assert_eq!(buf.height(), 100);

    let arr = Array::from_type_refs(&vec![2u64, 4]).unwrap();
    let retained = rt.allocate_retained(arr);
    assert_eq!(rt.count(&retained.as_borrowed()), 1);
    let handle = retained.as_borrowed();
    let arr = rt.release_retained(retained);
    assert_eq!(rt.count(&handle), 0);
    assert_eq!(arr.len(), 2);
}
