use ohos_vsync::name::name_len;
use ohos_vsync::{FrameRequest, NativeVsync, NativeVsyncError};

/// Stands for the native service: answers with what it was set up with and
/// records every call.
struct Service {
    next_handle: usize,
    status: i32,
    period: i64,
    created: Vec<u32>,
    requested: Vec<FrameRequest>,
    destroyed: Vec<usize>,
}

fn service(next_handle: usize, status: i32, period: i64) -> Service {
    Service {
        next_handle,
        status,
        period,
        created: Vec::new(),
        requested: Vec::new(),
        destroyed: Vec::new(),
    }
}

fn create(service: &mut Service, name: &str) -> Result<NativeVsync, NativeVsyncError> {
    let len = name_len(name)?;
    service.created.push(len);
    NativeVsync::new(name, service.next_handle)
}

fn request_with_self(
    service: &mut Service,
    vsync: &mut NativeVsync,
) -> Result<(), NativeVsyncError> {
    service.requested.push(vsync.request_with_self());
    let (result, destroy) = vsync.request_raw_callback_with_self(service.status);
    if let Some(raw) = destroy {
        service.destroyed.push(raw);
    }
    result
}

fn end_scope(service: &mut Service, mut vsync: NativeVsync) {
    if let Some(raw) = vsync.teardown() {
        service.destroyed.push(raw);
    }
}

#[test]
fn create_query_request_drop() {
    let mut native = service(0xABCD, 0, 16666667);
    let vsync = create(&mut native, "test").unwrap();
    assert_eq!(native.created, vec![4]);
    assert!(vsync.is_owned());
    assert_eq!(vsync.get_period(native.status, native.period), Ok(16666667));
    assert_eq!(vsync.request_raw_callback(native.status), Ok(()));
    assert!(native.destroyed.is_empty());
    end_scope(&mut native, vsync);
    assert_eq!(native.destroyed, vec![0xABCD]);
}

#[test]
fn teardown_destroys_once() {
    let mut vsync = NativeVsync::from_raw(0xABCD);
    assert_eq!(vsync.teardown(), Some(0xABCD));
    assert!(!vsync.is_owned());
    assert_eq!(vsync.teardown(), None);
    assert_eq!(vsync.teardown(), None);
}

#[test]
fn accepted_request_with_self_destroys_nothing() {
    let mut native = service(0x5000, 0, 0);
    let mut vsync = NativeVsync::from_raw(0x5000);
    assert_eq!(request_with_self(&mut native, &mut vsync), Ok(()));
    assert!(!vsync.is_owned());
    end_scope(&mut native, vsync);
    assert!(native.destroyed.is_empty());
}

#[test]
fn refused_request_with_self_destroys_once() {
    let mut native = service(0x5000, 50401000, 0);
    let mut vsync = NativeVsync::from_raw(0x5000);
    assert_eq!(
        request_with_self(&mut native, &mut vsync),
        Err(NativeVsyncError::RawErr(50401000))
    );
    assert_eq!(native.destroyed, vec![0x5000]);
    assert!(!vsync.is_owned());
    end_scope(&mut native, vsync);
    assert_eq!(native.destroyed, vec![0x5000]);
}

#[test]
fn request_with_self_returns_error_and_handle_together() {
    let mut vsync = NativeVsync::from_raw(0x5000);
    assert_eq!(
        vsync.request_raw_callback_with_self(-1),
        (Err(NativeVsyncError::RawErr(-1)), Some(0x5000))
    );
    let mut other = NativeVsync::from_raw(0x6000);
    assert_eq!(other.request_raw_callback_with_self(0), (Ok(()), None));
}

#[test]
fn request_with_self_passes_the_handle_as_user_data() {
    let mut native = service(0x5000, 0, 0);
    let mut vsync = NativeVsync::from_raw(0x5000);
    assert_eq!(
        vsync.request_with_self(),
        FrameRequest {
            handle: 0x5000,
            data: 0x5000
        }
    );
    request_with_self(&mut native, &mut vsync).unwrap();
    // The callback adopts its user data and lets it go out of scope.
    let data = native.requested[0].data;
    let adopted = NativeVsync::from_raw(data);
    end_scope(&mut native, vsync);
    end_scope(&mut native, adopted);
    assert_eq!(native.destroyed, vec![0x5000]);
}

#[test]
fn into_raw_disarms_the_wrapper() {
    let mut native = service(0, 0, 0);
    let mut vsync = NativeVsync::from_raw(0x7000);
    assert_eq!(vsync.into_raw(), 0x7000);
    assert!(!vsync.is_owned());
    end_scope(&mut native, vsync);
    assert!(native.destroyed.is_empty());
}

#[test]
fn hand_out_then_adopt_destroys_once() {
    let mut native = service(0x7000, 0, 0);
    let mut first = create(&mut native, "round trip").unwrap();
    let raw = first.into_raw();
    let second = NativeVsync::from_raw(raw);
    assert_eq!(second.as_raw(), 0x7000);
    end_scope(&mut native, first);
    assert!(native.destroyed.is_empty());
    end_scope(&mut native, second);
    assert_eq!(native.destroyed, vec![0x7000]);
}

#[test]
fn borrowing_never_destroys() {
    let mut native = service(0x9000, 3, 5);
    let vsync = create(&mut native, "busy").unwrap();
    for status in [0, 1, -1, 12345] {
        let _ = vsync.request_raw_callback(status);
        let _ = vsync.get_period(status, native.period);
    }
    assert!(native.destroyed.is_empty());
    end_scope(&mut native, vsync);
    assert_eq!(native.destroyed, vec![0x9000]);
}
