use ohos_vsync::name::{checked_name_len, name_len};
use ohos_vsync::{NativeVsync, NativeVsyncError};

#[test]
fn name_len_counts_bytes() {
    assert_eq!(name_len("test"), Ok(4));
    assert_eq!(name_len(""), Ok(0));
    // Two characters, three bytes in UTF-8.
    assert_eq!(name_len("\u{e9}x"), Ok(3));
}

#[test]
fn longest_name_is_accepted() {
    assert_eq!(checked_name_len(0), Ok(0));
    assert_eq!(checked_name_len(1), Ok(1));
    assert_eq!(checked_name_len(0xffff_ffff), Ok(u32::MAX));
}

#[test]
fn name_one_byte_too_long_is_invalid_args() {
    assert_eq!(
        checked_name_len(0x1_0000_0000),
        Err(NativeVsyncError::InvalidArgs)
    );
    assert_eq!(
        checked_name_len(usize::MAX),
        Err(NativeVsyncError::InvalidArgs)
    );
}

#[test]
fn new_owns_the_created_handle() {
    let vsync = NativeVsync::new("test", 0xABCD).unwrap();
    assert!(vsync.is_owned());
    assert_eq!(vsync.as_raw(), 0xABCD);
}

#[test]
fn new_takes_an_empty_name() {
    let vsync = NativeVsync::new("", 0x10).unwrap();
    assert!(vsync.is_owned());
    assert_eq!(vsync.as_raw(), 0x10);
}

#[test]
fn new_wraps_a_null_handle() {
    let vsync = NativeVsync::new("test", 0).unwrap();
    assert!(vsync.is_owned());
    assert_eq!(vsync.as_raw(), 0);
}

#[test]
fn from_raw_owns_the_handle() {
    let vsync = NativeVsync::from_raw(0x7f00_1000);
    assert!(vsync.is_owned());
    assert_eq!(vsync.as_raw(), 0x7f00_1000);
}

#[test]
fn error_variants_differ() {
    assert_ne!(NativeVsyncError::CreateFailed, NativeVsyncError::InvalidArgs);
    assert_ne!(NativeVsyncError::CreateFailed, NativeVsyncError::RawErr(0));
    assert_ne!(NativeVsyncError::RawErr(1), NativeVsyncError::RawErr(2));
    assert_eq!(
        format!("{:?}", NativeVsyncError::RawErr(-1)),
        "RawErr(-1)"
    );
}
