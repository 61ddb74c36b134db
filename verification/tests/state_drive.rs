use memmap2::MmapMut;
use rollup_http_server::errors::ServiceError;
use rollup_http_server::state_drive::{
    raw_state_read, raw_state_size, raw_state_write, resolve_state_drive_path,
};

const DRIVE_LEN: usize = 4096;

fn anonymous_drive() -> MmapMut {
    MmapMut::map_anon(DRIVE_LEN).expect("anonymous mapping")
}

#[test]
fn size_reports_the_mapped_capacity() {
    let map = anonymous_drive();
    assert_eq!(raw_state_size(&map), DRIVE_LEN);
}

#[test]
fn fresh_drive_reads_as_zeroes() {
    let map = anonymous_drive();
    let bytes = raw_state_read(&map, 10, 4).unwrap();
    assert_eq!(bytes, vec![0u8, 0, 0, 0]);
}

#[test]
fn write_then_read_returns_the_bytes_written() {
    let mut map = anonymous_drive();
    let data = vec![7u8, 8, 9, 10, 11];
    assert_eq!(raw_state_write(&mut map, 100, &data), Ok(()));
    let back = raw_state_read(&map, 100, data.len()).unwrap();
    assert_eq!(back, data);
}

#[test]
fn write_leaves_bytes_outside_the_window_unchanged() {
    let mut map = anonymous_drive();
    raw_state_write(&mut map, 0, &[1u8; 16]).unwrap();
    raw_state_write(&mut map, 4, &[9u8, 9, 9, 9]).unwrap();
    assert_eq!(raw_state_read(&map, 0, 4).unwrap(), vec![1u8, 1, 1, 1]);
    assert_eq!(raw_state_read(&map, 4, 4).unwrap(), vec![9u8, 9, 9, 9]);
    assert_eq!(raw_state_read(&map, 8, 8).unwrap(), vec![1u8; 8]);
}

#[test]
fn read_beyond_capacity_fails() {
    let map = anonymous_drive();
    assert_eq!(raw_state_read(&map, DRIVE_LEN - 3, 4), Err(ServiceError::OutOfBounds));
    assert_eq!(raw_state_read(&map, DRIVE_LEN, 1), Err(ServiceError::OutOfBounds));
    assert_eq!(raw_state_read(&map, usize::MAX, usize::MAX), Err(ServiceError::OutOfBounds));
}

#[test]
fn read_up_to_capacity_succeeds() {
    let map = anonymous_drive();
    assert_eq!(raw_state_read(&map, DRIVE_LEN - 4, 4).unwrap().len(), 4);
    assert_eq!(raw_state_read(&map, 0, DRIVE_LEN).unwrap().len(), DRIVE_LEN);
}

#[test]
fn write_beyond_capacity_fails_and_writes_nothing() {
    let mut map = anonymous_drive();
    let r = raw_state_write(&mut map, DRIVE_LEN - 2, &[5u8, 5, 5, 5]);
    assert_eq!(r, Err(ServiceError::OutOfBounds));
    // The bytes near the end are still untouched.
    assert_eq!(raw_state_read(&map, DRIVE_LEN - 4, 4).unwrap(), vec![0u8; 4]);
}

#[test]
fn size_is_independent_of_reads_and_writes() {
    let mut map = anonymous_drive();
    assert_eq!(raw_state_size(&map), DRIVE_LEN);
    raw_state_write(&mut map, 0, &[3u8; 64]).unwrap();
    let _ = raw_state_read(&map, 0, 64).unwrap();
    assert_eq!(raw_state_size(&map), DRIVE_LEN);
}

#[test]
fn configured_drive_path_is_kept() {
    let (path, defaulted) = resolve_state_drive_path(Some("/dev/pmem7".to_string()));
    assert_eq!(path, "/dev/pmem7");
    assert!(!defaulted);
}

#[test]
fn missing_drive_path_falls_back_to_default() {
    let (path, defaulted) = resolve_state_drive_path(None);
    assert_eq!(path, "/dev/pmem1");
    assert!(defaulted);
}
