use rawconv::{ParallelizationInfo, ReadableByteSlice};
use std::io::Read;

#[test]
fn test_readable_byte_slice() {
    let src = [0, 1, 2, 3, 4, 5, 6, 7, 8, 9];
    let mut buf = [0; 3];

    let mut src = ReadableByteSlice::new(&src);

    let bytes = src.read(&mut buf).unwrap();
    assert_eq!(bytes, 3);
    for i in 0..3 {
        assert_eq!(buf[i], i as u8 + 0 * 3);
    }

    let bytes = src.read(&mut buf).unwrap();
    assert_eq!(bytes, 3);
    for i in 0..3 {
        assert_eq!(buf[i], i as u8 + 1 * 3);
    }
    let bytes = src.read(&mut buf).unwrap();
    assert_eq!(bytes, 3);
    for i in 0..3 {
        assert_eq!(buf[i], i as u8 + 2 * 3);
    }
    let bytes = src.read(&mut buf).unwrap();
    assert_eq!(bytes, 1);
    assert_eq!(buf[0], 9);
    let bytes = src.read(&mut buf).unwrap();
    assert_eq!(bytes, 0);
}

#[test]
fn short_read_leaves_rest_of_buffer() {
    let src = [7u8, 8];
    let mut buf = [1u8, 2, 3, 4];
    let mut r = ReadableByteSlice::new(&src);
    assert_eq!(r.read_bytes(&mut buf), 2);
    assert_eq!(buf, [7, 8, 3, 4]);
    assert_eq!(r.read_bytes(&mut buf), 0);
    assert_eq!(buf, [7, 8, 3, 4]);
}

#[test]
fn read_into_empty_buffer_reads_nothing() {
    let src = [5u8, 6, 7];
    let mut empty: [u8; 0] = [];
    let mut buf = [0u8; 3];
    let mut r = ReadableByteSlice::new(&src);
    assert_eq!(r.read_bytes(&mut empty), 0);
    assert_eq!(r.read_bytes(&mut buf), 3);
    assert_eq!(buf, [5, 6, 7]);
}

#[test]
fn worker_count_is_capped_by_job_count() {
    assert_eq!(ParallelizationInfo::new(3, Some(8)).worker_count(), 3);
    assert_eq!(ParallelizationInfo::new(100, Some(8)).worker_count(), 8);
    assert_eq!(ParallelizationInfo::new(8, Some(8)).worker_count(), 8);
}

#[test]
fn no_jobs_gives_no_workers() {
    assert_eq!(ParallelizationInfo::new(0, Some(8)).worker_count(), 0);
    assert_eq!(ParallelizationInfo::new(0, None).worker_count(), 0);
}

#[test]
fn unknown_parallelism_gives_one_worker() {
    assert_eq!(ParallelizationInfo::new(10, None).worker_count(), 1);
    assert_eq!(ParallelizationInfo::new(1, Some(1)).worker_count(), 1);
}
