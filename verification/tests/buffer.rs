use ellipsoid::buffer::{grown_capacity, BufferError, BufferPhase, GrowableBuffer, UploadStep};

#[test]
fn capacity_that_fits_stays() {
    assert_eq!(grown_capacity(1200, 0), Some(1200));
    assert_eq!(grown_capacity(1200, 1200), Some(1200));
    assert_eq!(grown_capacity(0, 0), Some(0));
}

#[test]
fn capacity_doubles_until_it_fits() {
    assert_eq!(grown_capacity(1200, 1201), Some(2400));
    assert_eq!(grown_capacity(1200, 2400), Some(2400));
    assert_eq!(grown_capacity(1200, 2401), Some(4800));
    assert_eq!(grown_capacity(1200, 5000), Some(9600));
    assert_eq!(grown_capacity(40_000, 1_000_000), Some(1_280_000));
    assert_eq!(grown_capacity(1, 1 << 40), Some(1 << 40));
    assert_eq!(grown_capacity(3, 1 << 40), Some(3 << 39));
    assert_eq!(grown_capacity(1, 1 << 63), Some(1 << 63));
}

#[test]
fn capacity_that_cannot_be_reached() {
    assert_eq!(grown_capacity(0, 1), None);
    assert_eq!(grown_capacity(1, u64::MAX), None);
    assert_eq!(grown_capacity(3, u64::MAX - 1), None);
    assert_eq!(grown_capacity((1 << 63) + 1, u64::MAX), None);
}

#[test]
fn grown_capacity_is_the_least_doubling() {
    for capacity in 1..40u64 {
        for required in 0..400u64 {
            let grown = grown_capacity(capacity, required).unwrap();
            let mut expected = capacity;
            while expected < required {
                expected *= 2;
            }
            assert_eq!(grown, expected);
            assert!(grown >= required);
            assert!(grown == capacity || grown / 2 < required);
        }
    }
}

#[test]
fn upload_that_fits_is_written() {
    let mut buffer = GrowableBuffer::new(1200);
    assert_eq!(buffer.begin_upload(1200), Ok(UploadStep::Write));
    assert_eq!(buffer.capacity(), 1200);
    assert_eq!(buffer.phase(), BufferPhase::Sized);
}

#[test]
fn upload_that_does_not_fit_grows_first() {
    let mut buffer = GrowableBuffer::new(1200);
    assert_eq!(buffer.begin_upload(5000), Ok(UploadStep::Reallocate { capacity: 9600 }));
    assert_eq!(buffer.capacity(), 1200);
    assert_eq!(buffer.phase(), BufferPhase::Growing { target: 9600 });
    assert_eq!(buffer.finish_growth(true), Ok(()));
    assert_eq!(buffer.capacity(), 9600);
    assert_eq!(buffer.phase(), BufferPhase::Sized);
    assert_eq!(buffer.begin_upload(5000), Ok(UploadStep::Write));
}

#[test]
fn buffer_never_shrinks() {
    let mut buffer = GrowableBuffer::new(1200);
    buffer.begin_upload(5000).unwrap();
    buffer.finish_growth(true).unwrap();
    assert_eq!(buffer.begin_upload(16), Ok(UploadStep::Write));
    assert_eq!(buffer.capacity(), 9600);
}

#[test]
fn failed_allocation_is_reported() {
    let mut buffer = GrowableBuffer::new(1200);
    assert_eq!(buffer.begin_upload(1300), Ok(UploadStep::Reallocate { capacity: 2400 }));
    assert_eq!(buffer.finish_growth(false), Err(BufferError::BufferAllocationFailure));
    assert_eq!(buffer.capacity(), 1200);
    assert_eq!(buffer.phase(), BufferPhase::Sized);
    assert_eq!(buffer.begin_upload(1300), Ok(UploadStep::Reallocate { capacity: 2400 }));
}

#[test]
fn unreachable_capacity_is_a_failure() {
    let mut empty = GrowableBuffer::new(0);
    assert_eq!(empty.begin_upload(1), Err(BufferError::BufferAllocationFailure));
    assert_eq!(empty.phase(), BufferPhase::Sized);
    assert_eq!(empty.begin_upload(0), Ok(UploadStep::Write));
    let mut huge = GrowableBuffer::new(1 << 63);
    assert_eq!(huge.begin_upload(u64::MAX), Err(BufferError::BufferAllocationFailure));
    assert_eq!(huge.capacity(), 1 << 63);
}

#[test]
fn finish_growth_without_growth_changes_nothing() {
    let mut buffer = GrowableBuffer::new(64);
    assert_eq!(buffer.finish_growth(false), Ok(()));
    assert_eq!(buffer.finish_growth(true), Ok(()));
    assert_eq!(buffer.capacity(), 64);
    assert_eq!(buffer.phase(), BufferPhase::Sized);
}

#[test]
fn a_new_upload_replaces_a_pending_growth() {
    let mut buffer = GrowableBuffer::new(100);
    assert_eq!(buffer.begin_upload(150), Ok(UploadStep::Reallocate { capacity: 200 }));
    assert_eq!(buffer.begin_upload(500), Ok(UploadStep::Reallocate { capacity: 800 }));
    assert_eq!(buffer.phase(), BufferPhase::Growing { target: 800 });
    assert_eq!(buffer.begin_upload(50), Ok(UploadStep::Write));
    assert_eq!(buffer.phase(), BufferPhase::Sized);
    assert_eq!(buffer.capacity(), 100);
}
