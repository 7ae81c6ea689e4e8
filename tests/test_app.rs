use echo_sync::async_io::{
    async_io, AsyncIoAction, IoKind, NUM_ASYNCH_IO, READER_TYPE, WRITER_TYPE,
};
use echo_sync::pattern::{
    check_read, check_written, create_pattern_buffer, verify_pattern_buffer, PatternMismatch,
    TransferError,
};

#[test]
fn pattern_buffer_counts_and_wraps() {
    let b = create_pattern_buffer(300);
    assert_eq!(b.len(), 300);
    assert_eq!(b[0], 0);
    assert_eq!(b[99], 99);
    assert_eq!(b[255], 255);
    assert_eq!(b[256], 0);
    assert_eq!(b[299], 43);
    assert!(create_pattern_buffer(0).is_empty());
}

#[test]
fn pattern_buffer_verifies() {
    assert_eq!(verify_pattern_buffer(&create_pattern_buffer(30 * 1024)), Ok(()));
    assert_eq!(verify_pattern_buffer(&[]), Ok(()));
}

#[test]
fn pattern_mismatch_names_first_bad_byte() {
    let mut b = create_pattern_buffer(512);
    b[300] = 7;
    b[400] = 9;
    assert_eq!(
        verify_pattern_buffer(&b),
        Err(PatternMismatch { index: 300, expected: 44, found: 7 })
    );
}

#[test]
fn round_checks() {
    assert_eq!(check_written(512, 512), Ok(()));
    assert_eq!(
        check_written(512, 100),
        Err(TransferError::ShortWrite { written: 100, expected: 512 })
    );
    assert_eq!(check_read(512, &create_pattern_buffer(512)), Ok(()));
    assert_eq!(
        check_read(512, &create_pattern_buffer(511)),
        Err(TransferError::ShortRead { read: 511, expected: 512 })
    );
    let mut b = create_pattern_buffer(4);
    b[0] = 1;
    assert_eq!(
        check_read(4, &b),
        Err(TransferError::Pattern(PatternMismatch { index: 0, expected: 0, found: 1 }))
    );
}

#[test]
fn unlimited_worker_keeps_full_window() {
    let mut s = async_io(READER_TYPE, false, 0);
    assert_eq!(s.kind, IoKind::Read);
    assert_eq!(s.max_pending_requests, NUM_ASYNCH_IO);
    for _ in 0..500 {
        assert_eq!(s.on_completion(), AsyncIoAction::Resubmit);
    }
}

#[test]
fn small_limited_worker_sends_all_at_once() {
    let mut s = async_io(WRITER_TYPE, true, 3);
    assert_eq!(s.kind, IoKind::Write);
    assert_eq!(s.max_pending_requests, 3);
    assert_eq!(s.remaining_requests_to_send, 0);
    assert_eq!(s.on_completion(), AsyncIoAction::Wait);
    assert_eq!(s.on_completion(), AsyncIoAction::Wait);
    assert_eq!(s.on_completion(), AsyncIoAction::Stop);
}

#[test]
fn large_limited_worker_resubmits_the_rest() {
    let mut s = async_io(READER_TYPE, true, 102);
    assert_eq!(s.max_pending_requests, 100);
    assert_eq!(s.remaining_requests_to_receive, 102);
    assert_eq!(s.remaining_requests_to_send, 2);
    assert_eq!(s.on_completion(), AsyncIoAction::Resubmit);
    assert_eq!(s.on_completion(), AsyncIoAction::Resubmit);
    for _ in 0..99 {
        assert_eq!(s.on_completion(), AsyncIoAction::Wait);
    }
    assert_eq!(s.on_completion(), AsyncIoAction::Stop);
}

#[test]
fn other_thread_parameter_writes() {
    assert_eq!(async_io(42, false, 0).kind, IoKind::Write);
}
