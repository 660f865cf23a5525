use gantry_backend::error::AppError;
use gantry_backend::output::{retention_cutoff, validate_output, OutputBuffer};

#[test]
fn outputs_over_64_kb_or_beyond_the_limit_are_refused() {
    assert!(validate_output(&"a".repeat(65536), 0).is_ok());
    match validate_output(&"a".repeat(65537), 0) {
        Err(AppError::Validation(m)) => assert_eq!(m, "output content exceeds maximum size of 65536 bytes"),
        other => panic!("unexpected {other:?}"),
    }
    assert!(validate_output("x", 9999).is_ok());
    match validate_output("x", 10000) {
        Err(AppError::Validation(m)) => assert_eq!(m, "session output limit reached (10000 records)"),
        other => panic!("unexpected {other:?}"),
    }
    // size is counted in bytes
    assert!(validate_output(&"é".repeat(32768), 0).is_ok());
    assert!(validate_output(&"é".repeat(32769), 0).is_err());
}

#[test]
fn buffer_flushes_when_total_size_exceeded() {
    let mut buf = OutputBuffer::with_limits(1000, 1024);
    let chunk = "a".repeat(600);
    assert_eq!(buf.add(1, 0, chunk.clone()).unwrap(), false);
    assert_eq!(buf.add(1, 1, chunk).unwrap(), true, "flush due past the byte cap");
    assert_eq!(buf.total_bytes(), 1200);
}

#[test]
fn buffer_does_not_flush_under_cap_and_flushes_on_demand() {
    let mut buf = OutputBuffer::with_limits(1000, 10 * 1024 * 1024);
    assert_eq!(buf.add(7, 0, "a".repeat(100)).unwrap(), false);
    assert_eq!(buf.len(), 1);
    let items = buf.take_pending();
    assert_eq!(items.len(), 1);
    assert_eq!((items[0].session_id, items[0].sequence), (7, 0));
    assert_eq!(buf.len(), 0);
    assert_eq!(buf.total_bytes(), 0);
}

#[test]
fn buffer_flushes_at_batch_size_and_keeps_order() {
    let mut buf = OutputBuffer::new();
    for i in 0..99 {
        assert_eq!(buf.add(1, i, format!("line {i}")).unwrap(), false);
    }
    assert_eq!(buf.add(1, 99, "last".to_string()).unwrap(), true);
    let items = buf.take_pending();
    let seqs: Vec<i64> = items.iter().map(|p| p.sequence).collect();
    assert_eq!(seqs, (0..100).collect::<Vec<i64>>());
    assert_eq!(items[99].content, "last");
}

#[test]
fn refused_output_leaves_buffer_unchanged() {
    let mut buf = OutputBuffer::new();
    buf.add(1, 0, "ok".to_string()).unwrap();
    assert!(buf.add(1, 10000, "late".to_string()).is_err());
    assert_eq!(buf.len(), 1);
    assert_eq!(buf.total_bytes(), 2);
}

#[test]
fn cleanup_cutoff_is_retention_days_back() {
    assert_eq!(retention_cutoff(10 * 86_400_000, 3).unwrap(), 7 * 86_400_000);
    assert!(matches!(retention_cutoff(0, u64::MAX), Err(AppError::Internal(m)) if m == "retention_days too large"));
}
