use llama_mini::logbuf::{LogBuffer, LOG_CAPACITY};

#[test]
fn log_keeps_at_most_capacity_and_evicts_oldest() {
    let mut log = LogBuffer::new();
    for i in 0..LOG_CAPACITY {
        log.push(format!("line {i}"));
    }
    assert_eq!(log.len(), 2000);
    assert_eq!(log.line(0), "line 0");
    log.push("line 2000".to_string());
    assert_eq!(log.len(), 2000);
    assert_eq!(log.line(0), "line 1");
    assert_eq!(log.line(1999), "line 2000");
}

#[test]
fn log_starts_empty_and_can_be_cleared() {
    let mut log = LogBuffer::new();
    assert!(log.is_empty());
    log.push("a".to_string());
    log.push("b".to_string());
    assert!(!log.is_empty());
    assert_eq!(log.len(), 2);
    assert_eq!(log.line(1), "b");
    log.clear();
    assert!(log.is_empty());
}

#[test]
fn log_keeps_order_far_past_capacity() {
    let mut log = LogBuffer::new();
    for i in 0..(3 * LOG_CAPACITY + 5) {
        log.push(i.to_string());
        assert!(log.len() <= LOG_CAPACITY);
    }
    for k in 0..LOG_CAPACITY {
        assert_eq!(log.line(k), &(2 * LOG_CAPACITY + 5 + k).to_string());
    }
}
