use opentelemetry_sdk::{EvictedHashMap, EvictedQueue, KeyValue, Value};

fn kv(key: &str, value: i64) -> KeyValue {
    KeyValue::new(String::from(key), Value::I64(value))
}

#[test]
fn queue_keeps_newest_and_counts_overflow() {
    let mut q = EvictedQueue::new(3);
    for i in 0..5u32 {
        q.push_back(i);
    }
    assert_eq!(q.len(), 3);
    assert_eq!(q.dropped_count(), 2);
    assert_eq!(q.as_slice(), &[2, 3, 4]);
    assert_eq!(q.max_len(), 3);
}

#[test]
fn queue_below_capacity_drops_nothing() {
    let mut q = EvictedQueue::new(4);
    q.push_back("a");
    q.push_back("b");
    assert_eq!(q.as_slice(), &["a", "b"]);
    assert_eq!(q.dropped_count(), 0);
    assert!(!q.is_empty());
}

#[test]
fn queue_extend_counts_exact_overflow() {
    let mut q = EvictedQueue::new(4);
    q.push_back(0u64);
    q.extend(vec![1, 2, 3, 4, 5, 6]);
    assert_eq!(q.len(), 4);
    assert_eq!(q.dropped_count(), 3);
    assert_eq!(q.as_slice(), &[3, 4, 5, 6]);
    q.extend(Vec::new());
    assert_eq!(q.dropped_count(), 3);
}

#[test]
fn queue_of_zero_capacity_keeps_nothing() {
    let mut q = EvictedQueue::new(0);
    q.extend(vec![1u8, 2, 3]);
    assert!(q.is_empty());
    assert_eq!(q.dropped_count(), 3);
}

#[test]
fn map_evicts_least_recently_set_key() {
    let mut m = EvictedHashMap::new(2);
    m.insert(kv("a", 1));
    m.insert(kv("b", 2));
    m.insert(kv("c", 3));
    assert_eq!(m.len(), 2);
    assert_eq!(m.dropped_count(), 1);
    assert_eq!(m.get(&String::from("a")), None);
    assert_eq!(m.get(&String::from("c")), Some(&Value::I64(3)));
    assert_eq!(m.as_slice(), &[kv("b", 2), kv("c", 3)]);
}

#[test]
fn map_update_replaces_value_without_drop() {
    let mut m = EvictedHashMap::new(2);
    m.insert(kv("a", 1));
    m.insert(kv("b", 2));
    m.insert(kv("a", 10));
    assert_eq!(m.len(), 2);
    assert_eq!(m.dropped_count(), 0);
    assert_eq!(m.as_slice(), &[kv("b", 2), kv("a", 10)]);
    m.insert(kv("c", 3));
    assert_eq!(m.as_slice(), &[kv("a", 10), kv("c", 3)]);
    assert_eq!(m.dropped_count(), 1);
}

#[test]
fn map_overflow_counts_every_new_key() {
    let mut m = EvictedHashMap::new(3);
    for i in 0..10i64 {
        m.insert(kv(&format!("k{}", i), i));
        assert!(m.len() <= 3);
    }
    assert_eq!(m.len(), 3);
    assert_eq!(m.dropped_count(), 7);
    assert_eq!(m.max_len(), 3);
    assert!(!m.is_empty());
}
