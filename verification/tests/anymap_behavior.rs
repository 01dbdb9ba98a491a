use anymap::AnyMap;
use anymap::Value;

#[test]
fn value_stores() {
    let val = Value::new(1);
    assert!(val.is::<i32>());
    assert!(!val.is::<String>());
    assert_eq!(val.as_type::<i32>().unwrap(), &1);
}

#[test]
fn value_stores_any() {
    let val = Value::new(1);
    let val2 = Value::new("hello");
    assert!(val.is::<i32>());
    assert!(val2.is::<&str>());
    assert_eq!(val.as_type::<i32>().unwrap(), &1);
    assert_eq!(val2.as_type::<&str>().unwrap(), &"hello");
}

#[test]
fn any_map_stores() {
    let mut map = AnyMap::new();
    map.insert("hello", 1);
    assert_eq!(map.get("hello").unwrap().as_type::<i32>().unwrap(), &1);
    assert!(map.contains_key("hello"));
    assert!(!map.contains_key("world"));
}

#[test]
fn any_map_stores_any() {
    let mut map = AnyMap::new();
    map.insert("hello", 1);
    map.insert("world", "hello");
    assert_eq!(map.get("hello").unwrap().as_type::<i32>().unwrap(), &1);
    assert_eq!(map.get("world").unwrap().as_type::<&str>().unwrap(), &"hello");
    assert!(map.contains_key("hello"));
    assert!(map.contains_key("world"));
}

#[test]
fn value_reports_type() {
    let mut map = AnyMap::new();
    map.insert("key", "value");
    assert!(map.get("key").unwrap().is::<&str>());
}

#[test]
fn value_rejects_other_types() {
    let val = Value::new(5u8);
    assert!(val.is::<u8>());
    assert!(!val.is::<u16>());
    assert!(!val.is::<i8>());
    assert!(val.as_type::<u16>().is_none());
    assert!(val.as_type::<String>().is_none());
}

#[test]
fn value_owned_string() {
    let val = Value::new(String::from("owned"));
    assert!(val.is::<String>());
    assert!(!val.is::<&str>());
    assert_eq!(val.as_type::<String>().unwrap(), "owned");
}

#[test]
fn value_into_inner_consumes() {
    let val = Value::new(42i64);
    assert!(val.is::<i64>());
    let _erased = val.into_inner();
}

#[test]
fn two_types_under_two_keys() {
    let mut map = AnyMap::new();
    map.insert("key", "value");
    map.insert("key2", 1);
    assert_eq!(map.get_typed::<&str>(&"key"), Some(&"value"));
    assert_eq!(map.get_typed::<i32>(&"key2"), Some(&1));
    assert_eq!(map.get_typed::<i32>(&"key"), None);
    assert_eq!(map.len(), 2);
}

#[test]
fn overwrite_returns_previous() {
    let mut map = AnyMap::new();
    map.insert("key", "value");
    let prev = map.insert("key", 42);
    let prev = prev.expect("second insert must return the first value");
    assert!(prev.is::<&str>());
    assert_eq!(prev.as_type::<&str>(), Some(&"value"));
    assert_eq!(map.get_typed::<i32>(&"key"), Some(&42));
    assert_eq!(map.get_typed::<&str>(&"key"), None);
    assert_eq!(map.len(), 1);
}

#[test]
fn remove_is_destructive_and_idempotent() {
    let mut map = AnyMap::new();
    map.insert(7u64, "seven");
    let evicted = map.remove(&7u64).expect("first removal returns the entry");
    assert_eq!(evicted.as_type::<&str>(), Some(&"seven"));
    assert!(!map.contains_key(&7u64));
    assert!(map.remove(&7u64).is_none());
    assert_eq!(map.len(), 0);
}

#[test]
fn get_typed_absent_and_mistyped_collapse() {
    let mut map = AnyMap::new();
    map.insert("present", 3i32);
    assert_eq!(map.get_typed::<i32>(&"absent"), None);
    assert_eq!(map.get_typed::<String>(&"present"), None);
    assert!(map.get("absent").is_none());
    assert!(map.get("present").unwrap().is::<i32>());
    assert!(!map.get("present").unwrap().is::<String>());
}

#[test]
fn insert_val_moves_between_maps() {
    let mut first = AnyMap::new();
    let prev = first.insert_val("slot", Value::new(9u32));
    assert!(prev.is_none());
    let taken = first.remove("slot").unwrap();
    let mut second = AnyMap::new();
    assert!(second.insert_val("slot", taken).is_none());
    assert!(!first.contains_key("slot"));
    assert_eq!(second.get_typed::<u32>(&"slot"), Some(&9));
}

#[test]
fn len_counts_distinct_keys_and_clear_empties() {
    let mut map = AnyMap::new();
    assert!(map.is_empty());
    assert_eq!(map.len(), 0);
    map.insert(1u32, "one");
    map.insert(2u32, 2i16);
    map.insert(1u32, "one again");
    assert_eq!(map.len(), 2);
    assert!(!map.is_empty());
    map.clear();
    assert_eq!(map.len(), 0);
    assert!(map.is_empty());
    assert!(!map.contains_key(&1u32));
    map.insert(3u32, true);
    assert_eq!(map.len(), 1);
}

#[test]
fn capacity_is_a_hint_only() {
    let mut map: AnyMap<u64> = AnyMap::with_capacity(2);
    assert!(map.is_empty());
    for k in 0..10u64 {
        map.insert(k, k);
    }
    assert_eq!(map.len(), 10);
    assert!(map.capacity() >= map.len());
    let fresh: AnyMap<u64> = AnyMap::new();
    assert!(fresh.capacity() >= fresh.len());
}

#[test]
fn traversals_cover_every_entry() {
    let mut map = AnyMap::new();
    map.insert("a", 1i32);
    map.insert("b", "two");
    map.insert("c", 3.5f64);
    let mut keys: Vec<&&str> = map.keys().collect();
    keys.sort();
    assert_eq!(keys, vec![&"a", &"b", &"c"]);
    assert_eq!(map.values().count(), 3);
    assert!(map.values().all(|v| v.is::<i32>() || v.is::<&str>() || v.is::<f64>()));
    let mut seen = 0;
    for (k, v) in map.iter() {
        seen += 1;
        match *k {
            "a" => assert_eq!(v.as_type::<i32>(), Some(&1)),
            "b" => assert_eq!(v.as_type::<&str>(), Some(&"two")),
            "c" => assert_eq!(v.as_type::<f64>(), Some(&3.5)),
            other => panic!("unexpected key {}", other),
        }
    }
    assert_eq!(seen, 3);
}

#[test]
fn default_is_empty() {
    let map: AnyMap<u8> = AnyMap::default();
    assert!(map.is_empty());
    assert_eq!(map.len(), 0);
}

#[test]
fn erased_keeps_type_and_payload() {
    let erased = Value::new(10i32).into_inner();
    assert!(erased.is::<i32>());
    assert!(!erased.is::<u8>());
    assert_eq!(erased.as_type::<i32>(), Some(&10));
    assert_eq!(erased.as_type::<String>(), None);
}

#[test]
fn erased_rewraps_into_value() {
    let mut map = AnyMap::new();
    map.insert("slot", String::from("payload"));
    let taken = map.remove("slot").unwrap();
    let erased = taken.into_inner();
    assert!(erased.is::<String>());
    let rewrapped = Value::from_erased(erased);
    assert!(rewrapped.is::<String>());
    assert_eq!(rewrapped.as_type::<String>().unwrap(), "payload");
    assert!(map.insert_val("slot", rewrapped).is_none());
    assert_eq!(map.get_typed::<String>(&"slot").unwrap(), "payload");
}
