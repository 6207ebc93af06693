use rynth::vscore::{
    bytes_to_mib_ceil, cache_limit_bytes, check_thread_count, is_c_name, lookup_outcome,
    mib_to_bytes, requested_cache_bytes, CoreError, PluginCursor,
};

#[test]
fn cache_sizes_in_mebibytes() {
    assert_eq!(mib_to_bytes(4096), 4096 * 1024 * 1024);
    assert_eq!(requested_cache_bytes(Some(1)), Some(1048576));
    assert_eq!(requested_cache_bytes(None), None);
    assert_eq!(cache_limit_bytes(2), Ok(2 * 1048576));
    assert_eq!(cache_limit_bytes(0), Err(CoreError::NonPositiveCacheSize));
    assert_eq!(cache_limit_bytes(-5), Err(CoreError::NonPositiveCacheSize));
}

#[test]
fn cache_size_rounds_up() {
    assert_eq!(bytes_to_mib_ceil(0), 0);
    assert_eq!(bytes_to_mib_ceil(1), 1);
    assert_eq!(bytes_to_mib_ceil(1048576), 1);
    assert_eq!(bytes_to_mib_ceil(1048577), 2);
    assert_eq!(bytes_to_mib_ceil(-1048576), 0);
    assert_eq!(bytes_to_mib_ceil(-3 * 1048576), (-3 * 1048576 + 1048575) / 1048576);
    for mb in [1i64, 7, 4096, 1 << 40] {
        assert_eq!(bytes_to_mib_ceil(mib_to_bytes(mb)), mb);
    }
}

#[test]
fn thread_count_not_negative() {
    assert_eq!(check_thread_count(0), Ok(0));
    assert_eq!(check_thread_count(8), Ok(8));
    assert_eq!(check_thread_count(-1), Err(CoreError::NegativeThreadCount));
}

#[test]
fn names_and_lookups() {
    assert!(is_c_name("std"));
    assert!(!is_c_name("st\0d"));
    assert_eq!(lookup_outcome(false, true, CoreError::NoSuchPlugin), Err(CoreError::InvalidName));
    assert_eq!(lookup_outcome(true, false, CoreError::NoSuchPlugin), Err(CoreError::NoSuchPlugin));
    assert_eq!(lookup_outcome(true, false, CoreError::NoSuchFunction), Err(CoreError::NoSuchFunction));
    assert_eq!(lookup_outcome(true, true, CoreError::NoSuchPlugin), Ok(()));
}

#[test]
fn plugin_cursor_yields_each_once() {
    let mut c = PluginCursor::new(vec!["std".to_string(), "resize".to_string()]);
    assert_eq!(c.next().as_deref(), Some("std"));
    assert_eq!(c.next().as_deref(), Some("resize"));
    assert_eq!(c.next(), None);
    assert_eq!(c.next(), None);
}
