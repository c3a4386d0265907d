use rhosql::cache::StatementCache;
use rhosql::connection::{
    busy_timeout_millis, configure_result, is_threadsafe, open_path, open_result, prepare_result,
    Configure, Connection, BUSY_TIMEOUT_MILLIS, SERIALIZE_MODE, STATEMENT_CACHE_SIZE,
};
use rhosql::error::{OpenError, StringError};

#[test]
fn cache_starts_empty_with_its_capacity() {
    let cache = StatementCache::new(3);
    assert_eq!(cache.len(), 0);
    assert_eq!(cache.limit(), 3);
}

#[test]
fn cache_finds_what_was_put_in() {
    let mut cache = StatementCache::new(3);
    assert_eq!(cache.lookup("select 1"), None);
    assert_eq!(cache.insert("select 1", 11), None);
    assert_eq!(cache.insert("select 2", 22), None);
    assert_eq!(cache.len(), 2);
    assert_eq!(cache.lookup("select 1"), Some(11));
    assert_eq!(cache.lookup("select 2"), Some(22));
    assert_eq!(cache.lookup("select 3"), None);
    assert_eq!(cache.len(), 2);
}

#[test]
fn cache_never_exceeds_its_capacity() {
    let mut cache = StatementCache::new(4);
    for i in 0..100u64 {
        cache.insert(&format!("select {}", i), i);
        assert!(cache.len() <= 4);
    }
    assert_eq!(cache.len(), 4);
    assert_eq!(cache.limit(), 4);
}

#[test]
fn cache_evicts_the_least_recently_used() {
    let mut cache = StatementCache::new(2);
    assert_eq!(cache.insert("a", 1), None);
    assert_eq!(cache.insert("b", 2), None);
    assert_eq!(cache.insert("c", 3), Some(1));
    assert_eq!(cache.lookup("a"), None);
    assert_eq!(cache.lookup("b"), Some(2));
    assert_eq!(cache.insert("d", 4), Some(3));
    assert_eq!(cache.lookup("b"), Some(2));
    assert_eq!(cache.lookup("d"), Some(4));
    assert_eq!(cache.len(), 2);
}

#[test]
fn cache_lookup_makes_an_entry_the_most_recent() {
    let mut cache = StatementCache::new(3);
    cache.insert("a", 1);
    cache.insert("b", 2);
    cache.insert("c", 3);
    assert_eq!(cache.lookup("a"), Some(1));
    assert_eq!(cache.insert("d", 4), Some(2));
    assert_eq!(cache.insert("e", 5), Some(3));
    assert_eq!(cache.insert("f", 6), Some(1));
}

#[test]
fn cache_insert_of_a_cached_text_displaces_its_old_handle() {
    let mut cache = StatementCache::new(2);
    cache.insert("a", 1);
    cache.insert("b", 2);
    assert_eq!(cache.insert("a", 10), Some(1));
    assert_eq!(cache.len(), 2);
    assert_eq!(cache.lookup("a"), Some(10));
    assert_eq!(cache.insert("c", 3), Some(2));
}

#[test]
fn cache_keeps_texts_apart() {
    let mut cache = StatementCache::new(8);
    cache.insert("select 1", 1);
    cache.insert("select 1 ", 2);
    cache.insert("SELECT 1", 3);
    assert_eq!(cache.lookup("select 1"), Some(1));
    assert_eq!(cache.lookup("select 1 "), Some(2));
    assert_eq!(cache.lookup("SELECT 1"), Some(3));
    assert_eq!(cache.lookup(""), None);
}

#[test]
fn cache_of_one_holds_the_last_statement() {
    let mut cache = StatementCache::new(1);
    assert_eq!(cache.insert("a", 1), None);
    assert_eq!(cache.insert("b", 2), Some(1));
    assert_eq!(cache.lookup("a"), None);
    assert_eq!(cache.lookup("b"), Some(2));
}

#[test]
fn connection_caches_24_statements() {
    assert_eq!(STATEMENT_CACHE_SIZE, 24);
    let mut conn = Connection::new(1);
    for i in 0..24u64 {
        let (_, evicted) = conn.compiled(&format!("q{}", i), i);
        assert_eq!(evicted, None);
    }
    assert_eq!(conn.cached_statements(), 24);
    let (_, evicted) = conn.compiled("one more", 24);
    assert_eq!(evicted, Some(0));
    assert_eq!(conn.cached_statements(), 24);
}

#[test]
fn prepare_twice_compiles_once() {
    let mut conn = Connection::new(1);
    assert_eq!(conn.compiles(), 0);
    assert!(conn.prepare("select rowid,a from t").is_none());
    let (stmt, evicted) = conn.compiled("select rowid,a from t", 7);
    assert_eq!(stmt.handle(), 7);
    assert_eq!(evicted, None);
    assert_eq!(conn.compiles(), 1);
    let again = conn.prepare("select rowid,a from t").unwrap();
    assert_eq!(again.handle(), 7);
    assert_eq!(conn.compiles(), 1);
    let third = conn.prepare("select rowid,a from t").unwrap();
    assert_eq!(third.handle(), 7);
    assert_eq!(conn.compiles(), 1);
    assert_eq!(conn.cached_statements(), 1);
}

#[test]
fn with_cache_size_sets_the_capacity() {
    let mut conn = Connection::with_cache_size(1, 1);
    conn.compiled("a", 1);
    let (stmt, evicted) = conn.compiled("b", 2);
    assert_eq!(stmt.handle(), 2);
    assert_eq!(evicted, Some(1));
    assert!(conn.prepare("a").is_none());
    assert_eq!(conn.prepare("b").unwrap().handle(), 2);
    assert_eq!(conn.compiles(), 2);
}

#[test]
fn configuration_is_extended_codes_then_busy_timeout() {
    assert_eq!(BUSY_TIMEOUT_MILLIS, 5000);
    assert_eq!(
        Connection::configuration(),
        (Configure::ExtendedResultCodes(true), Configure::BusyTimeout(5000))
    );
}

#[test]
fn only_serialized_mode_is_threadsafe() {
    assert_eq!(SERIALIZE_MODE, 1);
    assert!(is_threadsafe(1));
    assert!(!is_threadsafe(0));
    assert!(!is_threadsafe(2));
}

#[test]
fn open_path_terminates_the_path() {
    assert_eq!(open_path(1, ":memory:").unwrap(), b":memory:\0".to_vec());
    assert_eq!(open_path(1, "db.sqlite").unwrap(), b"db.sqlite\0".to_vec());
}

#[test]
fn open_path_refuses_an_engine_that_is_not_serialized() {
    assert!(matches!(open_path(0, ":memory:"), Err(OpenError::NotSerializeMode)));
    assert!(matches!(open_path(2, "a\0b"), Err(OpenError::NotSerializeMode)));
}

#[test]
fn open_path_refuses_a_zero_byte() {
    assert!(matches!(
        open_path(1, "a\0b"),
        Err(OpenError::String(StringError::NulError { position: 1 }))
    ));
}

#[test]
fn open_result_reads_code_and_handle() {
    assert!(open_result(0, false, None).is_ok());
    match open_result(14, false, Some(b"unable to open database file")) {
        Err(OpenError::Database(e)) => {
            assert_eq!(e.code, 14);
            assert_eq!(e.message, "unable to open database file");
        }
        other => panic!("unexpected {:?}", other),
    }
    match open_result(7, true, Some(b"ignored")) {
        Err(OpenError::Database(e)) => {
            assert_eq!(e.code, 7);
            assert_eq!(e.message, libsqlite3_sys::code_to_str(7));
        }
        other => panic!("unexpected {:?}", other),
    }
    assert!(matches!(open_result(0, true, None), Err(OpenError::Database(e)) if e.code == 0));
}

#[test]
fn configure_and_prepare_results_read_the_code() {
    assert!(configure_result(0, None).is_ok());
    assert_eq!(configure_result(1, Some(b"m")).unwrap_err().0.message, "m");
    assert!(prepare_result(0, None).is_ok());
    let e = prepare_result(1, Some(b"near \"selec\": syntax error")).unwrap_err();
    assert_eq!(e.0.code, 1);
    assert_eq!(e.0.message, "near \"selec\": syntax error");
    assert!(prepare_result(5, None).unwrap_err().is_busy());
}

#[test]
fn busy_timeout_is_clipped() {
    assert_eq!(busy_timeout_millis(0), 0);
    assert_eq!(busy_timeout_millis(5000), 5000);
    assert_eq!(busy_timeout_millis(i32::MAX as u128), i32::MAX);
    assert_eq!(busy_timeout_millis(i32::MAX as u128 + 1), i32::MAX);
    assert_eq!(busy_timeout_millis(u128::MAX), i32::MAX);
}

#[test]
fn cache_evicts_from_the_back_until_empty() {
    let mut cache = StatementCache::new(3);
    assert_eq!(cache.evict(), None);
    cache.insert("a", 1);
    cache.insert("b", 2);
    cache.insert("c", 3);
    assert_eq!(cache.lookup("a"), Some(1));
    assert_eq!(cache.evict(), Some(2));
    assert_eq!(cache.len(), 2);
    assert_eq!(cache.evict(), Some(3));
    assert_eq!(cache.evict(), Some(1));
    assert_eq!(cache.evict(), None);
    assert_eq!(cache.len(), 0);
}

#[test]
fn cache_clear_hands_out_every_handle_least_recent_first() {
    let mut cache = StatementCache::new(4);
    cache.insert("a", 1);
    cache.insert("b", 2);
    cache.insert("c", 3);
    cache.lookup("a");
    assert_eq!(cache.clear(), vec![2, 3, 1]);
    assert_eq!(cache.len(), 0);
    assert_eq!(cache.clear(), Vec::<u64>::new());
    assert_eq!(cache.limit(), 4);
}

#[test]
fn close_hands_out_the_statements_to_finalize() {
    let mut conn = Connection::new(99);
    assert!(conn.is_open());
    conn.compiled("a", 10);
    conn.compiled("b", 20);
    assert_eq!(conn.close(), (vec![10, 20], Some(99)));
    assert!(!conn.is_open());
    assert_eq!(conn.cached_statements(), 0);
    assert_eq!(conn.close(), (Vec::<u64>::new(), None));
    assert!(conn.prepare("a").is_none());
    assert_eq!(conn.compiles(), 2);
}

#[test]
fn close_of_a_fresh_connection_owes_the_database_alone() {
    let mut conn = Connection::with_cache_size(5, 2);
    assert_eq!(conn.close(), (Vec::<u64>::new(), Some(5)));
    assert_eq!(conn.close(), (Vec::<u64>::new(), None));
}
