use rhosql::code::{
    is_out_of_order, DataType, StepResult, SQLITE3_TEXT, SQLITE_BLOB, SQLITE_BUSY, SQLITE_DONE,
    SQLITE_ERROR, SQLITE_FLOAT, SQLITE_INTEGER, SQLITE_MISUSE, SQLITE_NULL, SQLITE_OK, SQLITE_ROW,
};
use rhosql::open_flag::{
    OpenFlag, SQLITE_OPEN_CREATE, SQLITE_OPEN_FULLMUTEX, SQLITE_OPEN_MEMORY, SQLITE_OPEN_NOMUTEX,
    SQLITE_OPEN_PRIVATECACHE, SQLITE_OPEN_READONLY, SQLITE_OPEN_READWRITE,
    SQLITE_OPEN_SHAREDCACHE, SQLITE_OPEN_URI,
};

#[test]
fn result_codes_are_the_engines() {
    assert_eq!(SQLITE_OK, libsqlite3_sys::SQLITE_OK);
    assert_eq!(SQLITE_ERROR, libsqlite3_sys::SQLITE_ERROR);
    assert_eq!(SQLITE_BUSY, libsqlite3_sys::SQLITE_BUSY);
    assert_eq!(SQLITE_MISUSE, libsqlite3_sys::SQLITE_MISUSE);
    assert_eq!(SQLITE_ROW, libsqlite3_sys::SQLITE_ROW);
    assert_eq!(SQLITE_DONE, libsqlite3_sys::SQLITE_DONE);
}

#[test]
fn type_codes_are_the_engines() {
    assert_eq!(SQLITE_INTEGER, libsqlite3_sys::SQLITE_INTEGER);
    assert_eq!(SQLITE_FLOAT, libsqlite3_sys::SQLITE_FLOAT);
    assert_eq!(SQLITE3_TEXT, libsqlite3_sys::SQLITE3_TEXT);
    assert_eq!(SQLITE_BLOB, libsqlite3_sys::SQLITE_BLOB);
    assert_eq!(SQLITE_NULL, libsqlite3_sys::SQLITE_NULL);
}

#[test]
fn open_flag_bits_are_the_engines() {
    assert_eq!(SQLITE_OPEN_READONLY, libsqlite3_sys::SQLITE_OPEN_READONLY);
    assert_eq!(SQLITE_OPEN_READWRITE, libsqlite3_sys::SQLITE_OPEN_READWRITE);
    assert_eq!(SQLITE_OPEN_CREATE, libsqlite3_sys::SQLITE_OPEN_CREATE);
    assert_eq!(SQLITE_OPEN_URI, libsqlite3_sys::SQLITE_OPEN_URI);
    assert_eq!(SQLITE_OPEN_MEMORY, libsqlite3_sys::SQLITE_OPEN_MEMORY);
    assert_eq!(SQLITE_OPEN_NOMUTEX, libsqlite3_sys::SQLITE_OPEN_NOMUTEX);
    assert_eq!(SQLITE_OPEN_FULLMUTEX, libsqlite3_sys::SQLITE_OPEN_FULLMUTEX);
    assert_eq!(SQLITE_OPEN_SHAREDCACHE, libsqlite3_sys::SQLITE_OPEN_SHAREDCACHE);
    assert_eq!(SQLITE_OPEN_PRIVATECACHE, libsqlite3_sys::SQLITE_OPEN_PRIVATECACHE);
}

#[test]
fn data_type_from_code_reads_the_five_codes() {
    assert_eq!(DataType::from_code(5), Some(DataType::Null));
    assert_eq!(DataType::from_code(1), Some(DataType::Int));
    assert_eq!(DataType::from_code(2), Some(DataType::Float));
    assert_eq!(DataType::from_code(3), Some(DataType::Text));
    assert_eq!(DataType::from_code(4), Some(DataType::Blob));
    assert_eq!(DataType::from_code(0), None);
    assert_eq!(DataType::from_code(6), None);
    assert_eq!(DataType::from_code(-1), None);
}

#[test]
fn data_type_code_round_trips() {
    for ty in [DataType::Null, DataType::Int, DataType::Float, DataType::Text, DataType::Blob] {
        assert_eq!(DataType::from_code(ty.code()), Some(ty));
    }
    assert_eq!(DataType::Text.code(), 3);
}

#[test]
fn step_result_from_code_reads_row_and_done() {
    assert_eq!(StepResult::from_code(100), Some(StepResult::Row));
    assert_eq!(StepResult::from_code(101), Some(StepResult::Done));
    assert_eq!(StepResult::from_code(0), None);
    assert_eq!(StepResult::from_code(5), None);
}

#[test]
fn step_result_is_done_and_is_row() {
    assert!(StepResult::Done.is_done());
    assert!(!StepResult::Done.is_row());
    assert!(StepResult::Row.is_row());
    assert!(!StepResult::Row.is_done());
}

#[test]
fn misuse_row_and_done_are_out_of_order() {
    assert!(is_out_of_order(SQLITE_MISUSE));
    assert!(is_out_of_order(SQLITE_ROW));
    assert!(is_out_of_order(SQLITE_DONE));
    assert!(!is_out_of_order(SQLITE_OK));
    assert!(!is_out_of_order(SQLITE_BUSY));
    assert!(!is_out_of_order(SQLITE_ERROR));
}

#[test]
fn open_flag_constructors_hold_their_bits() {
    assert_eq!(OpenFlag::open_readonly().0, 1);
    assert_eq!(OpenFlag::open_readwrite().0, 2);
    assert_eq!(OpenFlag::open_readwrite_create().0, 6);
    assert_eq!(OpenFlag::open_uri().0, 64);
    assert_eq!(OpenFlag::open_memory().0, 128);
    assert_eq!(OpenFlag::open_nomutex().0, 32768);
    assert_eq!(OpenFlag::open_fullmutex().0, 65536);
    assert_eq!(OpenFlag::open_sharedcache().0, 131072);
    assert_eq!(OpenFlag::open_privatecache().0, 262144);
}

#[test]
fn open_flag_default_is_readwrite_create() {
    assert_eq!(OpenFlag::default(), OpenFlag::open_readwrite_create());
    assert_eq!(OpenFlag::default().0, 6);
}

#[test]
fn open_flag_union_joins_bits() {
    let f = OpenFlag::open_readwrite().union(OpenFlag::open_uri()).union(OpenFlag::open_memory());
    assert_eq!(f.0, 2 | 64 | 128);
    assert!(f.contains(OpenFlag::open_uri()));
    assert!(f.contains(OpenFlag::open_readwrite()));
    assert!(!f.contains(OpenFlag::open_readonly()));
    assert_eq!(f.union(f), f);
}
