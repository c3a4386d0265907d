use rhosql::error::{DecodeError, Error};
use rhosql::row::{FromColumn, FromRow, Row};
use rhosql::value::{Column, Double, ValueRef};

fn sample<'a>() -> Row<'a> {
    Row::new(vec![Column::Int(1), Column::Text(b"hello"), Column::Null, Column::Blob(&[9, 8])])
}

#[test]
fn row_len_counts_columns() {
    assert_eq!(sample().len(), 4);
    assert!(!sample().is_empty());
    let empty = Row::new(Vec::new());
    assert_eq!(empty.len(), 0);
    assert!(empty.is_empty());
}

#[test]
fn try_column_reads_a_column_in_bounds() {
    let row = sample();
    assert!(matches!(row.try_column(0), Ok(ValueRef::Int(1))));
    assert!(matches!(row.try_column(1), Ok(ValueRef::Text("hello"))));
    assert!(matches!(row.try_column(2), Ok(ValueRef::Null)));
    assert!(matches!(row.try_column(3), Ok(ValueRef::Blob(b)) if b == [9, 8]));
}

#[test]
fn try_column_at_or_past_the_column_count_is_out_of_bounds() {
    let row = sample();
    assert!(matches!(row.try_column(4), Err(DecodeError::IndexOutOfBounds)));
    assert!(matches!(row.try_column(5), Err(DecodeError::IndexOutOfBounds)));
    assert!(matches!(row.try_column(i32::MAX), Err(DecodeError::IndexOutOfBounds)));
    let empty = Row::new(Vec::new());
    assert!(matches!(empty.try_column(0), Err(DecodeError::IndexOutOfBounds)));
}

#[test]
fn try_column_below_zero_is_out_of_bounds() {
    let row = sample();
    assert!(matches!(row.try_column(-1), Err(DecodeError::IndexOutOfBounds)));
    assert!(matches!(row.try_column(i32::MIN), Err(DecodeError::IndexOutOfBounds)));
}

#[test]
fn try_column_of_broken_text_is_a_utf8_error() {
    let row = Row::new(vec![Column::Text(&[0xe2, 0x82])]);
    assert!(matches!(row.try_column(0), Err(DecodeError::Utf8)));
}

#[test]
fn try_decode_reads_and_converts() {
    let row = sample();
    assert_eq!(row.try_decode::<i32>(0).unwrap(), 1);
    assert_eq!(row.try_decode::<String>(1).unwrap(), "hello");
    assert_eq!(row.try_decode::<&str>(1).unwrap(), "hello");
    assert_eq!(row.try_decode::<()>(2).unwrap(), ());
    assert_eq!(row.try_decode::<Vec<u8>>(3).unwrap(), vec![9, 8]);
}

#[test]
fn try_decode_fails_with_the_first_thing_wrong() {
    let row = sample();
    assert!(matches!(row.try_decode::<i32>(9), Err(Error::Decode(DecodeError::IndexOutOfBounds))));
    assert!(matches!(row.try_decode::<i32>(1), Err(Error::Decode(DecodeError::InvalidDataType))));
    let broken = Row::new(vec![Column::Text(&[0xff])]);
    assert!(matches!(broken.try_decode::<i32>(0), Err(Error::Decode(DecodeError::Utf8))));
    assert!(matches!(broken.try_decode::<String>(0), Err(Error::Decode(DecodeError::Utf8))));
}

#[test]
fn tuples_are_built_from_the_leading_columns() {
    let one: (i32,) = sample().try_row().unwrap();
    assert_eq!(one, (1,));
    let two: (i32, String) = sample().try_row().unwrap();
    assert_eq!(two, (1, "hello".to_string()));
    let three: (i32, String, ()) = <(i32, String, ())>::from_row(sample()).unwrap();
    assert_eq!(three, (1, "hello".to_string(), ()));
}

#[test]
fn tuples_fail_with_the_first_failing_column() {
    let r: Result<(String, i32), Error> = sample().try_row();
    assert!(matches!(r, Err(Error::Decode(DecodeError::InvalidDataType))));
    let short = Row::new(vec![Column::Int(1)]);
    let r: Result<(i32, i32), Error> = short.try_row();
    assert!(matches!(r, Err(Error::Decode(DecodeError::IndexOutOfBounds))));
    let broken = Row::new(vec![Column::Text(&[0xff]), Column::Int(1)]);
    let r: Result<(i32, String, i32), Error> = broken.try_row();
    assert!(matches!(r, Err(Error::Decode(DecodeError::Utf8))));
    let r: Result<(i32, i32, i32), Error> =
        Row::new(vec![Column::Int(1), Column::Int(2), Column::Float(Double { bits: 0 })]).try_row();
    assert!(matches!(r, Err(Error::Decode(DecodeError::InvalidDataType))));
}

#[test]
fn type_check_accepts_the_text_code_for_str() {
    assert!(<&str as FromColumn>::type_check(3));
    assert!(!<&str as FromColumn>::type_check(1));
    assert!(!<&str as FromColumn>::type_check(4));
    assert!(!<&str as FromColumn>::type_check(0));
}

#[test]
fn tuples_of_up_to_seven_columns() {
    fn wide<'a>() -> Row<'a> {
        Row::new(vec![
            Column::Int(1),
            Column::Int(2),
            Column::Text(b"three"),
            Column::Null,
            Column::Blob(&[5]),
            Column::Int(6),
            Column::Text(b"seven"),
        ])
    }
    let four: (i32, i32, String, ()) = wide().try_row().unwrap();
    assert_eq!(four, (1, 2, "three".to_string(), ()));
    let five: (i32, i32, String, (), Vec<u8>) = wide().try_row().unwrap();
    assert_eq!(five.4, vec![5]);
    let six: (i32, i32, String, (), Vec<u8>, i32) = wide().try_row().unwrap();
    assert_eq!(six.5, 6);
    let seven: (i32, i32, String, (), Vec<u8>, i32, String) = wide().try_row().unwrap();
    assert_eq!(seven.6, "seven");
    let wrong: Result<(i32, i32, String, (), Vec<u8>, i32, i32), Error> = wide().try_row();
    assert!(matches!(wrong, Err(Error::Decode(DecodeError::InvalidDataType))));
    let short: Result<(i32, i32, i32, i32), Error> =
        Row::new(vec![Column::Int(1), Column::Int(2), Column::Int(3)]).try_row();
    assert!(matches!(short, Err(Error::Decode(DecodeError::IndexOutOfBounds))));
}
