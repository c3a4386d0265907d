use rhosql::code::DataType;
use rhosql::error::{BindError, DecodeError, Error, StringError};
use rhosql::text::Destructor;
use rhosql::value::{BindCall, Column, Double, ValueRef};

fn column_of<'a>(call: &BindCall<'a>) -> Column<'a> {
    match *call {
        BindCall::Null { .. } => Column::Null,
        BindCall::Int { value, .. } => Column::Int(value),
        BindCall::Double { double, .. } => Column::Float(double),
        BindCall::Text { text, len, .. } => Column::Text(&text.as_bytes()[..len as usize]),
        BindCall::Blob { data, len, .. } => Column::Blob(&data[..len as usize]),
    }
}

#[test]
fn bind_null_int_and_float() {
    assert!(matches!(ValueRef::Null.bind(1), Ok(BindCall::Null { index: 1 })));
    assert!(matches!(ValueRef::Int(-7).bind(2), Ok(BindCall::Int { index: 2, value: -7 })));
    let pi = Double { bits: 3.25f64.to_bits() };
    assert!(matches!(
        ValueRef::Float(pi).bind(3),
        Ok(BindCall::Double { index: 3, double }) if f64::from_bits(double.bits) == 3.25
    ));
}

#[test]
fn bind_text_carries_length_and_destructor() {
    match ValueRef::Text("hello").bind(1) {
        Ok(BindCall::Text { index, text, len, destructor }) => {
            assert_eq!(index, 1);
            assert_eq!(text, "hello");
            assert_eq!(len, 5);
            assert_eq!(destructor, Destructor::Transient);
        }
        other => panic!("unexpected {:?}", other),
    }
    match ValueRef::Text("").bind(4) {
        Ok(BindCall::Text { index, len, destructor, .. }) => {
            assert_eq!(index, 4);
            assert_eq!(len, 0);
            assert_eq!(destructor, Destructor::Static);
        }
        other => panic!("unexpected {:?}", other),
    }
}

#[test]
fn bind_blob_carries_length() {
    match ValueRef::Blob(&[1, 2, 3]).bind(16) {
        Ok(call @ BindCall::Blob { .. }) => {
            assert_eq!(call.index(), 16);
            assert!(matches!(call, BindCall::Blob { data, len: 3, .. } if data == [1, 2, 3]));
        }
        other => panic!("unexpected {:?}", other),
    }
}

#[test]
fn bind_error_names_are_distinct() {
    let too_large = BindError::String(StringError::TooLarge);
    assert!(matches!(too_large, BindError::String(StringError::TooLarge)));
    assert!(!matches!(too_large, BindError::TooManyParameters));
}

#[test]
fn decode_reads_each_datatype() {
    assert!(matches!(ValueRef::decode(&Column::Null), Ok(ValueRef::Null)));
    assert!(matches!(ValueRef::decode(&Column::Int(420)), Ok(ValueRef::Int(420))));
    let d = Double { bits: (-0.5f64).to_bits() };
    assert!(matches!(ValueRef::decode(&Column::Float(d)), Ok(ValueRef::Float(x)) if x == d));
    assert!(matches!(ValueRef::decode(&Column::Text(b"content")), Ok(ValueRef::Text("content"))));
    assert!(matches!(ValueRef::decode(&Column::Blob(&[0, 255])), Ok(ValueRef::Blob(b)) if b == [0, 255]));
}

#[test]
fn decode_refuses_text_that_is_not_utf8() {
    assert!(matches!(ValueRef::decode(&Column::Text(&[b'a', 0xc3])), Err(DecodeError::Utf8)));
    assert!(matches!(ValueRef::decode(&Column::Text(&[0xff])), Err(DecodeError::Utf8)));
    assert!(matches!(ValueRef::decode(&Column::Blob(&[0xff])), Ok(ValueRef::Blob(_))));
}

#[test]
fn decode_text_is_borrowed_from_the_column() {
    let buffer = String::from("zero copy").into_bytes();
    match ValueRef::decode(&Column::Text(&buffer)) {
        Ok(ValueRef::Text(t)) => assert_eq!(t.as_ptr(), buffer.as_ptr()),
        other => panic!("unexpected {:?}", other),
    }
}

#[test]
fn column_and_value_tell_their_datatype() {
    assert_eq!(Column::Null.data_type(), DataType::Null);
    assert_eq!(Column::Int(1).data_type(), DataType::Int);
    assert_eq!(Column::Float(Double { bits: 0 }).data_type(), DataType::Float);
    assert_eq!(Column::Text(b"").data_type(), DataType::Text);
    assert_eq!(Column::Blob(b"").data_type(), DataType::Blob);
    assert_eq!(ValueRef::Text("x").data_type(), DataType::Text);
    assert_eq!(ValueRef::Blob(b"x").data_type(), DataType::Blob);
    assert_eq!(ValueRef::Null.data_type(), DataType::Null);
}

#[test]
fn round_trip_of_each_tagged_value() {
    let nan = Double { bits: f64::NAN.to_bits() };
    let values = [
        ValueRef::Null,
        ValueRef::Int(i32::MIN),
        ValueRef::Int(i32::MAX),
        ValueRef::Float(Double { bits: 1.5f64.to_bits() }),
        ValueRef::Float(nan),
        ValueRef::Text("hello"),
        ValueRef::Text(""),
        ValueRef::Text("gr\u{fc}\u{df}e \u{1f600}"),
        ValueRef::Blob(&[]),
        ValueRef::Blob(&[0, 1, 2, 0, 255]),
    ];
    for v in values {
        let call = v.bind(1).unwrap();
        let column = column_of(&call);
        let back = ValueRef::decode(&column).unwrap();
        match (v, back) {
            (ValueRef::Null, ValueRef::Null) => {}
            (ValueRef::Int(a), ValueRef::Int(b)) => assert_eq!(a, b),
            (ValueRef::Float(a), ValueRef::Float(b)) => assert_eq!(a, b),
            (ValueRef::Text(a), ValueRef::Text(b)) => assert_eq!(a, b),
            (ValueRef::Blob(a), ValueRef::Blob(b)) => assert_eq!(a, b),
            (a, b) => panic!("{:?} came back as {:?}", a, b),
        }
    }
}

#[test]
fn try_decode_into_the_matching_type() {
    assert_eq!(ValueRef::Int(5).try_decode::<i32>().unwrap(), 5);
    assert_eq!(ValueRef::Text("a").try_decode::<&str>().unwrap(), "a");
    assert_eq!(ValueRef::Text("a").try_decode::<String>().unwrap(), "a".to_string());
    assert_eq!(ValueRef::Blob(b"ab").try_decode::<&[u8]>().unwrap(), b"ab");
    assert_eq!(ValueRef::Blob(b"ab").try_decode::<Vec<u8>>().unwrap(), vec![b'a', b'b']);
    assert_eq!(ValueRef::Null.try_decode::<()>().unwrap(), ());
    let d = Double { bits: 2.0f64.to_bits() };
    assert_eq!(ValueRef::Float(d).try_decode::<Double>().unwrap(), d);
}

#[test]
fn try_decode_into_another_type_is_a_mismatch() {
    assert!(matches!(
        ValueRef::Int(5).try_decode::<String>(),
        Err(Error::Decode(DecodeError::InvalidDataType))
    ));
    assert!(matches!(
        ValueRef::Text("5").try_decode::<i32>(),
        Err(Error::Decode(DecodeError::InvalidDataType))
    ));
    assert!(matches!(
        ValueRef::Null.try_decode::<i32>(),
        Err(Error::Decode(DecodeError::InvalidDataType))
    ));
    assert!(matches!(
        ValueRef::Blob(b"x").try_decode::<&str>(),
        Err(Error::Decode(DecodeError::InvalidDataType))
    ));
    assert!(matches!(
        ValueRef::Int(0).try_decode::<()>(),
        Err(Error::Decode(DecodeError::InvalidDataType))
    ));
    assert!(matches!(
        ValueRef::Int(0).try_decode::<Double>(),
        Err(Error::Decode(DecodeError::InvalidDataType))
    ));
    assert!(matches!(
        ValueRef::Text("x").try_decode::<Vec<u8>>(),
        Err(Error::Decode(DecodeError::InvalidDataType))
    ));
}

#[test]
fn values_are_made_from_rust_values() {
    assert!(matches!(ValueRef::from(()), ValueRef::Null));
    assert!(matches!(ValueRef::from(7), ValueRef::Int(7)));
    assert!(matches!(ValueRef::from(true), ValueRef::Int(1)));
    assert!(matches!(ValueRef::from(false), ValueRef::Int(0)));
    assert!(matches!(ValueRef::from("Control"), ValueRef::Text("Control")));
    let bytes: &[u8] = &[1, 2];
    assert!(matches!(ValueRef::from(bytes), ValueRef::Blob(b) if b == [1, 2]));
    let d = Double { bits: 0.25f64.to_bits() };
    assert!(matches!(ValueRef::from(d), ValueRef::Float(x) if x == d));
}
