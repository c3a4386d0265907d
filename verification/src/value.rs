//! The value codec: what is bound to a parameter and what is read from a column.
use vstd::prelude::*;
use vstd::std_specs::convert::FromSpecImpl;
use vstd::string::StringSliceAdditionalSpecFns;
use vstd::utf8::{decode_utf8, encode_utf8, valid_utf8};
use crate::code::DataType;
use crate::error::{BindError, DecodeError, StringError};
use crate::text::{
    as_sqlite_str, blob_length, destructor_for, text_of_bytes, Destructor, MAX_LENGTH,
};

verus! {

/// A 64-bit IEEE floating point number, held as its bit pattern.
#[derive(Debug, Clone, Copy, PartialEq, Eq, Structural)]
pub struct Double {
    pub bits: u64,
}

/// A borrowed sqlite value.
#[derive(Debug, Clone, Copy)]
pub enum ValueRef<'a> {
    Null,
    Int(i32),
    Float(Double),
    Text(&'a str),
    Blob(&'a [u8]),
}

/// What a [`ValueRef`] holds.
pub enum Value {
    Null,
    Int(i32),
    Float(Double),
    Text(Seq<char>),
    Blob(Seq<u8>),
}

/// A payload as it crosses the boundary to the engine, in either direction: text is
/// bytes there.
pub enum Wire {
    Null,
    Int(i32),
    Float(Double),
    Text(Seq<u8>),
    Blob(Seq<u8>),
}

/// One column of the current row as the engine hands it out: the payload that goes
/// with the column's datatype, text still as bytes. The buffers are the engine's.
#[derive(Debug, Clone, Copy)]
pub enum Column<'a> {
    Null,
    Int(i32),
    Float(Double),
    Text(&'a [u8]),
    Blob(&'a [u8]),
}

/// The native call that binds one parameter, with its arguments.
#[derive(Debug, Clone, Copy)]
pub enum BindCall<'a> {
    Null { index: i32 },
    Int { index: i32, value: i32 },
    Double { index: i32, double: Double },
    Text { index: i32, text: &'a str, len: i32, destructor: Destructor },
    Blob { index: i32, data: &'a [u8], len: i32 },
}

impl<'a> View for ValueRef<'a> {
    type V = Value;

    open spec fn view(&self) -> Value {
        match *self {
            ValueRef::Null => Value::Null,
            ValueRef::Int(i) => Value::Int(i),
            ValueRef::Float(d) => Value::Float(d),
            ValueRef::Text(t) => Value::Text(t@),
            ValueRef::Blob(b) => Value::Blob(b@),
        }
    }
}

impl Value {
    /// The datatype of the value.
    pub open spec fn data_type(self) -> DataType {
        match self {
            Value::Null => DataType::Null,
            Value::Int(_) => DataType::Int,
            Value::Float(_) => DataType::Float,
            Value::Text(_) => DataType::Text,
            Value::Blob(_) => DataType::Blob,
        }
    }
}

impl Wire {
    /// The payload with which a value is bound: its text as UTF-8.
    pub open spec fn of_value(value: Value) -> Wire {
        match value {
            Value::Null => Wire::Null,
            Value::Int(i) => Wire::Int(i),
            Value::Float(d) => Wire::Float(d),
            Value::Text(t) => Wire::Text(encode_utf8(t)),
            Value::Blob(b) => Wire::Blob(b),
        }
    }
}

impl<'a> Column<'a> {
    /// The payload of the column.
    pub open spec fn wire(&self) -> Wire {
        match *self {
            Column::Null => Wire::Null,
            Column::Int(i) => Wire::Int(i),
            Column::Float(d) => Wire::Float(d),
            Column::Text(bytes) => Wire::Text(bytes@),
            Column::Blob(bytes) => Wire::Blob(bytes@),
        }
    }

    /// The datatype of the column.
    pub open spec fn spec_data_type(&self) -> DataType {
        match *self {
            Column::Null => DataType::Null,
            Column::Int(_) => DataType::Int,
            Column::Float(_) => DataType::Float,
            Column::Text(_) => DataType::Text,
            Column::Blob(_) => DataType::Blob,
        }
    }

    /// Whether the column can be decoded: its text, if it is one, is UTF-8.
    pub open spec fn decodable(&self) -> bool {
        match *self {
            Column::Text(bytes) => valid_utf8(bytes@),
            _ => true,
        }
    }

    /// The value that a decodable column holds.
    pub open spec fn value(&self) -> Value {
        match *self {
            Column::Null => Value::Null,
            Column::Int(i) => Value::Int(i),
            Column::Float(d) => Value::Float(d),
            Column::Text(bytes) => Value::Text(decode_utf8(bytes@)),
            Column::Blob(bytes) => Value::Blob(bytes@),
        }
    }

    /// The datatype of the column.
    #[verifier::when_used_as_spec(spec_data_type)]
    pub fn data_type(&self) -> (ty: DataType)
        ensures
            ty == self.spec_data_type(),
    {
        match self {
            Column::Null => DataType::Null,
            Column::Int(_) => DataType::Int,
            Column::Float(_) => DataType::Float,
            Column::Text(_) => DataType::Text,
            Column::Blob(_) => DataType::Blob,
        }
    }
}

impl<'a> BindCall<'a> {
    /// The one-based index of the parameter that the call binds.
    pub open spec fn spec_index(&self) -> i32 {
        match *self {
            BindCall::Null { index } => index,
            BindCall::Int { index, .. } => index,
            BindCall::Double { index, .. } => index,
            BindCall::Text { index, .. } => index,
            BindCall::Blob { index, .. } => index,
        }
    }

    /// The payload that the call hands to the engine.
    pub open spec fn wire(&self) -> Wire {
        match *self {
            BindCall::Null { .. } => Wire::Null,
            BindCall::Int { value, .. } => Wire::Int(value),
            BindCall::Double { double, .. } => Wire::Float(double),
            BindCall::Text { text, .. } => Wire::Text(text.spec_bytes()),
            BindCall::Blob { data, .. } => Wire::Blob(data@),
        }
    }

    /// The length and destructor of the call are those that go with its buffer.
    pub open spec fn well_sized(&self) -> bool {
        match *self {
            BindCall::Text { text, len, destructor, .. } => {
                &&& len == text.spec_bytes().len()
                &&& destructor == destructor_for(len as int)
            },
            BindCall::Blob { data, len, .. } => if data@.len() <= MAX_LENGTH {
                len == data@.len()
            } else {
                len == MAX_LENGTH
            },
            _ => true,
        }
    }

    /// The one-based index of the parameter that the call binds.
    #[verifier::when_used_as_spec(spec_index)]
    pub fn index(&self) -> (index: i32)
        ensures
            index == self.spec_index(),
    {
        match self {
            BindCall::Null { index } => *index,
            BindCall::Int { index, .. } => *index,
            BindCall::Double { index, .. } => *index,
            BindCall::Text { index, .. } => *index,
            BindCall::Blob { index, .. } => *index,
        }
    }
}

impl<'a> ValueRef<'a> {
    /// Whether the value can be bound: its text, if it is one, is no longer than the
    /// engine takes.
    pub open spec fn bindable(&self) -> bool {
        match *self {
            ValueRef::Text(t) => t.spec_bytes().len() <= MAX_LENGTH,
            _ => true,
        }
    }

    /// The call that binds this value to the parameter at `idx`.
    ///
    /// Note that parameter index is one based.
    pub fn bind(&self, idx: i32) -> (r: Result<BindCall<'a>, BindError>)
        ensures
            r is Ok <==> self.bindable(),
            r matches Ok(call) ==> call.spec_index() == idx && call.wire() == Wire::of_value(
                self@,
            ) && call.well_sized(),
            r matches Err(e) ==> e matches BindError::String(StringError::TooLarge),
    {
        match *self {
            ValueRef::Null => Ok(BindCall::Null { index: idx }),
            ValueRef::Int(value) => Ok(BindCall::Int { index: idx, value }),
            ValueRef::Float(double) => Ok(BindCall::Double { index: idx, double }),
            ValueRef::Text(text) => match as_sqlite_str(text) {
                Ok((len, destructor)) => Ok(BindCall::Text { index: idx, text, len, destructor }),
                Err(e) => Err(BindError::String(e)),
            },
            ValueRef::Blob(data) => Ok(
                BindCall::Blob { index: idx, data, len: blob_length(data.len()) },
            ),
        }
    }

    /// Reads a column: the payload under its datatype, text checked to be UTF-8. The
    /// text and blob of the result are borrowed from the column's buffers.
    pub fn decode(column: &Column<'a>) -> (r: Result<ValueRef<'a>, DecodeError>)
        ensures
            r is Ok <==> column.decodable(),
            r matches Ok(v) ==> v@ == column.value(),
            r matches Err(e) ==> e == DecodeError::Utf8,
    {
        match *column {
            Column::Null => Ok(ValueRef::Null),
            Column::Int(i) => Ok(ValueRef::Int(i)),
            Column::Float(d) => Ok(ValueRef::Float(d)),
            Column::Text(bytes) => match text_of_bytes(bytes) {
                Some(text) => Ok(ValueRef::Text(text)),
                None => Err(DecodeError::Utf8),
            },
            Column::Blob(bytes) => Ok(ValueRef::Blob(bytes)),
        }
    }

    /// The datatype of the value.
    pub fn data_type(&self) -> (ty: DataType)
        ensures
            ty == self@.data_type(),
    {
        match self {
            ValueRef::Null => DataType::Null,
            ValueRef::Int(_) => DataType::Int,
            ValueRef::Float(_) => DataType::Float,
            ValueRef::Text(_) => DataType::Text,
            ValueRef::Blob(_) => DataType::Blob,
        }
    }
}

impl<'a> From<()> for ValueRef<'a> {
    /// `()` stands for NULL.
    fn from(_value: ()) -> (v: Self) {
        ValueRef::Null
    }
}

impl<'a> FromSpecImpl<()> for ValueRef<'a> {
    open spec fn obeys_from_spec() -> bool {
        true
    }

    open spec fn from_spec(_value: ()) -> Self {
        ValueRef::Null
    }
}

impl<'a> From<i32> for ValueRef<'a> {
    /// An integer.
    fn from(value: i32) -> (v: Self) {
        ValueRef::Int(value)
    }
}

impl<'a> FromSpecImpl<i32> for ValueRef<'a> {
    open spec fn obeys_from_spec() -> bool {
        true
    }

    open spec fn from_spec(value: i32) -> Self {
        ValueRef::Int(value)
    }
}

impl<'a> From<bool> for ValueRef<'a> {
    /// A truth value is the integer 1 or 0.
    fn from(value: bool) -> (v: Self) {
        ValueRef::Int(if value { 1 } else { 0 })
    }
}

impl<'a> FromSpecImpl<bool> for ValueRef<'a> {
    open spec fn obeys_from_spec() -> bool {
        true
    }

    open spec fn from_spec(value: bool) -> Self {
        ValueRef::Int(if value { 1 } else { 0 })
    }
}

impl<'a> From<Double> for ValueRef<'a> {
    /// A float.
    fn from(value: Double) -> (v: Self) {
        ValueRef::Float(value)
    }
}

impl<'a> FromSpecImpl<Double> for ValueRef<'a> {
    open spec fn obeys_from_spec() -> bool {
        true
    }

    open spec fn from_spec(value: Double) -> Self {
        ValueRef::Float(value)
    }
}

impl<'a> From<&'a str> for ValueRef<'a> {
    /// A borrowed text.
    fn from(value: &'a str) -> (v: Self) {
        ValueRef::Text(value)
    }
}

impl<'a> FromSpecImpl<&'a str> for ValueRef<'a> {
    open spec fn obeys_from_spec() -> bool {
        true
    }

    open spec fn from_spec(value: &'a str) -> Self {
        ValueRef::Text(value)
    }
}

impl<'a> From<&'a [u8]> for ValueRef<'a> {
    /// A borrowed blob.
    fn from(value: &'a [u8]) -> (v: Self) {
        ValueRef::Blob(value)
    }
}

impl<'a> FromSpecImpl<&'a [u8]> for ValueRef<'a> {
    open spec fn obeys_from_spec() -> bool {
        true
    }

    open spec fn from_spec(value: &'a [u8]) -> Self {
        ValueRef::Blob(value)
    }
}

/// The codec loses nothing: where the engine hands back, as a column, the payload
/// that a value of any of the five kinds was bound with, the column can be decoded
/// and decodes to an equal value.
pub proof fn lemma_bind_decode_round_trip(value: Value, column: Column<'_>)
    requires
        column.wire() == Wire::of_value(value),
    ensures
        column.decodable(),
        column.value() == value,
        column.spec_data_type() == value.data_type(),
{
    broadcast use vstd::utf8::encode_utf8_valid_utf8, vstd::utf8::encode_utf8_decode_utf8;

}

} // verus!
