//! One result row, and the decoding of its columns into Rust values.
use vstd::prelude::*;
use vstd::slice::slice_to_vec;
use crate::code::{DataType, SQLITE3_TEXT};
use crate::error::{DecodeError, Error};
use crate::value::{Column, Double, Value, ValueRef};

verus! {

/// A type that can be construced from sqlite value.
pub trait Decode<'a>: Sized {
    /// The datatype that decodes into this type.
    spec fn accepts(ty: DataType) -> bool;

    /// `self` is what `value` decodes to.
    spec fn holds(&self, value: Value) -> bool;

    /// Decodes `value`, which must be of the datatype that the type accepts.
    fn decode(value: ValueRef<'a>) -> (r: Result<Self, Error>)
        ensures
            r is Ok <==> Self::accepts(value@.data_type()),
            r matches Ok(d) ==> d.holds(value@),
            r matches Err(e) ==> e matches Error::Decode(DecodeError::InvalidDataType),
    ;
}

impl<'a> Decode<'a> for &'a str {
    open spec fn accepts(ty: DataType) -> bool {
        ty == DataType::Text
    }

    open spec fn holds(&self, value: Value) -> bool {
        value == Value::Text(self@)
    }

    fn decode(value: ValueRef<'a>) -> (r: Result<Self, Error>) {
        match value {
            ValueRef::Text(t) => Ok(t),
            _ => Err(Error::Decode(DecodeError::InvalidDataType)),
        }
    }
}

impl<'a> Decode<'a> for &'a [u8] {
    open spec fn accepts(ty: DataType) -> bool {
        ty == DataType::Blob
    }

    open spec fn holds(&self, value: Value) -> bool {
        value == Value::Blob(self@)
    }

    fn decode(value: ValueRef<'a>) -> (r: Result<Self, Error>) {
        match value {
            ValueRef::Blob(b) => Ok(b),
            _ => Err(Error::Decode(DecodeError::InvalidDataType)),
        }
    }
}

impl<'a> Decode<'a> for () {
    open spec fn accepts(ty: DataType) -> bool {
        ty == DataType::Null
    }

    open spec fn holds(&self, value: Value) -> bool {
        value == Value::Null
    }

    fn decode(value: ValueRef<'a>) -> (r: Result<Self, Error>) {
        match value {
            ValueRef::Null => Ok(()),
            _ => Err(Error::Decode(DecodeError::InvalidDataType)),
        }
    }
}

impl<'a> Decode<'a> for i32 {
    open spec fn accepts(ty: DataType) -> bool {
        ty == DataType::Int
    }

    open spec fn holds(&self, value: Value) -> bool {
        value == Value::Int(*self)
    }

    fn decode(value: ValueRef<'a>) -> (r: Result<Self, Error>) {
        match value {
            ValueRef::Int(i) => Ok(i),
            _ => Err(Error::Decode(DecodeError::InvalidDataType)),
        }
    }
}

impl<'a> Decode<'a> for Double {
    open spec fn accepts(ty: DataType) -> bool {
        ty == DataType::Float
    }

    open spec fn holds(&self, value: Value) -> bool {
        value == Value::Float(*self)
    }

    fn decode(value: ValueRef<'a>) -> (r: Result<Self, Error>) {
        match value {
            ValueRef::Float(d) => Ok(d),
            _ => Err(Error::Decode(DecodeError::InvalidDataType)),
        }
    }
}

impl<'a> Decode<'a> for String {
    open spec fn accepts(ty: DataType) -> bool {
        ty == DataType::Text
    }

    open spec fn holds(&self, value: Value) -> bool {
        value == Value::Text(self@)
    }

    fn decode(value: ValueRef<'a>) -> (r: Result<Self, Error>) {
        match value {
            ValueRef::Text(t) => Ok(t.to_owned()),
            _ => Err(Error::Decode(DecodeError::InvalidDataType)),
        }
    }
}

impl<'a> Decode<'a> for Vec<u8> {
    open spec fn accepts(ty: DataType) -> bool {
        ty == DataType::Blob
    }

    open spec fn holds(&self, value: Value) -> bool {
        value == Value::Blob(self@)
    }

    fn decode(value: ValueRef<'a>) -> (r: Result<Self, Error>) {
        match value {
            ValueRef::Blob(b) => Ok(slice_to_vec(b)),
            _ => Err(Error::Decode(DecodeError::InvalidDataType)),
        }
    }
}

impl<'a> ValueRef<'a> {
    /// Decodes the value into `D`.
    pub fn try_decode<D: Decode<'a>>(&self) -> (r: Result<D, Error>)
        ensures
            r is Ok <==> D::accepts(self@.data_type()),
            r matches Ok(d) ==> d.holds(self@),
            r matches Err(e) ==> e matches Error::Decode(DecodeError::InvalidDataType),
    {
        D::decode(*self)
    }
}

/// The columns of the row that the last step produced. The row borrows the
/// engine's buffers, which hold until the statement is stepped again.
#[derive(Debug)]
pub struct Row<'row> {
    columns: Vec<Column<'row>>,
}

impl<'row> Row<'row> {
    /// The columns, first to last.
    pub closed spec fn view(&self) -> Seq<Column<'row>> {
        self.columns@
    }

    /// Whether the row has a column at `idx`.
    pub open spec fn in_bounds(&self, idx: i32) -> bool {
        0 <= idx < self@.len()
    }

    /// What reading the column at `idx` fails with, if it fails.
    pub open spec fn column_error(&self, idx: i32) -> Option<DecodeError> {
        if !self.in_bounds(idx) {
            Some(DecodeError::IndexOutOfBounds)
        } else if !self@[idx as int].decodable() {
            Some(DecodeError::Utf8)
        } else {
            None
        }
    }

    /// What decoding the column at `idx` into `D` fails with, if it fails.
    pub open spec fn decode_error<D: Decode<'row>>(&self, idx: i32) -> Option<DecodeError> {
        match self.column_error(idx) {
            Some(e) => Some(e),
            None => if D::accepts(self@[idx as int].spec_data_type()) {
                None
            } else {
                Some(DecodeError::InvalidDataType)
            },
        }
    }

    /// The row of the given columns.
    pub fn new(columns: Vec<Column<'row>>) -> (row: Self)
        ensures
            row@ == columns@,
    {
        Row { columns }
    }

    /// try get single column from given index
    ///
    /// An index at which the row has no column is refused and nothing is read.
    pub fn try_column(&self, idx: i32) -> (r: Result<ValueRef<'row>, DecodeError>)
        ensures
            !self.in_bounds(idx) <==> r == Err::<ValueRef<'row>, DecodeError>(
                DecodeError::IndexOutOfBounds,
            ),
            r matches Err(e) ==> self.column_error(idx) == Some(e),
            r matches Ok(v) ==> self.column_error(idx).is_none() && v@ == self@[idx as int].value(),
    {
        if idx < 0 {
            return Err(DecodeError::IndexOutOfBounds);
        }
        let at: usize = idx as usize;
        if at >= self.columns.len() {
            return Err(DecodeError::IndexOutOfBounds);
        }
        ValueRef::decode(&self.columns[at])
    }

    /// try decode single column from given index
    pub fn try_decode<D: Decode<'row>>(&self, idx: i32) -> (r: Result<D, Error>)
        ensures
            r is Ok <==> self.decode_error::<D>(idx).is_none(),
            r matches Ok(d) ==> d.holds(self@[idx as int].value()),
            r matches Err(e) ==> e matches Error::Decode(de) && Some(de) == self.decode_error::<D>(
                idx,
            ),
    {
        match self.try_column(idx) {
            Ok(value) => value.try_decode::<D>(),
            Err(e) => Err(Error::Decode(e)),
        }
    }

    /// return the column count
    pub fn len(&self) -> (n: usize)
        ensures
            n == self@.len(),
    {
        self.columns.len()
    }

    /// returns is no column returned
    #[must_use]
    pub fn is_empty(&self) -> (b: bool)
        ensures
            b == (self@.len() == 0),
    {
        self.columns.len() == 0
    }

    /// try decode current row
    ///
    /// The result is what `D` builds from the row, by the contract of its own
    /// `from_row`.
    pub fn try_row<D: FromRow>(self) -> (r: Result<D, Error>)
        ensures
            call_ensures(D::from_row, (self,), r),
    {
        D::from_row(self)
    }
}

/// A type that can be construced from sqlite row.
pub trait FromRow: Sized {
    /// Builds the value from the columns of `row`.
    fn from_row(row: Row<'_>) -> Result<Self, Error>;
}

/// The first of the given failures, in their order.
pub open spec fn first_failure(failures: Seq<Option<DecodeError>>) -> Option<DecodeError>
    decreases failures.len(),
{
    if failures.len() == 0 {
        None
    } else if failures[0].is_some() {
        failures[0]
    } else {
        first_failure(failures.drop_first())
    }
}

impl<R1> FromRow for (R1,) where R1: for <'a>Decode<'a> {
    /// The first column, decoded.
    fn from_row(row: Row<'_>) -> (r: Result<Self, Error>)
        ensures
            r is Ok <==> row.decode_error::<R1>(0).is_none(),
            r matches Ok(t) ==> t.0.holds(row@[0].value()),
            r matches Err(e) ==> e matches Error::Decode(de) && Some(de) == row.decode_error::<R1>(
                0,
            ),
    {
        let c0 = row.try_decode::<R1>(0)?;
        Ok((c0,))
    }
}

impl<R1, R2> FromRow for (R1, R2) where R1: for <'a>Decode<'a>, R2: for <'a>Decode<'a> {
    /// The first two columns, decoded in their order; the first failure ends it.
    fn from_row(row: Row<'_>) -> (r: Result<Self, Error>)
        ensures
            r is Ok <==> row.decode_error::<R1>(0).is_none() && row.decode_error::<R2>(1).is_none(),
            r matches Ok(t) ==> t.0.holds(row@[0].value()) && t.1.holds(row@[1].value()),
            r matches Err(e) ==> e matches Error::Decode(de) && Some(de) == first_failure(
                seq![row.decode_error::<R1>(0), row.decode_error::<R2>(1)],
            ),
    {
        proof {
            reveal_with_fuel(first_failure, 3);
            let f = seq![row.decode_error::<R1>(0), row.decode_error::<R2>(1)];
            assert(f.drop_first() =~= seq![row.decode_error::<R2>(1)]);
        }
        let c0 = row.try_decode::<R1>(0)?;
        let c1 = row.try_decode::<R2>(1)?;
        Ok((c0, c1))
    }
}

impl<R1, R2, R3> FromRow for (R1, R2, R3) where
    R1: for <'a>Decode<'a>,
    R2: for <'a>Decode<'a>,
    R3: for <'a>Decode<'a>,
 {
    /// The first three columns, decoded in their order; the first failure ends it.
    fn from_row(row: Row<'_>) -> (r: Result<Self, Error>)
        ensures
            r is Ok <==> row.decode_error::<R1>(0).is_none() && row.decode_error::<R2>(1).is_none()
                && row.decode_error::<R3>(2).is_none(),
            r matches Ok(t) ==> t.0.holds(row@[0].value()) && t.1.holds(row@[1].value())
                && t.2.holds(row@[2].value()),
            r matches Err(e) ==> e matches Error::Decode(de) && Some(de) == first_failure(
                seq![
                    row.decode_error::<R1>(0),
                    row.decode_error::<R2>(1),
                    row.decode_error::<R3>(2),
                ],
            ),
    {
        proof {
            reveal_with_fuel(first_failure, 4);
            let f = seq![
                row.decode_error::<R1>(0),
                row.decode_error::<R2>(1),
                row.decode_error::<R3>(2),
            ];
            assert(f.drop_first() =~= seq![row.decode_error::<R2>(1), row.decode_error::<R3>(2)]);
            assert(f.drop_first().drop_first() =~= seq![row.decode_error::<R3>(2)]);
        }
        let c0 = row.try_decode::<R1>(0)?;
        let c1 = row.try_decode::<R2>(1)?;
        let c2 = row.try_decode::<R3>(2)?;
        Ok((c0, c1, c2))
    }
}

impl<R1, R2, R3, R4> FromRow for (R1, R2, R3, R4) where
    R1: for <'a>Decode<'a>,
    R2: for <'a>Decode<'a>,
    R3: for <'a>Decode<'a>,
    R4: for <'a>Decode<'a>,
 {
    /// The first four columns, decoded in their order; the first failure ends it.
    fn from_row(row: Row<'_>) -> (r: Result<Self, Error>)
        ensures
            r is Ok <==> row.decode_error::<R1>(0).is_none()
                && row.decode_error::<R2>(1).is_none()
                && row.decode_error::<R3>(2).is_none()
                && row.decode_error::<R4>(3).is_none(),
            r matches Ok(t) ==> t.0.holds(row@[0].value())
                && t.1.holds(row@[1].value())
                && t.2.holds(row@[2].value())
                && t.3.holds(row@[3].value()),
            r matches Err(e) ==> e matches Error::Decode(de) && Some(de) == first_failure(
                seq![
                    row.decode_error::<R1>(0),
                    row.decode_error::<R2>(1),
                    row.decode_error::<R3>(2),
                    row.decode_error::<R4>(3),
                ],
            ),
    {
        proof {
            reveal_with_fuel(first_failure, 5);
            let f = seq![
                row.decode_error::<R1>(0),
                row.decode_error::<R2>(1),
                row.decode_error::<R3>(2),
                row.decode_error::<R4>(3),
            ];
            assert(f.drop_first() =~= seq![
                row.decode_error::<R2>(1),
                row.decode_error::<R3>(2),
                row.decode_error::<R4>(3),
            ]);
            assert(f.drop_first().drop_first() =~= seq![
                row.decode_error::<R3>(2),
                row.decode_error::<R4>(3),
            ]);
            assert(f.drop_first().drop_first().drop_first() =~= seq![
                row.decode_error::<R4>(3),
            ]);
        }
        let c0 = row.try_decode::<R1>(0)?;
        let c1 = row.try_decode::<R2>(1)?;
        let c2 = row.try_decode::<R3>(2)?;
        let c3 = row.try_decode::<R4>(3)?;
        Ok((c0, c1, c2, c3))
    }
}

impl<R1, R2, R3, R4, R5> FromRow for (R1, R2, R3, R4, R5) where
    R1: for <'a>Decode<'a>,
    R2: for <'a>Decode<'a>,
    R3: for <'a>Decode<'a>,
    R4: for <'a>Decode<'a>,
    R5: for <'a>Decode<'a>,
 {
    /// The first five columns, decoded in their order; the first failure ends it.
    fn from_row(row: Row<'_>) -> (r: Result<Self, Error>)
        ensures
            r is Ok <==> row.decode_error::<R1>(0).is_none()
                && row.decode_error::<R2>(1).is_none()
                && row.decode_error::<R3>(2).is_none()
                && row.decode_error::<R4>(3).is_none()
                && row.decode_error::<R5>(4).is_none(),
            r matches Ok(t) ==> t.0.holds(row@[0].value())
                && t.1.holds(row@[1].value())
                && t.2.holds(row@[2].value())
                && t.3.holds(row@[3].value())
                && t.4.holds(row@[4].value()),
            r matches Err(e) ==> e matches Error::Decode(de) && Some(de) == first_failure(
                seq![
                    row.decode_error::<R1>(0),
                    row.decode_error::<R2>(1),
                    row.decode_error::<R3>(2),
                    row.decode_error::<R4>(3),
                    row.decode_error::<R5>(4),
                ],
            ),
    {
        proof {
            reveal_with_fuel(first_failure, 6);
            let f = seq![
                row.decode_error::<R1>(0),
                row.decode_error::<R2>(1),
                row.decode_error::<R3>(2),
                row.decode_error::<R4>(3),
                row.decode_error::<R5>(4),
            ];
            assert(f.drop_first() =~= seq![
                row.decode_error::<R2>(1),
                row.decode_error::<R3>(2),
                row.decode_error::<R4>(3),
                row.decode_error::<R5>(4),
            ]);
            assert(f.drop_first().drop_first() =~= seq![
                row.decode_error::<R3>(2),
                row.decode_error::<R4>(3),
                row.decode_error::<R5>(4),
            ]);
            assert(f.drop_first().drop_first().drop_first() =~= seq![
                row.decode_error::<R4>(3),
                row.decode_error::<R5>(4),
            ]);
            assert(f.drop_first().drop_first().drop_first().drop_first() =~= seq![
                row.decode_error::<R5>(4),
            ]);
        }
        let c0 = row.try_decode::<R1>(0)?;
        let c1 = row.try_decode::<R2>(1)?;
        let c2 = row.try_decode::<R3>(2)?;
        let c3 = row.try_decode::<R4>(3)?;
        let c4 = row.try_decode::<R5>(4)?;
        Ok((c0, c1, c2, c3, c4))
    }
}

impl<R1, R2, R3, R4, R5, R6> FromRow for (R1, R2, R3, R4, R5, R6) where
    R1: for <'a>Decode<'a>,
    R2: for <'a>Decode<'a>,
    R3: for <'a>Decode<'a>,
    R4: for <'a>Decode<'a>,
    R5: for <'a>Decode<'a>,
    R6: for <'a>Decode<'a>,
 {
    /// The first six columns, decoded in their order; the first failure ends it.
    fn from_row(row: Row<'_>) -> (r: Result<Self, Error>)
        ensures
            r is Ok <==> row.decode_error::<R1>(0).is_none()
                && row.decode_error::<R2>(1).is_none()
                && row.decode_error::<R3>(2).is_none()
                && row.decode_error::<R4>(3).is_none()
                && row.decode_error::<R5>(4).is_none()
                && row.decode_error::<R6>(5).is_none(),
            r matches Ok(t) ==> t.0.holds(row@[0].value())
                && t.1.holds(row@[1].value())
                && t.2.holds(row@[2].value())
                && t.3.holds(row@[3].value())
                && t.4.holds(row@[4].value())
                && t.5.holds(row@[5].value()),
            r matches Err(e) ==> e matches Error::Decode(de) && Some(de) == first_failure(
                seq![
                    row.decode_error::<R1>(0),
                    row.decode_error::<R2>(1),
                    row.decode_error::<R3>(2),
                    row.decode_error::<R4>(3),
                    row.decode_error::<R5>(4),
                    row.decode_error::<R6>(5),
                ],
            ),
    {
        proof {
            reveal_with_fuel(first_failure, 7);
            let f = seq![
                row.decode_error::<R1>(0),
                row.decode_error::<R2>(1),
                row.decode_error::<R3>(2),
                row.decode_error::<R4>(3),
                row.decode_error::<R5>(4),
                row.decode_error::<R6>(5),
            ];
            assert(f.drop_first() =~= seq![
                row.decode_error::<R2>(1),
                row.decode_error::<R3>(2),
                row.decode_error::<R4>(3),
                row.decode_error::<R5>(4),
                row.decode_error::<R6>(5),
            ]);
            assert(f.drop_first().drop_first() =~= seq![
                row.decode_error::<R3>(2),
                row.decode_error::<R4>(3),
                row.decode_error::<R5>(4),
                row.decode_error::<R6>(5),
            ]);
            assert(f.drop_first().drop_first().drop_first() =~= seq![
                row.decode_error::<R4>(3),
                row.decode_error::<R5>(4),
                row.decode_error::<R6>(5),
            ]);
            assert(f.drop_first().drop_first().drop_first().drop_first() =~= seq![
                row.decode_error::<R5>(4),
                row.decode_error::<R6>(5),
            ]);
            assert(f.drop_first().drop_first().drop_first().drop_first().drop_first() =~= seq![
                row.decode_error::<R6>(5),
            ]);
        }
        let c0 = row.try_decode::<R1>(0)?;
        let c1 = row.try_decode::<R2>(1)?;
        let c2 = row.try_decode::<R3>(2)?;
        let c3 = row.try_decode::<R4>(3)?;
        let c4 = row.try_decode::<R5>(4)?;
        let c5 = row.try_decode::<R6>(5)?;
        Ok((c0, c1, c2, c3, c4, c5))
    }
}

impl<R1, R2, R3, R4, R5, R6, R7> FromRow for (R1, R2, R3, R4, R5, R6, R7) where
    R1: for <'a>Decode<'a>,
    R2: for <'a>Decode<'a>,
    R3: for <'a>Decode<'a>,
    R4: for <'a>Decode<'a>,
    R5: for <'a>Decode<'a>,
    R6: for <'a>Decode<'a>,
    R7: for <'a>Decode<'a>,
 {
    /// The first seven columns, decoded in their order; the first failure ends it.
    fn from_row(row: Row<'_>) -> (r: Result<Self, Error>)
        ensures
            r is Ok <==> row.decode_error::<R1>(0).is_none()
                && row.decode_error::<R2>(1).is_none()
                && row.decode_error::<R3>(2).is_none()
                && row.decode_error::<R4>(3).is_none()
                && row.decode_error::<R5>(4).is_none()
                && row.decode_error::<R6>(5).is_none()
                && row.decode_error::<R7>(6).is_none(),
            r matches Ok(t) ==> t.0.holds(row@[0].value())
                && t.1.holds(row@[1].value())
                && t.2.holds(row@[2].value())
                && t.3.holds(row@[3].value())
                && t.4.holds(row@[4].value())
                && t.5.holds(row@[5].value())
                && t.6.holds(row@[6].value()),
            r matches Err(e) ==> e matches Error::Decode(de) && Some(de) == first_failure(
                seq![
                    row.decode_error::<R1>(0),
                    row.decode_error::<R2>(1),
                    row.decode_error::<R3>(2),
                    row.decode_error::<R4>(3),
                    row.decode_error::<R5>(4),
                    row.decode_error::<R6>(5),
                    row.decode_error::<R7>(6),
                ],
            ),
    {
        proof {
            reveal_with_fuel(first_failure, 8);
            let f = seq![
                row.decode_error::<R1>(0),
                row.decode_error::<R2>(1),
                row.decode_error::<R3>(2),
                row.decode_error::<R4>(3),
                row.decode_error::<R5>(4),
                row.decode_error::<R6>(5),
                row.decode_error::<R7>(6),
            ];
            assert(f.drop_first() =~= seq![
                row.decode_error::<R2>(1),
                row.decode_error::<R3>(2),
                row.decode_error::<R4>(3),
                row.decode_error::<R5>(4),
                row.decode_error::<R6>(5),
                row.decode_error::<R7>(6),
            ]);
            assert(f.drop_first().drop_first() =~= seq![
                row.decode_error::<R3>(2),
                row.decode_error::<R4>(3),
                row.decode_error::<R5>(4),
                row.decode_error::<R6>(5),
                row.decode_error::<R7>(6),
            ]);
            assert(f.drop_first().drop_first().drop_first() =~= seq![
                row.decode_error::<R4>(3),
                row.decode_error::<R5>(4),
                row.decode_error::<R6>(5),
                row.decode_error::<R7>(6),
            ]);
            assert(f.drop_first().drop_first().drop_first().drop_first() =~= seq![
                row.decode_error::<R5>(4),
                row.decode_error::<R6>(5),
                row.decode_error::<R7>(6),
            ]);
            assert(f.drop_first().drop_first().drop_first().drop_first().drop_first() =~= seq![
                row.decode_error::<R6>(5),
                row.decode_error::<R7>(6),
            ]);
            assert(f.drop_first().drop_first().drop_first().drop_first().drop_first().drop_first() =~= seq![
                row.decode_error::<R7>(6),
            ]);
        }
        let c0 = row.try_decode::<R1>(0)?;
        let c1 = row.try_decode::<R2>(1)?;
        let c2 = row.try_decode::<R3>(2)?;
        let c3 = row.try_decode::<R4>(3)?;
        let c4 = row.try_decode::<R5>(4)?;
        let c5 = row.try_decode::<R6>(5)?;
        let c6 = row.try_decode::<R7>(6)?;
        Ok((c0, c1, c2, c3, c4, c5, c6))
    }
}

/// A type that is read from columns of one datatype.
pub trait FromColumn {
    /// The datatype that the type is read from.
    spec fn expects() -> DataType;

    /// Whether a column with this type code can be read as the type. The code is
    /// either SQLITE_INTEGER, SQLITE_FLOAT, SQLITE_TEXT, SQLITE_BLOB, or SQLITE_NULL.
    fn type_check(datatype_code: i32) -> (b: bool)
        ensures
            b == (DataType::of_code(datatype_code) == Some(Self::expects())),
    ;
}

impl FromColumn for &str {
    open spec fn expects() -> DataType {
        DataType::Text
    }

    fn type_check(datatype_code: i32) -> (b: bool) {
        datatype_code == SQLITE3_TEXT
    }
}

} // verus!
