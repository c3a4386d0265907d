//! The engine's result codes and fundamental datatypes.
use vstd::prelude::*;

verus! {

/// The call succeeded.
pub const SQLITE_OK: i32 = 0;

/// A generic error.
pub const SQLITE_ERROR: i32 = 1;

/// The engine could not get the locks it needs; the call may be tried again.
pub const SQLITE_BUSY: i32 = 5;

/// The engine was called out of order.
pub const SQLITE_MISUSE: i32 = 21;

/// A step produced a row.
pub const SQLITE_ROW: i32 = 100;

/// A step finished the statement.
pub const SQLITE_DONE: i32 = 101;

/// Type code of a 64-bit signed integer column.
pub const SQLITE_INTEGER: i32 = 1;

/// Type code of a 64-bit IEEE floating point column.
pub const SQLITE_FLOAT: i32 = 2;

/// Type code of a text column.
pub const SQLITE3_TEXT: i32 = 3;

/// Type code of a blob column.
pub const SQLITE_BLOB: i32 = 4;

/// Type code of a NULL column.
pub const SQLITE_NULL: i32 = 5;

/// The fundamental datatype of a column, as the engine reports it.
#[derive(Debug, Clone, Copy, PartialEq, Eq, Structural)]
pub enum DataType {
    Null,
    Int,
    Float,
    Text,
    Blob,
}

impl DataType {
    /// The datatype that a type code stands for.
    pub open spec fn of_code(code: i32) -> Option<DataType> {
        if code == SQLITE_NULL {
            Some(DataType::Null)
        } else if code == SQLITE_INTEGER {
            Some(DataType::Int)
        } else if code == SQLITE_FLOAT {
            Some(DataType::Float)
        } else if code == SQLITE3_TEXT {
            Some(DataType::Text)
        } else if code == SQLITE_BLOB {
            Some(DataType::Blob)
        } else {
            None
        }
    }

    /// The type code of a datatype.
    pub open spec fn spec_code(self) -> i32 {
        match self {
            DataType::Null => SQLITE_NULL,
            DataType::Int => SQLITE_INTEGER,
            DataType::Float => SQLITE_FLOAT,
            DataType::Text => SQLITE3_TEXT,
            DataType::Blob => SQLITE_BLOB,
        }
    }

    /// Reads a type code; `None` for a code that names no datatype.
    pub fn from_code(code: i32) -> (ty: Option<DataType>)
        ensures
            ty == Self::of_code(code),
    {
        if code == SQLITE_NULL {
            Some(DataType::Null)
        } else if code == SQLITE_INTEGER {
            Some(DataType::Int)
        } else if code == SQLITE_FLOAT {
            Some(DataType::Float)
        } else if code == SQLITE3_TEXT {
            Some(DataType::Text)
        } else if code == SQLITE_BLOB {
            Some(DataType::Blob)
        } else {
            None
        }
    }

    /// The type code of this datatype.
    #[verifier::when_used_as_spec(spec_code)]
    pub fn code(self) -> (code: i32)
        ensures
            code == self.spec_code(),
            Self::of_code(code) == Some(self),
    {
        match self {
            DataType::Null => SQLITE_NULL,
            DataType::Int => SQLITE_INTEGER,
            DataType::Float => SQLITE_FLOAT,
            DataType::Text => SQLITE3_TEXT,
            DataType::Blob => SQLITE_BLOB,
        }
    }
}

/// What a successful step reports.
#[derive(Debug, Clone, Copy, PartialEq, Eq, Structural)]
pub enum StepResult {
    /// The statement has finished executing successfully.
    Done,
    /// A new row of data is ready for processing by the caller.
    Row,
}

impl StepResult {
    /// The step result that a result code stands for.
    pub open spec fn of_code(code: i32) -> Option<StepResult> {
        if code == SQLITE_DONE {
            Some(StepResult::Done)
        } else if code == SQLITE_ROW {
            Some(StepResult::Row)
        } else {
            None
        }
    }

    /// Reads a result code; `None` for a code that is neither "row" nor "done".
    pub fn from_code(code: i32) -> (step: Option<StepResult>)
        ensures
            step == Self::of_code(code),
    {
        if code == SQLITE_DONE {
            Some(StepResult::Done)
        } else if code == SQLITE_ROW {
            Some(StepResult::Row)
        } else {
            None
        }
    }

    /// Whether the statement has finished executing successfully.
    pub fn is_done(&self) -> (b: bool)
        ensures
            b == (*self == StepResult::Done),
    {
        match self {
            StepResult::Done => true,
            StepResult::Row => false,
        }
    }

    /// Whether a new row of data is ready for processing.
    pub fn is_row(&self) -> (b: bool)
        ensures
            b == (*self == StepResult::Row),
    {
        match self {
            StepResult::Done => false,
            StepResult::Row => true,
        }
    }
}

/// Whether `code`, coming back from a call that has nothing to report but success or
/// an error, shows that the engine was driven out of order: a misuse report, or one
/// of the two answers that only a step gives.
pub open spec fn out_of_order(code: i32) -> bool {
    code == SQLITE_MISUSE || code == SQLITE_ROW || code == SQLITE_DONE
}

/// Tests [`out_of_order`]. The embedding program aborts on such a code instead of
/// handing it on.
pub fn is_out_of_order(code: i32) -> (b: bool)
    ensures
        b == out_of_order(code),
{
    code == SQLITE_MISUSE || code == SQLITE_ROW || code == SQLITE_DONE
}

/// The law of the type codes: reading the code of a datatype gives the datatype back,
/// and a code that reads as a datatype is that datatype's code.
pub proof fn lemma_type_code_round_trip(ty: DataType, code: i32)
    ensures
        DataType::of_code(ty.spec_code()) == Some(ty),
        DataType::of_code(code) == Some(ty) ==> code == ty.spec_code(),
{
}

} // verus!
