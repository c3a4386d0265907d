//! A driver core for an embedded SQL engine.
//!
//! The crate holds the rules of the driver: the bounded stack, the result-code
//! taxonomy, the value codec, the cursor protocol, the statement cache and the
//! pool bookkeeping. Every native call is made by the embedding program, which
//! hands the engine's answers to the functions here as plain values.
pub mod cache;
pub mod code;
pub mod connection;
pub mod error;
pub mod handle;
pub mod open_flag;
pub mod pool;
pub mod query;
pub mod row;
pub mod stack;
pub mod statement;
pub mod text;
pub mod value;

pub use code::{DataType, StepResult};
pub use connection::Connection;
pub use error::{DatabaseError, Error};
pub use handle::NativeHandle;
pub use open_flag::OpenFlag;
pub use pool::PoolStack;
pub use query::{query, Query};
pub use row::{Decode, FromRow, Row};
pub use stack::Stack;
pub use statement::{RowStream, Statement};
pub use text::SqliteStr;
pub use value::ValueRef;
