//! The errors of the driver, one kind for each operation.
use vstd::prelude::*;
use vstd::std_specs::convert::FromSpecImpl;
use vstd::utf8::{decode_utf8, valid_utf8};
use crate::code::{out_of_order, SQLITE_BUSY, SQLITE_OK};
use crate::text::text_of_bytes;

verus! {

/// An error returned from database.
#[derive(Debug)]
pub struct DatabaseError {
    /// The engine's message for the error.
    pub message: String,
    /// Error result code.
    pub code: i32,
}

/// An error when failed to convert rust to sqlite string.
#[derive(Debug, PartialEq, Eq, Structural)]
pub enum StringError {
    /// String too large, sqlite max string is i32::MAX.
    TooLarge,
    /// Value is not UTF-8.
    Utf8,
    /// The supplied bytes contain an internal 0 byte, the first one at `position`.
    NulError { position: usize },
}

/// An error when failed to open a database connection.
#[derive(Debug)]
pub enum OpenError {
    /// The engine is not in serialized mode.
    NotSerializeMode,
    /// An error when failed to convert rust to sqlite string.
    String(StringError),
    /// An error returned from database.
    Database(DatabaseError),
}

/// An error when failed to configure database.
#[derive(Debug)]
pub struct ConfigureError(pub DatabaseError);

/// An error when failed to create prepared statement.
#[derive(Debug)]
pub struct PrepareError(pub DatabaseError);

/// An error when failed to get the next row.
#[derive(Debug)]
pub struct StepError(pub DatabaseError);

/// An error when failed to reset or clear binding prepared statement.
#[derive(Debug)]
pub struct ResetError(pub DatabaseError);

/// An error when failed to bind a value.
#[derive(Debug)]
pub enum BindError {
    /// More parameters than a statement takes at most.
    TooManyParameters,
    /// An error when failed to convert rust to sqlite string.
    String(StringError),
    /// An error returned from database.
    Database(DatabaseError),
}

/// An error when failed to decode value.
#[derive(Debug, PartialEq, Eq, Structural)]
pub enum DecodeError {
    /// The row has no column at the index.
    IndexOutOfBounds,
    /// The column holds another datatype than was asked for.
    InvalidDataType,
    /// The column's text is not UTF-8.
    Utf8,
}

/// An error which can occur in an operation of the driver.
#[derive(Debug)]
pub enum Error {
    /// an error when failed to open a database
    Open(OpenError),
    /// an error when failed to configure database
    Configure(ConfigureError),
    /// an error when failed to create prepared statement
    Prepare(PrepareError),
    /// an error when failed to bind value to parameter
    Bind(BindError),
    /// an error when failed to get the next row
    Step(StepError),
    /// an error when failed to decode value
    Decode(DecodeError),
    /// an error when failed to reset or clear binding prepared statement
    Reset(ResetError),
}

/// The bytes of the engine's last error message, where it gave one.
pub open spec fn message_bytes(errmsg: Option<&[u8]>) -> Option<Seq<u8>> {
    match errmsg {
        Some(bytes) => Some(bytes@),
        None => None,
    }
}

/// The message of an error: the engine's last message where it gave one in UTF-8,
/// else the description of the result code.
pub open spec fn message_text(errmsg: Option<Seq<u8>>, description: Seq<char>) -> Seq<char> {
    match errmsg {
        Some(bytes) => if valid_utf8(bytes) {
            decode_utf8(bytes)
        } else {
            description
        },
        None => description,
    }
}

/// Asks `libsqlite3_sys::code_to_str` for the engine's description of a result code.
/// The text is the linked engine's own, so nothing is claimed of it.
#[verifier::external_body]
fn code_description(code: i32) -> (text: String) {
    libsqlite3_sys::code_to_str(code).to_owned()
}

impl DatabaseError {
    /// `self` reports `code` with the engine's message `errmsg`: it carries the code,
    /// and the message itself where the engine gave one in UTF-8.
    pub open spec fn reports(&self, code: i32, errmsg: Option<Seq<u8>>) -> bool {
        &&& self.code == code
        &&& match errmsg {
            Some(bytes) => valid_utf8(bytes) ==> self.message@ == decode_utf8(bytes),
            None => true,
        }
    }

    /// An error of the given message and code.
    pub fn new(message: String, code: i32) -> (e: Self)
        ensures
            e.message == message,
            e.code == code,
    {
        DatabaseError { message, code }
    }

    /// The error for `result`, given the engine's last message and the description
    /// of the code to fall back on.
    pub fn with_description(result: i32, errmsg: Option<&[u8]>, description: String) -> (e: Self)
        ensures
            e.code == result,
            e.message@ == message_text(message_bytes(errmsg), description@),
    {
        let message = match errmsg {
            Some(bytes) => match text_of_bytes(bytes) {
                Some(text) => text.to_owned(),
                None => description,
            },
            None => description,
        };
        DatabaseError { message, code: result }
    }

    /// The error for `result`, given the engine's last message. Where the engine gave
    /// no message, or none in UTF-8, the message is the engine's description of the
    /// code.
    pub fn from_code(result: i32, errmsg: Option<&[u8]>) -> (e: Self)
        ensures
            e.reports(result, message_bytes(errmsg)),
    {
        Self::with_description(result, errmsg, code_description(result))
    }

    /// Returns `true` if the error is a `SQLITE_BUSY`.
    ///
    /// `SQLITE_BUSY` occur when the database engine was unable to acquire the database
    /// locks it needs to do its job, and the statement can be tried again.
    pub fn is_busy(&self) -> (b: bool)
        ensures
            b == (self.code == SQLITE_BUSY),
    {
        self.code == SQLITE_BUSY
    }
}

/// Reads the result of a call that reports nothing but success or an error: success
/// for `SQLITE_OK`, else the error with the engine's last message.
///
/// A code that shows the engine was driven out of order is not an error to hand on;
/// the caller aborts on it (see [`out_of_order`]).
pub fn try_result(result: i32, errmsg: Option<&[u8]>) -> (r: Result<(), DatabaseError>)
    requires
        !out_of_order(result),
    ensures
        r is Ok <==> result == SQLITE_OK,
        r matches Err(e) ==> e.reports(result, message_bytes(errmsg)),
{
    if result == SQLITE_OK {
        Ok(())
    } else {
        Err(DatabaseError::from_code(result, errmsg))
    }
}

impl OpenError {
    /// Whether this is a database error of the busy kind.
    pub fn is_busy(&self) -> (b: bool)
        ensures
            b == (self matches OpenError::Database(d) && d.code == SQLITE_BUSY),
    {
        match self {
            OpenError::Database(d) => d.is_busy(),
            _ => false,
        }
    }
}

impl ConfigureError {
    /// Whether the engine reported busy.
    pub fn is_busy(&self) -> (b: bool)
        ensures
            b == (self.0.code == SQLITE_BUSY),
    {
        self.0.is_busy()
    }
}

impl PrepareError {
    /// Whether the engine reported busy.
    pub fn is_busy(&self) -> (b: bool)
        ensures
            b == (self.0.code == SQLITE_BUSY),
    {
        self.0.is_busy()
    }
}

impl StepError {
    /// Whether the engine reported busy.
    pub fn is_busy(&self) -> (b: bool)
        ensures
            b == (self.0.code == SQLITE_BUSY),
    {
        self.0.is_busy()
    }
}

impl ResetError {
    /// Whether the engine reported busy.
    pub fn is_busy(&self) -> (b: bool)
        ensures
            b == (self.0.code == SQLITE_BUSY),
    {
        self.0.is_busy()
    }
}

/// `prefix` followed by `rest`.
fn prefixed(prefix: &str, rest: &str) -> (text: String)
    ensures
        text@ == prefix@ + rest@,
{
    let mut text = String::from_str(prefix);
    text.append(rest);
    proof {
        assert(text@ =~= prefix@ + rest@);
    }
    text
}

impl DatabaseError {
    /// The text of the error: the engine's message.
    pub open spec fn text(&self) -> Seq<char> {
        self.message@
    }

    /// The text of the error, for display.
    pub fn describe(&self) -> (text: String)
        ensures
            text@ == self.text(),
    {
        self.message.clone()
    }
}

impl StringError {
    /// What went wrong, without the prefix.
    pub open spec fn reason(&self) -> Seq<char> {
        match self {
            StringError::TooLarge => "string too large, sqlite max string is i32::MAX"@,
            StringError::Utf8 => "invalid utf-8 sequence"@,
            StringError::NulError { .. } => "nul byte found in provided data"@,
        }
    }

    /// The text of the error.
    pub open spec fn text(&self) -> Seq<char> {
        "Failed to convert rust to sqlite string: "@ + self.reason()
    }

    /// The text of the error, for display.
    pub fn describe(&self) -> (text: String)
        ensures
            text@ == self.text(),
    {
        let reason = match self {
            StringError::TooLarge => "string too large, sqlite max string is i32::MAX",
            StringError::Utf8 => "invalid utf-8 sequence",
            StringError::NulError { .. } => "nul byte found in provided data",
        };
        prefixed("Failed to convert rust to sqlite string: ", reason)
    }
}

impl OpenError {
    /// The text of the error.
    pub open spec fn text(&self) -> Seq<char> {
        "Failed to open a database: "@ + match self {
            OpenError::NotSerializeMode => "sqlite is not in serialize mode"@,
            OpenError::String(e) => e.text(),
            OpenError::Database(e) => e.text(),
        }
    }

    /// The text of the error, for display.
    pub fn describe(&self) -> (text: String)
        ensures
            text@ == self.text(),
    {
        match self {
            OpenError::NotSerializeMode => prefixed(
                "Failed to open a database: ",
                "sqlite is not in serialize mode",
            ),
            OpenError::String(e) => prefixed("Failed to open a database: ", e.describe().as_str()),
            OpenError::Database(e) => prefixed(
                "Failed to open a database: ",
                e.describe().as_str(),
            ),
        }
    }
}

impl ConfigureError {
    /// The text of the error.
    pub open spec fn text(&self) -> Seq<char> {
        "Failed to configure database: "@ + self.0.text()
    }

    /// The text of the error, for display.
    pub fn describe(&self) -> (text: String)
        ensures
            text@ == self.text(),
    {
        prefixed("Failed to configure database: ", self.0.describe().as_str())
    }
}

impl PrepareError {
    /// The text of the error.
    pub open spec fn text(&self) -> Seq<char> {
        "Failed to create prepared statement: "@ + self.0.text()
    }

    /// The text of the error, for display.
    pub fn describe(&self) -> (text: String)
        ensures
            text@ == self.text(),
    {
        prefixed("Failed to create prepared statement: ", self.0.describe().as_str())
    }
}

impl StepError {
    /// The text of the error.
    pub open spec fn text(&self) -> Seq<char> {
        "Failed to get the next row: "@ + self.0.text()
    }

    /// The text of the error, for display.
    pub fn describe(&self) -> (text: String)
        ensures
            text@ == self.text(),
    {
        prefixed("Failed to get the next row: ", self.0.describe().as_str())
    }
}

impl ResetError {
    /// The text of the error.
    pub open spec fn text(&self) -> Seq<char> {
        "Failed to reset or clear binding prepared statement: "@ + self.0.text()
    }

    /// The text of the error, for display.
    pub fn describe(&self) -> (text: String)
        ensures
            text@ == self.text(),
    {
        prefixed(
            "Failed to reset or clear binding prepared statement: ",
            self.0.describe().as_str(),
        )
    }
}

impl BindError {
    /// The text of the error.
    pub open spec fn text(&self) -> Seq<char> {
        "Failed to bind value: "@ + match self {
            BindError::TooManyParameters => "more parameters than a statement takes"@,
            BindError::String(e) => e.text(),
            BindError::Database(e) => e.text(),
        }
    }

    /// The text of the error, for display.
    pub fn describe(&self) -> (text: String)
        ensures
            text@ == self.text(),
    {
        match self {
            BindError::TooManyParameters => prefixed(
                "Failed to bind value: ",
                "more parameters than a statement takes",
            ),
            BindError::String(e) => prefixed("Failed to bind value: ", e.describe().as_str()),
            BindError::Database(e) => prefixed("Failed to bind value: ", e.describe().as_str()),
        }
    }

    /// Whether this is a database error of the busy kind.
    pub fn is_busy(&self) -> (b: bool)
        ensures
            b == (self matches BindError::Database(d) && d.code == SQLITE_BUSY),
    {
        match self {
            BindError::Database(d) => d.is_busy(),
            _ => false,
        }
    }
}

impl DecodeError {
    /// What went wrong, without the prefix.
    pub open spec fn reason(&self) -> Seq<char> {
        match self {
            DecodeError::IndexOutOfBounds => "row index out of bounds"@,
            DecodeError::InvalidDataType => "datatype requested missmatch"@,
            DecodeError::Utf8 => "invalid utf-8 sequence"@,
        }
    }

    /// The text of the error.
    pub open spec fn text(&self) -> Seq<char> {
        "Failed to decode value: "@ + self.reason()
    }

    /// The text of the error, for display.
    pub fn describe(&self) -> (text: String)
        ensures
            text@ == self.text(),
    {
        let reason = match self {
            DecodeError::IndexOutOfBounds => "row index out of bounds",
            DecodeError::InvalidDataType => "datatype requested missmatch",
            DecodeError::Utf8 => "invalid utf-8 sequence",
        };
        prefixed("Failed to decode value: ", reason)
    }
}

impl Error {
    /// The text of the error: that of the error it wraps.
    pub open spec fn text(&self) -> Seq<char> {
        match self {
            Error::Open(e) => e.text(),
            Error::Configure(e) => e.text(),
            Error::Prepare(e) => e.text(),
            Error::Bind(e) => e.text(),
            Error::Step(e) => e.text(),
            Error::Decode(e) => e.text(),
            Error::Reset(e) => e.text(),
        }
    }

    /// The text of the error, for display.
    pub fn describe(&self) -> (text: String)
        ensures
            text@ == self.text(),
    {
        match self {
            Error::Open(e) => e.describe(),
            Error::Configure(e) => e.describe(),
            Error::Prepare(e) => e.describe(),
            Error::Bind(e) => e.describe(),
            Error::Step(e) => e.describe(),
            Error::Decode(e) => e.describe(),
            Error::Reset(e) => e.describe(),
        }
    }

    /// Whether the engine reported busy, in whatever operation.
    pub fn is_busy(&self) -> (b: bool)
        ensures
            b == match self {
                Error::Open(e) => e matches OpenError::Database(d) && d.code == SQLITE_BUSY,
                Error::Configure(e) => e.0.code == SQLITE_BUSY,
                Error::Prepare(e) => e.0.code == SQLITE_BUSY,
                Error::Bind(e) => e matches BindError::Database(d) && d.code == SQLITE_BUSY,
                Error::Step(e) => e.0.code == SQLITE_BUSY,
                Error::Decode(_) => false,
                Error::Reset(e) => e.0.code == SQLITE_BUSY,
            },
    {
        match self {
            Error::Open(e) => e.is_busy(),
            Error::Configure(e) => e.is_busy(),
            Error::Prepare(e) => e.is_busy(),
            Error::Bind(e) => e.is_busy(),
            Error::Step(e) => e.is_busy(),
            Error::Decode(_) => false,
            Error::Reset(e) => e.is_busy(),
        }
    }
}

/// A free-form error message.
#[derive(Debug)]
pub struct General(pub String);

impl General {
    /// The text of the error, for display.
    pub fn describe(&self) -> (text: String)
        ensures
            text@ == self.0@,
    {
        self.0.clone()
    }
}

impl From<OpenError> for Error {
    /// Wraps an error of opening.
    fn from(value: OpenError) -> (e: Self) {
        Error::Open(value)
    }
}

impl FromSpecImpl<OpenError> for Error {
    open spec fn obeys_from_spec() -> bool {
        true
    }

    open spec fn from_spec(value: OpenError) -> Self {
        Error::Open(value)
    }
}

impl From<ConfigureError> for Error {
    /// Wraps an error of configuring.
    fn from(value: ConfigureError) -> (e: Self) {
        Error::Configure(value)
    }
}

impl FromSpecImpl<ConfigureError> for Error {
    open spec fn obeys_from_spec() -> bool {
        true
    }

    open spec fn from_spec(value: ConfigureError) -> Self {
        Error::Configure(value)
    }
}

impl From<PrepareError> for Error {
    /// Wraps an error of compiling a statement.
    fn from(value: PrepareError) -> (e: Self) {
        Error::Prepare(value)
    }
}

impl FromSpecImpl<PrepareError> for Error {
    open spec fn obeys_from_spec() -> bool {
        true
    }

    open spec fn from_spec(value: PrepareError) -> Self {
        Error::Prepare(value)
    }
}

impl From<BindError> for Error {
    /// Wraps an error of binding.
    fn from(value: BindError) -> (e: Self) {
        Error::Bind(value)
    }
}

impl FromSpecImpl<BindError> for Error {
    open spec fn obeys_from_spec() -> bool {
        true
    }

    open spec fn from_spec(value: BindError) -> Self {
        Error::Bind(value)
    }
}

impl From<StepError> for Error {
    /// Wraps an error of stepping.
    fn from(value: StepError) -> (e: Self) {
        Error::Step(value)
    }
}

impl FromSpecImpl<StepError> for Error {
    open spec fn obeys_from_spec() -> bool {
        true
    }

    open spec fn from_spec(value: StepError) -> Self {
        Error::Step(value)
    }
}

impl From<DecodeError> for Error {
    /// Wraps an error of decoding.
    fn from(value: DecodeError) -> (e: Self) {
        Error::Decode(value)
    }
}

impl FromSpecImpl<DecodeError> for Error {
    open spec fn obeys_from_spec() -> bool {
        true
    }

    open spec fn from_spec(value: DecodeError) -> Self {
        Error::Decode(value)
    }
}

impl From<ResetError> for Error {
    /// Wraps an error of resetting.
    fn from(value: ResetError) -> (e: Self) {
        Error::Reset(value)
    }
}

impl FromSpecImpl<ResetError> for Error {
    open spec fn obeys_from_spec() -> bool {
        true
    }

    open spec fn from_spec(value: ResetError) -> Self {
        Error::Reset(value)
    }
}

impl From<DatabaseError> for OpenError {
    /// Wraps an error of the engine.
    fn from(value: DatabaseError) -> (e: Self) {
        OpenError::Database(value)
    }
}

impl FromSpecImpl<DatabaseError> for OpenError {
    open spec fn obeys_from_spec() -> bool {
        true
    }

    open spec fn from_spec(value: DatabaseError) -> Self {
        OpenError::Database(value)
    }
}

impl From<StringError> for OpenError {
    /// Wraps an error of a string conversion.
    fn from(value: StringError) -> (e: Self) {
        OpenError::String(value)
    }
}

impl FromSpecImpl<StringError> for OpenError {
    open spec fn obeys_from_spec() -> bool {
        true
    }

    open spec fn from_spec(value: StringError) -> Self {
        OpenError::String(value)
    }
}

impl From<DatabaseError> for BindError {
    /// Wraps an error of the engine.
    fn from(value: DatabaseError) -> (e: Self) {
        BindError::Database(value)
    }
}

impl FromSpecImpl<DatabaseError> for BindError {
    open spec fn obeys_from_spec() -> bool {
        true
    }

    open spec fn from_spec(value: DatabaseError) -> Self {
        BindError::Database(value)
    }
}

impl From<StringError> for BindError {
    /// Wraps an error of a string conversion.
    fn from(value: StringError) -> (e: Self) {
        BindError::String(value)
    }
}

impl FromSpecImpl<StringError> for BindError {
    open spec fn obeys_from_spec() -> bool {
        true
    }

    open spec fn from_spec(value: StringError) -> Self {
        BindError::String(value)
    }
}

impl From<DatabaseError> for ConfigureError {
    /// Wraps an error of the engine.
    fn from(value: DatabaseError) -> (e: Self) {
        ConfigureError(value)
    }
}

impl FromSpecImpl<DatabaseError> for ConfigureError {
    open spec fn obeys_from_spec() -> bool {
        true
    }

    open spec fn from_spec(value: DatabaseError) -> Self {
        ConfigureError(value)
    }
}

impl From<DatabaseError> for PrepareError {
    /// Wraps an error of the engine.
    fn from(value: DatabaseError) -> (e: Self) {
        PrepareError(value)
    }
}

impl FromSpecImpl<DatabaseError> for PrepareError {
    open spec fn obeys_from_spec() -> bool {
        true
    }

    open spec fn from_spec(value: DatabaseError) -> Self {
        PrepareError(value)
    }
}

impl From<DatabaseError> for StepError {
    /// Wraps an error of the engine.
    fn from(value: DatabaseError) -> (e: Self) {
        StepError(value)
    }
}

impl FromSpecImpl<DatabaseError> for StepError {
    open spec fn obeys_from_spec() -> bool {
        true
    }

    open spec fn from_spec(value: DatabaseError) -> Self {
        StepError(value)
    }
}

impl From<DatabaseError> for ResetError {
    /// Wraps an error of the engine.
    fn from(value: DatabaseError) -> (e: Self) {
        ResetError(value)
    }
}

impl FromSpecImpl<DatabaseError> for ResetError {
    open spec fn obeys_from_spec() -> bool {
        true
    }

    open spec fn from_spec(value: DatabaseError) -> Self {
        ResetError(value)
    }
}

} // verus!
