//! Conversion between Rust strings and the strings of the engine.
//!
//! The engine measures a string in bytes with a 32-bit signed length, and takes
//! file names and SQL text with a terminating zero byte.
use vstd::prelude::*;
use vstd::string::StringSliceAdditionalSpecFns;
use vstd::utf8::{decode_utf8, encode_utf8, valid_utf8};
use crate::error::StringError;

verus! {

/// How the engine treats the buffer of a bound text or blob.
#[derive(Debug, Clone, Copy, PartialEq, Eq, Structural)]
pub enum Destructor {
    /// The buffer is constant and never freed: the engine may keep the pointer.
    Static,
    /// The buffer may change after the call: the engine copies it at once.
    Transient,
}

/// The longest string, in bytes, that the engine takes.
pub const MAX_LENGTH: usize = 0x7fff_ffff;

/// The destructor that goes with a buffer of `len` bytes: an empty one is bound as
/// a constant, any other is copied.
pub open spec fn destructor_for(len: int) -> Destructor {
    if len == 0 {
        Destructor::Static
    } else {
        Destructor::Transient
    }
}

/// `at` is the index of the first zero byte of `bytes`.
pub open spec fn is_first_nul(bytes: Seq<u8>, at: int) -> bool {
    &&& 0 <= at < bytes.len()
    &&& bytes[at] == 0
    &&& forall|j: int| 0 <= j < at ==> bytes[j] != 0
}

/// Reads bytes as UTF-8 text through `std::str::from_utf8`, which accepts exactly
/// the byte strings that are valid UTF-8 and then gives the text they encode,
/// borrowed from the same buffer.
#[verifier::external_body]
pub(crate) fn text_of_bytes<'a>(bytes: &'a [u8]) -> (text: Option<&'a str>)
    ensures
        text.is_some() <==> valid_utf8(bytes@),
        text matches Some(s) ==> s@ == decode_utf8(bytes@),
{
    match std::str::from_utf8(bytes) {
        Ok(s) => Some(s),
        Err(_) => None,
    }
}

/// Reads a path or a text that comes as bytes; bytes that are not UTF-8 are refused.
pub fn str_from_bytes<'a>(bytes: &'a [u8]) -> (r: Result<&'a str, StringError>)
    ensures
        r is Ok <==> valid_utf8(bytes@),
        r matches Ok(s) ==> s@ == decode_utf8(bytes@),
        r matches Err(e) ==> e == StringError::Utf8,
{
    match text_of_bytes(bytes) {
        Some(text) => Ok(text),
        None => Err(StringError::Utf8),
    }
}

/// The length and the destructor with which `text` is bound as a parameter. The
/// length leaves a terminating zero byte out. A text longer than the engine's limit
/// is refused.
pub fn as_sqlite_str(text: &str) -> (r: Result<(i32, Destructor), StringError>)
    ensures
        text.spec_bytes().len() > MAX_LENGTH <==> r is Err,
        r matches Err(e) ==> e == StringError::TooLarge,
        r matches Ok(p) ==> p.0 == text.spec_bytes().len() && p.1 == destructor_for(p.0 as int),
{
    let len: usize = text.as_bytes().len();
    if len > MAX_LENGTH {
        return Err(StringError::TooLarge);
    }
    if len == 0 {
        Ok((0, Destructor::Static))
    } else {
        Ok((len as i32, Destructor::Transient))
    }
}

/// The length and the destructor with which `text` is handed over as SQL. Where the
/// text is longer than the engine's limit, the length is the limit.
pub fn as_nulstr(text: &str) -> (r: (i32, Destructor))
    ensures
        text.spec_bytes().len() <= MAX_LENGTH ==> r.0 == text.spec_bytes().len(),
        text.spec_bytes().len() > MAX_LENGTH ==> r.0 == MAX_LENGTH,
        r.1 == destructor_for(r.0 as int),
{
    let len: usize = text.as_bytes().len();
    if len > MAX_LENGTH {
        (i32::MAX, Destructor::Transient)
    } else if len == 0 {
        (0, Destructor::Static)
    } else {
        (len as i32, Destructor::Transient)
    }
}

/// The length with which a blob of `len` bytes is bound: `len`, or the engine's
/// limit where the blob is longer.
pub fn blob_length(len: usize) -> (n: i32)
    ensures
        len <= MAX_LENGTH ==> n == len,
        len > MAX_LENGTH ==> n == MAX_LENGTH,
{
    if len > MAX_LENGTH {
        i32::MAX
    } else {
        len as i32
    }
}

/// The bytes of `text` followed by one zero byte, as the engine wants a file name.
/// A text that holds a zero byte itself is refused, with the place of the first one.
pub fn to_nul_string(text: &str) -> (r: Result<Vec<u8>, StringError>)
    ensures
        r matches Ok(bytes) ==> bytes@ == text.spec_bytes().push(0u8) && forall|i: int|
            0 <= i < text.spec_bytes().len() ==> text.spec_bytes()[i] != 0,
        r matches Err(e) ==> e is NulError && is_first_nul(
            text.spec_bytes(),
            e->position as int,
        ),
{
    let bytes = text.as_bytes();
    let mut out: Vec<u8> = Vec::new();
    let mut i: usize = 0;
    while i < bytes.len()
        invariant
            0 <= i <= bytes@.len(),
            bytes@ == text.spec_bytes(),
            out@ == bytes@.subrange(0, i as int),
            forall|j: int| 0 <= j < i ==> bytes@[j] != 0,
        decreases bytes@.len() - i,
    {
        let b: u8 = bytes[i];
        if b == 0 {
            return Err(StringError::NulError { position: i });
        }
        out.push(b);
        proof {
            assert(out@ =~= bytes@.subrange(0, i as int + 1));
        }
        i = i + 1;
    }
    proof {
        assert(bytes@.subrange(0, i as int) =~= bytes@);
    }
    out.push(0u8);
    Ok(out)
}

/// Keeps [`SqliteStr`] to the string types of this crate.
pub trait Sealed {

}

/// Conversion between sqlite and rust string
///
/// Sqlite and rust string are different:
///
/// - sqlite string max length is `i32::MAX`, while rust is `usize::MAX`
/// - sqlite string may nul terminated, while rust is not
pub trait SqliteStr: Sealed {
    /// The bytes of the string, without a terminating zero byte.
    spec fn bytes(&self) -> Seq<u8>;

    /// The length, nul terminator *excluded*, and the destructor with which the string
    /// is bound. A string longer than the engine takes is refused.
    fn as_sqlite_str(&self) -> (r: Result<(i32, Destructor), StringError>)
        ensures
            self.bytes().len() > MAX_LENGTH <==> r is Err,
            r matches Err(e) ==> e == StringError::TooLarge,
            r matches Ok(p) ==> p.0 == self.bytes().len() && p.1 == destructor_for(p.0 as int),
    ;

    /// The length and the destructor with which the string is handed over as SQL;
    /// the length is the engine's limit where the string is longer.
    fn as_nulstr(&self) -> (r: (i32, Destructor))
        ensures
            self.bytes().len() <= MAX_LENGTH ==> r.0 == self.bytes().len(),
            self.bytes().len() > MAX_LENGTH ==> r.0 == MAX_LENGTH,
            r.1 == destructor_for(r.0 as int),
    ;

    /// make sure string is nul terminated
    ///
    /// return error if string contains nul byte in the middle
    fn to_nul_string(&self) -> (r: Result<Vec<u8>, StringError>)
        ensures
            r matches Ok(out) ==> out@ == self.bytes().push(0u8) && forall|i: int|
                0 <= i < self.bytes().len() ==> self.bytes()[i] != 0,
            r matches Err(e) ==> e is NulError && is_first_nul(self.bytes(), e->position as int),
    ;
}

impl Sealed for str {

}

impl SqliteStr for str {
    open spec fn bytes(&self) -> Seq<u8> {
        self.spec_bytes()
    }

    fn as_sqlite_str(&self) -> (r: Result<(i32, Destructor), StringError>) {
        as_sqlite_str(self)
    }

    fn as_nulstr(&self) -> (r: (i32, Destructor)) {
        as_nulstr(self)
    }

    fn to_nul_string(&self) -> (r: Result<Vec<u8>, StringError>) {
        to_nul_string(self)
    }
}

impl Sealed for String {

}

impl SqliteStr for String {
    open spec fn bytes(&self) -> Seq<u8> {
        encode_utf8(self@)
    }

    fn as_sqlite_str(&self) -> (r: Result<(i32, Destructor), StringError>) {
        as_sqlite_str(self.as_str())
    }

    fn as_nulstr(&self) -> (r: (i32, Destructor)) {
        as_nulstr(self.as_str())
    }

    fn to_nul_string(&self) -> (r: Result<Vec<u8>, StringError>) {
        to_nul_string(self.as_str())
    }
}

} // verus!
