//! The flags of the call that opens a database.
use vstd::prelude::*;

verus! {

/// Database open flag.
///
/// The default is [`OpenFlag::open_readwrite_create`].
#[derive(Debug, Clone, Copy, PartialEq, Eq, Structural)]
pub struct OpenFlag(pub i32);

/// Bit of a read-only open.
pub const SQLITE_OPEN_READONLY: i32 = 0x1;

/// Bit of a read-write open.
pub const SQLITE_OPEN_READWRITE: i32 = 0x2;

/// Bit that lets the open create the database.
pub const SQLITE_OPEN_CREATE: i32 = 0x4;

/// Bit that has the filename read as a URI.
pub const SQLITE_OPEN_URI: i32 = 0x40;

/// Bit of an in-memory database.
pub const SQLITE_OPEN_MEMORY: i32 = 0x80;

/// Bit of the "multi-thread" threading mode.
pub const SQLITE_OPEN_NOMUTEX: i32 = 0x8000;

/// Bit of the "serialized" threading mode.
pub const SQLITE_OPEN_FULLMUTEX: i32 = 0x10000;

/// Bit that enables the shared cache.
pub const SQLITE_OPEN_SHAREDCACHE: i32 = 0x20000;

/// Bit that disables the shared cache.
pub const SQLITE_OPEN_PRIVATECACHE: i32 = 0x40000;

impl OpenFlag {
    /// The flag bits.
    pub open spec fn bits(self) -> i32 {
        self.0
    }

    /// The database is opened in read-only mode. If the database does not already
    /// exist, an error is returned.
    pub fn open_readonly() -> (f: Self)
        ensures
            f.0 == SQLITE_OPEN_READONLY,
    {
        OpenFlag(SQLITE_OPEN_READONLY)
    }

    /// The database is opened for reading and writing if possible, or reading only if
    /// the file is write protected by the operating system.
    pub fn open_readwrite() -> (f: Self)
        ensures
            f.0 == SQLITE_OPEN_READWRITE,
    {
        OpenFlag(SQLITE_OPEN_READWRITE)
    }

    /// The database is opened for reading and writing, and is created if it does not
    /// already exist.
    pub fn open_readwrite_create() -> (f: Self)
        ensures
            f.0 == SQLITE_OPEN_READWRITE | SQLITE_OPEN_CREATE,
            f.0 == 6,
    {
        assert(0x2i32 | 0x4i32 == 6i32) by (bit_vector);
        OpenFlag(SQLITE_OPEN_READWRITE | SQLITE_OPEN_CREATE)
    }

    /// The filename can be interpreted as a URI if this flag is set.
    pub fn open_uri() -> (f: Self)
        ensures
            f.0 == SQLITE_OPEN_URI,
    {
        OpenFlag(SQLITE_OPEN_URI)
    }

    /// The database will be opened as an in-memory database.
    pub fn open_memory() -> (f: Self)
        ensures
            f.0 == SQLITE_OPEN_MEMORY,
    {
        OpenFlag(SQLITE_OPEN_MEMORY)
    }

    /// The new database connection will use the "multi-thread" threading mode.
    pub fn open_nomutex() -> (f: Self)
        ensures
            f.0 == SQLITE_OPEN_NOMUTEX,
    {
        OpenFlag(SQLITE_OPEN_NOMUTEX)
    }

    /// The new database connection will use the "serialized" threading mode.
    pub fn open_fullmutex() -> (f: Self)
        ensures
            f.0 == SQLITE_OPEN_FULLMUTEX,
    {
        OpenFlag(SQLITE_OPEN_FULLMUTEX)
    }

    /// The database is opened shared cache enabled.
    pub fn open_sharedcache() -> (f: Self)
        ensures
            f.0 == SQLITE_OPEN_SHAREDCACHE,
    {
        OpenFlag(SQLITE_OPEN_SHAREDCACHE)
    }

    /// The database is opened shared cache disabled.
    pub fn open_privatecache() -> (f: Self)
        ensures
            f.0 == SQLITE_OPEN_PRIVATECACHE,
    {
        OpenFlag(SQLITE_OPEN_PRIVATECACHE)
    }

    /// Both sets of flags together.
    pub fn union(self, rhs: Self) -> (f: Self)
        ensures
            f.0 == self.0 | rhs.0,
    {
        OpenFlag(self.0 | rhs.0)
    }

    /// Whether every bit of `other` is set here.
    pub fn contains(self, other: Self) -> (b: bool)
        ensures
            b == (self.0 & other.0 == other.0),
    {
        self.0 & other.0 == other.0
    }
}

impl Default for OpenFlag {
    /// Read and write, creating the database where it does not exist.
    fn default() -> (f: Self)
        ensures
            f.0 == SQLITE_OPEN_READWRITE | SQLITE_OPEN_CREATE,
    {
        OpenFlag::open_readwrite_create()
    }
}

/// A union holds each of its two sides, and joining a flag to itself changes nothing.
pub proof fn lemma_union_contains(a: OpenFlag, b: OpenFlag)
    ensures
        (a.0 | b.0) & a.0 == a.0,
        (a.0 | b.0) & b.0 == b.0,
        a.0 | a.0 == a.0,
        a.0 | b.0 == b.0 | a.0,
{
    let x = a.0;
    let y = b.0;
    assert((x | y) & x == x) by (bit_vector);
    assert((x | y) & y == y) by (bit_vector);
    assert(x | x == x) by (bit_vector);
    assert(x | y == y | x) by (bit_vector);
}

} // verus!
