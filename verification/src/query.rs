//! Types for query api.
use vstd::prelude::*;
use crate::error::BindError;
use crate::stack::Stack;
use crate::value::ValueRef;

verus! {

/// Query api created by [`query`]
///
/// Note that parameter [`bind`][Query::bind] have hard limit of 16.
pub struct Query<'a> {
    sql: &'a str,
    params: Stack<ValueRef<'a>, 16>,
    overflow: bool,
}

/// Starts a query of the given SQL text, with no parameter bound yet.
pub fn query<'a>(sql: &'a str) -> (q: Query<'a>)
    ensures
        q.sql() == sql@,
        q.params() == Seq::<ValueRef<'a>>::empty(),
        !q.overflowed(),
{
    Query { sql, params: Stack::with_size(), overflow: false }
}

impl<'a> Query<'a> {
    /// The SQL text.
    pub closed spec fn sql(&self) -> Seq<char> {
        self.sql@
    }

    /// The values bound so far, the first one first.
    pub closed spec fn params(&self) -> Seq<ValueRef<'a>> {
        self.params@
    }

    /// Whether more values were bound than a statement takes.
    pub closed spec fn overflowed(&self) -> bool {
        self.overflow
    }

    /// Bind a parameter.
    ///
    /// Note that parameter binding have hard limit of 16: a value past the limit is
    /// not kept, and the query is marked, so that it fails before the engine is
    /// asked for anything.
    pub fn bind(self, value: ValueRef<'a>) -> (q: Self)
        ensures
            q.sql() == self.sql(),
            self.params().len() < 16 ==> q.params() == self.params().push(value) && q.overflowed()
                == self.overflowed(),
            self.params().len() >= 16 ==> q.params() == self.params() && q.overflowed(),
    {
        let mut q = self;
        match q.params.push(value) {
            Some(_) => {
                q.overflow = true;
            },
            None => {},
        }
        q
    }

    /// How many values are bound.
    pub fn len(&self) -> (n: usize)
        ensures
            n == self.params().len(),
            n <= 16,
    {
        self.params.len()
    }

    /// The SQL text and the values to bind to it, in the order in which they were
    /// bound. A query that was given too many values fails here, before anything is
    /// compiled or bound.
    pub fn into_parts(self) -> (r: Result<(&'a str, Stack<ValueRef<'a>, 16>), BindError>)
        ensures
            r is Err <==> self.overflowed(),
            r matches Err(e) ==> e matches BindError::TooManyParameters,
            r matches Ok(parts) ==> parts.0@ == self.sql() && parts.1@ == self.params(),
    {
        if self.overflow {
            Err(BindError::TooManyParameters)
        } else {
            Ok((self.sql, self.params))
        }
    }
}

} // verus!
