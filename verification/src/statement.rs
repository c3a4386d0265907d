//! The protocol of a compiled statement: bind, step, and reset.
//!
//! A [`Statement`] stands for a compiled statement at rest: reset, with no
//! parameter bound. Binding turns it into a [`RowStream`], which is stepped row
//! by row; finishing the stream gives the statement back, with the two native
//! calls that put the engine's side to rest as well.
use vstd::prelude::*;
use crate::code::{out_of_order, StepResult, SQLITE_DONE, SQLITE_MISUSE, SQLITE_OK, SQLITE_ROW};
use crate::error::{
    message_bytes, try_result, BindError, DatabaseError, ResetError, StepError, StringError,
};
use crate::value::{BindCall, ValueRef, Wire};

verus! {

/// The most parameters that one statement is bound with.
pub const MAX_PARAMETERS: usize = 16;

/// Where a stream stands in its iteration.
#[derive(Debug, Clone, Copy, PartialEq, Eq, Structural)]
pub enum Position {
    /// Bound and not stepped yet.
    Unstarted,
    /// The last step produced a row.
    RowAvailable,
    /// The last step finished the statement.
    Exhausted,
}

/// What a stream that is asked for its next row has the caller do.
#[derive(Debug, Clone, Copy, PartialEq, Eq, Structural)]
pub enum Advance {
    /// Step the statement once and report the result code.
    Step,
    /// Nothing: the statement is finished, and is not to be stepped again.
    Finished,
}

/// A native call that puts a statement to rest.
#[derive(Debug, Clone, Copy, PartialEq, Eq, Structural)]
pub enum Cleanup {
    /// Set the statement back to before its first step.
    Reset,
    /// Unbind every parameter.
    ClearBindings,
}

/// The engine's side of a compiled statement, as far as the driver's calls change
/// it: the payloads bound to its parameters, by their one-based index, and whether
/// it was stepped since it was last reset.
pub struct EngineSide {
    pub bindings: Map<int, Wire>,
    pub stepped: bool,
}

impl EngineSide {
    /// Nothing is bound and the statement stands before its first step.
    pub open spec fn at_rest(self) -> bool {
        self.bindings == Map::<int, Wire>::empty() && !self.stepped
    }

    /// The engine's side after a cleanup call.
    pub open spec fn after_cleanup(self, call: Cleanup) -> EngineSide {
        match call {
            Cleanup::Reset => EngineSide { stepped: false, ..self },
            Cleanup::ClearBindings => EngineSide { bindings: Map::empty(), ..self },
        }
    }

    /// The engine's side after a bind call.
    pub open spec fn after_bind(self, call: BindCall<'_>) -> EngineSide {
        EngineSide {
            bindings: self.bindings.insert(call.spec_index() as int, call.wire()),
            ..self
        }
    }

    /// The engine's side after the first `n` of the bind calls `calls`.
    pub open spec fn after_binds(self, calls: Seq<BindCall<'_>>, n: nat) -> EngineSide
        decreases n,
    {
        if n == 0 {
            self
        } else {
            self.after_binds(calls, (n - 1) as nat).after_bind(calls[n - 1])
        }
    }
}

/// A compiled statement at rest, named by the handle under which the embedding
/// program keeps it.
#[derive(Debug)]
pub struct Statement {
    handle: u64,
}

/// Bounded prepared statement and ready for iteration.
#[derive(Debug)]
pub struct RowStream {
    handle: u64,
    bound: usize,
    position: Position,
}

/// Every value of `args` can be bound.
pub open spec fn all_bindable(args: Seq<ValueRef<'_>>) -> bool {
    forall|i: int| 0 <= i < args.len() ==> (#[trigger] args[i]).bindable()
}

/// `calls` binds `args` in order, to the parameters 1, 2, and so on.
pub open spec fn binds_in_order(calls: Seq<BindCall<'_>>, args: Seq<ValueRef<'_>>) -> bool {
    &&& calls.len() == args.len()
    &&& forall|i: int|
        0 <= i < calls.len() ==> {
            &&& (#[trigger] calls[i]).spec_index() == i + 1
            &&& calls[i].wire() == Wire::of_value(args[i]@)
            &&& calls[i].well_sized()
        }
}

impl Statement {
    /// The handle of the statement.
    pub closed spec fn spec_handle(&self) -> u64 {
        self.handle
    }

    /// The statement at rest under `handle`.
    pub fn new(handle: u64) -> (stmt: Self)
        ensures
            stmt.spec_handle() == handle,
    {
        Statement { handle }
    }

    /// The handle of the statement.
    #[verifier::when_used_as_spec(spec_handle)]
    pub fn handle(&self) -> (handle: u64)
        ensures
            handle == self.spec_handle(),
    {
        self.handle
    }

    /// How binding `args` to the statement `self` turns out.
    pub open spec fn binds<'a>(
        self,
        args: Seq<ValueRef<'a>>,
        r: Result<(RowStream, Vec<BindCall<'a>>), BindError>,
    ) -> bool {
        if args.len() > MAX_PARAMETERS {
            r matches Err(BindError::TooManyParameters)
        } else if !all_bindable(args) {
            r matches Err(BindError::String(StringError::TooLarge))
        } else {
            r matches Ok(bound) && {
                &&& bound.0.handle() == self.spec_handle()
                &&& bound.0.position() == Position::Unstarted
                &&& bound.0.bindings() == args.len()
                &&& binds_in_order(bound.1@, args)
            }
        }
    }

    /// bind a value and start iterating row
    ///
    /// The result holds the stream and the native calls that bind `args`, in order,
    /// to the parameters 1, 2, and so on. More values than a statement takes, or a
    /// text longer than the engine takes, are refused with no call to make.
    pub fn bind<'a>(self, args: &[ValueRef<'a>]) -> (r: Result<
        (RowStream, Vec<BindCall<'a>>),
        BindError,
    >)
        ensures
            self.binds(args@, r),
    {
        if args.len() > MAX_PARAMETERS {
            return Err(BindError::TooManyParameters);
        }
        let mut calls: Vec<BindCall<'a>> = Vec::new();
        let mut i: usize = 0;
        while i < args.len()
            invariant
                0 <= i <= args@.len() <= MAX_PARAMETERS,
                calls@.len() == i,
                forall|j: int| 0 <= j < i ==> (#[trigger] args@[j]).bindable(),
                forall|j: int|
                    0 <= j < i ==> {
                        &&& (#[trigger] calls@[j]).spec_index() == j + 1
                        &&& calls@[j].wire() == Wire::of_value(args@[j]@)
                        &&& calls@[j].well_sized()
                    },
            decreases args@.len() - i,
        {
            let idx: i32 = (i + 1) as i32;
            match args[i].bind(idx) {
                Ok(call) => {
                    calls.push(call);
                },
                Err(e) => {
                    proof {
                        assert(!args@[i as int].bindable());
                    }
                    return Err(BindError::String(StringError::TooLarge));
                },
            }
            i = i + 1;
        }
        Ok((RowStream { handle: self.handle, bound: args.len(), position: Position::Unstarted }, calls))
    }

    /// The native calls that put the statement to rest, in the order to make them.
    pub fn reset(&self) -> (calls: (Cleanup, Cleanup))
        ensures
            calls == (Cleanup::Reset, Cleanup::ClearBindings),
    {
        (Cleanup::Reset, Cleanup::ClearBindings)
    }
}

impl RowStream {
    /// The handle of the statement that the stream runs.
    pub closed spec fn handle(&self) -> u64 {
        self.handle
    }

    /// How many parameters are bound.
    pub closed spec fn bindings(&self) -> nat {
        self.bound as nat
    }

    /// Where the stream stands.
    pub closed spec fn position(&self) -> Position {
        self.position
    }

    /// What a step that reports `code` makes of the position `before`.
    pub open spec fn position_after(before: Position, code: i32) -> Position {
        if code == SQLITE_ROW {
            Position::RowAvailable
        } else if code == SQLITE_DONE {
            Position::Exhausted
        } else {
            before
        }
    }

    /// How finishing the stream `self` turns out.
    pub open spec fn finishes(self, stmt: Statement, calls: (Cleanup, Cleanup)) -> bool {
        &&& stmt.spec_handle() == self.handle()
        &&& calls == (Cleanup::Reset, Cleanup::ClearBindings)
    }

    /// The handle of the statement that the stream runs.
    pub fn statement_handle(&self) -> (handle: u64)
        ensures
            handle == self.handle(),
    {
        self.handle
    }

    /// How many parameters are bound.
    pub fn bound_count(&self) -> (n: usize)
        ensures
            n == self.bindings(),
    {
        self.bound
    }

    /// Whether the statement is finished.
    pub fn is_done(&self) -> (b: bool)
        ensures
            b == (self.position() == Position::Exhausted),
    {
        match self.position {
            Position::Exhausted => true,
            _ => false,
        }
    }

    /// fetch the next row
    ///
    /// Says what to do for the next row: step the statement, or nothing when the
    /// stream is exhausted, which stays exhausted however often it is asked.
    pub fn next(&self) -> (todo: Advance)
        ensures
            todo == if self.position() == Position::Exhausted {
                Advance::Finished
            } else {
                Advance::Step
            },
    {
        match self.position {
            Position::Exhausted => Advance::Finished,
            _ => Advance::Step,
        }
    }

    /// Takes the result code of the step that [`RowStream::next`] asked for, with the
    /// engine's last message: a row, the end, or the error. An error leaves the
    /// stream where it stood.
    ///
    /// An exhausted stream is not stepped, and a report of misuse is not an error to
    /// hand on: the caller aborts on it.
    pub fn stepped(&mut self, code: i32, errmsg: Option<&[u8]>) -> (r: Result<
        StepResult,
        StepError,
    >)
        requires
            old(self).position() != Position::Exhausted,
            code != SQLITE_MISUSE,
        ensures
            final(self).handle() == old(self).handle(),
            final(self).bindings() == old(self).bindings(),
            final(self).position() == Self::position_after(old(self).position(), code),
            r is Ok <==> StepResult::of_code(code).is_some(),
            r matches Ok(step) ==> Some(step) == StepResult::of_code(code),
            r matches Err(e) ==> e.0.reports(code, message_bytes(errmsg)),
    {
        match StepResult::from_code(code) {
            Some(StepResult::Row) => {
                self.position = Position::RowAvailable;
                Ok(StepResult::Row)
            },
            Some(StepResult::Done) => {
                self.position = Position::Exhausted;
                Ok(StepResult::Done)
            },
            None => Err(StepError(DatabaseError::from_code(code, errmsg))),
        }
    }

    /// Ends the stream, wherever it stands: gives the statement back at rest, and the
    /// two native calls that reset the engine's side and clear its bindings, in the
    /// order to make them. The calls are owed on every way out of an iteration.
    pub fn finish(self) -> (r: (Statement, (Cleanup, Cleanup)))
        ensures
            self.finishes(r.0, r.1),
    {
        (Statement { handle: self.handle }, (Cleanup::Reset, Cleanup::ClearBindings))
    }
}

/// Reads the result code of one bind call: success, or the engine's error.
pub fn bind_result(code: i32, errmsg: Option<&[u8]>) -> (r: Result<(), BindError>)
    requires
        !out_of_order(code),
    ensures
        r is Ok <==> code == SQLITE_OK,
        r matches Err(e) ==> e matches BindError::Database(d) && d.reports(
            code,
            message_bytes(errmsg),
        ),
{
    match try_result(code, errmsg) {
        Ok(()) => Ok(()),
        Err(e) => Err(BindError::Database(e)),
    }
}

/// Reads the result code of a cleanup call. A failure is something to report on the
/// diagnostic channel, never an error of the operation that was cleaned up after: so
/// it comes back as a value, not as an `Err`.
pub fn cleanup_report(code: i32, errmsg: Option<&[u8]>) -> (report: Option<ResetError>)
    requires
        !out_of_order(code),
    ensures
        report.is_none() <==> code == SQLITE_OK,
        report matches Some(e) ==> e.0.reports(code, message_bytes(errmsg)),
{
    match try_result(code, errmsg) {
        Ok(()) => None,
        Err(e) => Some(ResetError(e)),
    }
}

/// Reads the result code of a reset or clear-bindings call that the caller made for
/// its own sake.
pub fn reset_result(code: i32, errmsg: Option<&[u8]>) -> (r: Result<(), ResetError>)
    requires
        !out_of_order(code),
    ensures
        r is Ok <==> code == SQLITE_OK,
        r matches Err(e) ==> e.0.reports(code, message_bytes(errmsg)),
{
    match try_result(code, errmsg) {
        Ok(()) => Ok(()),
        Err(e) => Err(ResetError(e)),
    }
}

/// The bind calls for `args`, made on a statement at rest, leave exactly the
/// parameters 1 to the number of values bound, each to the payload of its value.
pub proof fn lemma_binds_fill_the_parameters(
    calls: Seq<BindCall<'_>>,
    args: Seq<ValueRef<'_>>,
    n: nat,
)
    requires
        binds_in_order(calls, args),
        n <= calls.len(),
    ensures
        (EngineSide { bindings: Map::empty(), stepped: false }).after_binds(calls, n).bindings
            =~= Map::new(|i: int| 1 <= i <= n, |i: int| Wire::of_value(args[i - 1]@)),
        !(EngineSide { bindings: Map::empty(), stepped: false }).after_binds(calls, n).stepped,
    decreases n,
{
    if n > 0 {
        lemma_binds_fill_the_parameters(calls, args, (n - 1) as nat);
        assert(calls[n - 1].spec_index() == n);
    }
}

/// A stream that is finished, wherever it stood, leaves its statement at rest: the
/// cleanup calls leave the engine's side, whatever it was, with nothing bound and
/// before the first step, and binding the statement again succeeds at once, for
/// any values that can be bound, and starts a fresh iteration with those values
/// alone.
pub proof fn lemma_finished_stream_is_reusable<'a>(
    stream: RowStream,
    stmt: Statement,
    calls: (Cleanup, Cleanup),
    args: Seq<ValueRef<'a>>,
    again: Result<(RowStream, Vec<BindCall<'a>>), BindError>,
    engine: EngineSide,
)
    requires
        stream.finishes(stmt, calls),
        args.len() <= MAX_PARAMETERS,
        all_bindable(args),
        stmt.binds(args, again),
    ensures
        engine.after_cleanup(calls.0).after_cleanup(calls.1).at_rest(),
        again matches Ok(bound) && bound.0.handle() == stream.handle() && bound.0.position()
            == Position::Unstarted && bound.0.bindings() == args.len(),
{
}

} // verus!
