//! Bookkeeping of a bounded set of pooled connections.
//!
//! The pool's lock and its condition variable belong to the embedding program.
//! Under that lock it asks [`PoolStack::checkout`] what to do, and does it:
//! use the idle connection it was handed, open a new one, or wait for a release.
use vstd::prelude::*;
use crate::stack::Stack;

verus! {

/// The most connections a pool can be set up to keep alive, idle and checked out
/// together; it is also the size of a pool that is set up without one.
pub const MAX_POOL_SIZE: usize = 8;

/// The idle connections of a pool, the count of all that are alive, and the most
/// that may be.
pub struct PoolStack<C> {
    stack: Stack<C, 8>,
    alive: usize,
    max: usize,
}

/// What a caller that asked for a connection has to do.
pub enum Checkout<C> {
    /// Use this connection, which was idle.
    Idle(C),
    /// Open a new connection: a place has been counted for it.
    Open,
    /// Every connection is checked out: wait for a release, then ask again.
    Wait,
}

impl<C> PoolStack<C> {
    /// The idle connections, the one released last at the end.
    pub closed spec fn idle(&self) -> Seq<C> {
        self.stack@
    }

    /// How many connections are alive, idle or checked out.
    pub closed spec fn alive(&self) -> nat {
        self.alive as nat
    }

    /// The most connections that the pool keeps alive.
    pub closed spec fn max_size(&self) -> nat {
        self.max as nat
    }

    /// How many connections are checked out.
    pub open spec fn checked_out(&self) -> int {
        self.alive() - self.idle().len()
    }

    /// No more connections are idle than alive, and no more alive than the pool allows.
    pub open spec fn wf(&self) -> bool {
        self.idle().len() <= self.alive() <= self.max_size() <= MAX_POOL_SIZE
    }

    /// How `pre` answers a checkout, and what it becomes.
    pub open spec fn checkout_step(pre: Self, post: Self, out: Checkout<C>) -> bool {
        &&& post.max_size() == pre.max_size()
        &&& if pre.idle().len() > 0 {
            &&& out == Checkout::Idle(pre.idle().last())
            &&& post.idle() == pre.idle().drop_last()
            &&& post.alive() == pre.alive()
        } else if pre.alive() < pre.max_size() {
            &&& out == Checkout::<C>::Open
            &&& post.idle() == pre.idle()
            &&& post.alive() == pre.alive() + 1
        } else {
            &&& out == Checkout::<C>::Wait
            &&& post.idle() == pre.idle()
            &&& post.alive() == pre.alive()
        }
    }

    /// How `pre` takes back `conn`: `refused` holds it when nothing was checked out.
    pub open spec fn release_step(pre: Self, conn: C, post: Self, refused: Option<C>) -> bool {
        &&& post.max_size() == pre.max_size()
        &&& if pre.checked_out() > 0 {
            &&& refused.is_none()
            &&& post.idle() == pre.idle().push(conn)
            &&& post.alive() == pre.alive()
        } else {
            &&& refused == Some(conn)
            &&& post.idle() == pre.idle()
            &&& post.alive() == pre.alive()
        }
    }

    /// A pool of the largest size, with no connection yet.
    pub fn new() -> (pool: Self)
        ensures
            pool.wf(),
            pool.idle() == Seq::<C>::empty(),
            pool.alive() == 0,
            pool.max_size() == MAX_POOL_SIZE,
    {
        PoolStack { stack: Stack::with_size(), alive: 0, max: MAX_POOL_SIZE }
    }

    /// A pool that keeps at most `max` connections alive, with no connection yet. A
    /// size above the largest is cut down to it; a pool of size 0 makes every caller
    /// wait.
    pub fn with_max_size(max: usize) -> (pool: Self)
        ensures
            pool.wf(),
            pool.idle() == Seq::<C>::empty(),
            pool.alive() == 0,
            pool.max_size() == if max <= MAX_POOL_SIZE {
                max
            } else {
                MAX_POOL_SIZE
            },
    {
        let max = if max <= MAX_POOL_SIZE {
            max
        } else {
            MAX_POOL_SIZE
        };
        PoolStack { stack: Stack::with_size(), alive: 0, max }
    }

    /// The most connections that the pool keeps alive.
    pub fn max(&self) -> (n: usize)
        ensures
            n == self.max_size(),
    {
        self.max
    }

    /// How many connections are alive.
    pub fn alive_count(&self) -> (n: usize)
        ensures
            n == self.alive(),
    {
        self.alive
    }

    /// How many connections are idle.
    pub fn idle_count(&self) -> (n: usize)
        ensures
            n == self.idle().len(),
    {
        self.stack.len()
    }

    /// Decides a checkout: the idle connection released last if there is one, else a
    /// new connection while the pool has room, else a wait.
    pub fn checkout(&mut self) -> (out: Checkout<C>)
        requires
            old(self).wf(),
        ensures
            final(self).wf(),
            Self::checkout_step(*old(self), *final(self), out),
    {
        match self.stack.pop() {
            Some(conn) => Checkout::Idle(conn),
            None => {
                if self.alive >= self.max {
                    Checkout::Wait
                } else {
                    self.alive = self.alive + 1;
                    Checkout::Open
                }
            },
        }
    }

    /// Gives up the place that a checkout counted for a connection that could not be
    /// opened. Where nothing is checked out the pool is left as it is.
    pub fn open_failed(&mut self) -> (gave_up: bool)
        requires
            old(self).wf(),
        ensures
            final(self).wf(),
            gave_up == (old(self).checked_out() > 0),
            final(self).max_size() == old(self).max_size(),
            final(self).idle() == old(self).idle(),
            final(self).alive() == old(self).alive() - if gave_up { 1int } else { 0int },
    {
        if self.stack.len() < self.alive {
            self.alive = self.alive - 1;
            true
        } else {
            false
        }
    }

    /// Takes a checked-out connection back as the next one to be handed out. The caller
    /// then wakes one waiter. A connection that the pool cannot have handed out
    /// (nothing is checked out) comes back in the result.
    pub fn release(&mut self, conn: C) -> (refused: Option<C>)
        requires
            old(self).wf(),
        ensures
            final(self).wf(),
            Self::release_step(*old(self), conn, *final(self), refused),
    {
        if self.stack.len() < self.alive {
            self.stack.push(conn)
        } else {
            Some(conn)
        }
    }
}

/// A pool in which every allowed connection is checked out makes the next caller
/// wait and stays as it is; once one connection is released, the next checkout is
/// handed that connection, and at no point are more connections checked out than
/// the pool allows.
pub proof fn lemma_checkout_waits_until_release<C>(
    full: PoolStack<C>,
    waiting: PoolStack<C>,
    blocked: Checkout<C>,
    conn: C,
    released: PoolStack<C>,
    refused: Option<C>,
    resumed: PoolStack<C>,
    handed: Checkout<C>,
)
    requires
        full.wf(),
        0 < full.max_size(),
        full.checked_out() == full.max_size(),
        PoolStack::checkout_step(full, waiting, blocked),
        PoolStack::release_step(waiting, conn, released, refused),
        PoolStack::checkout_step(released, resumed, handed),
    ensures
        blocked == Checkout::<C>::Wait,
        waiting.checked_out() == full.max_size(),
        refused.is_none(),
        released.checked_out() == full.max_size() - 1,
        handed == Checkout::Idle(conn),
        resumed.checked_out() == full.max_size(),
{
}

/// Checkouts and releases keep the number of checked-out connections within the
/// pool's limit.
pub proof fn lemma_checked_out_bounded<C>(
    pre: PoolStack<C>,
    post: PoolStack<C>,
    out: Checkout<C>,
)
    requires
        pre.wf(),
        PoolStack::checkout_step(pre, post, out),
    ensures
        post.wf(),
        0 <= post.checked_out() <= post.max_size(),
        out is Wait <==> pre.checked_out() == pre.max_size(),
{
}

} // verus!
