//! The lifetime of a native handle: released once, and only once.
use vstd::prelude::*;

verus! {

/// A native handle, of a database or of a compiled statement, under the name by
/// which the embedding program keeps it, together with whether it is still owed a
/// release.
#[derive(Debug)]
pub struct NativeHandle {
    token: u64,
    live: bool,
}

impl NativeHandle {
    /// The name of the handle.
    pub closed spec fn token(&self) -> u64 {
        self.token
    }

    /// Whether the handle is still to be released.
    pub closed spec fn is_live(&self) -> bool {
        self.live
    }

    /// How releasing the handle `pre` turns out: a live handle is owed the native
    /// release, and is live no more; a released one is owed nothing.
    pub open spec fn close_step(pre: Self, post: Self, owed: Option<u64>) -> bool {
        &&& post.token() == pre.token()
        &&& !post.is_live()
        &&& owed == if pre.is_live() {
            Some(pre.token())
        } else {
            None
        }
    }

    /// The handle `token`, just opened.
    pub fn new(token: u64) -> (handle: Self)
        ensures
            handle.token() == token,
            handle.is_live(),
    {
        NativeHandle { token, live: true }
    }

    /// The name of the handle while it is live: a released handle is not to be used.
    pub fn get(&self) -> (token: Option<u64>)
        ensures
            token == if self.is_live() {
                Some(self.token())
            } else {
                None
            },
    {
        if self.live {
            Some(self.token)
        } else {
            None
        }
    }

    /// Releases the handle. The first call hands out the name, for which the caller
    /// makes the native release; every later call hands out nothing.
    pub fn close(&mut self) -> (owed: Option<u64>)
        ensures
            Self::close_step(*old(self), *final(self), owed),
    {
        if self.live {
            self.live = false;
            Some(self.token)
        } else {
            None
        }
    }
}

/// However often a handle is released, the native release is owed once: by the
/// first release of a live handle, and by none after it.
pub proof fn lemma_released_once(
    opened: NativeHandle,
    closed: NativeHandle,
    first: Option<u64>,
    again: NativeHandle,
    second: Option<u64>,
)
    requires
        opened.is_live(),
        NativeHandle::close_step(opened, closed, first),
        NativeHandle::close_step(closed, again, second),
    ensures
        first == Some(opened.token()),
        second.is_none(),
        !again.is_live(),
{
}

} // verus!
