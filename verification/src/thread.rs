//! Main-thread identity and main-thread-only state.
//!
//! The hook claims the game's update thread on its first input-hook call; every later access to
//! main-thread state must come from that same thread. A [`MainThread`] value is the witness that
//! the check passed, and [`MainCell`] accessors demand one.

use vstd::prelude::*;

verus! {

/// The thread id that owns the main-thread state. `0` means that no thread has claimed it yet.
pub struct ThreadOwner {
    main_tid: u32,
}

/// An access to main-thread state from another thread: `current` is the caller, `main` the owner.
#[derive(Debug, Clone, Copy, PartialEq, Eq, Structural)]
pub struct OffMainThread {
    pub current: u32,
    pub main: u32,
}

impl ThreadOwner {
    /// The owner's thread id; `0` while unclaimed.
    pub closed spec fn main_tid(&self) -> u32 {
        self.main_tid
    }

    /// An unclaimed owner.
    pub fn new() -> (r: Self)
        ensures
            r.main_tid() == 0,
    {
        ThreadOwner { main_tid: 0 }
    }
}

/// The refusal of an access to main-thread state from thread `current`.
pub fn off_main_thread(owner: &ThreadOwner, current: u32) -> (r: OffMainThread)
    ensures
        r == (OffMainThread { current, main: owner.main_tid() }),
{
    OffMainThread { current, main: owner.main_tid }
}

/// A zero-sized witness that the calling thread is the game's update ("main") thread.
#[derive(Clone, Copy)]
pub struct MainThread {
    _witness: (),
}

impl MainThread {
    /// On the first call, claims the update thread for `tid`; on later calls, confirms that `tid`
    /// is the claimed thread. Any other thread is refused.
    pub fn claim(owner: &mut ThreadOwner, tid: u32) -> (r: Result<MainThread, OffMainThread>)
        ensures
            old(owner).main_tid() == 0 ==> r is Ok && final(owner).main_tid() == tid,
            old(owner).main_tid() == tid ==> r is Ok && final(owner).main_tid() == tid,
            old(owner).main_tid() != 0 && old(owner).main_tid() != tid ==> {
                &&& r == Err::<MainThread, OffMainThread>(
                    OffMainThread { current: tid, main: old(owner).main_tid() },
                )
                &&& final(owner).main_tid() == old(owner).main_tid()
            },
    {
        if owner.main_tid == 0 {
            owner.main_tid = tid;
            Ok(MainThread { _witness: () })
        } else if owner.main_tid == tid {
            Ok(MainThread { _witness: () })
        } else {
            Err(off_main_thread(owner, tid))
        }
    }

    /// Confirms that `tid` is the claimed thread; refuses every other thread, and every thread
    /// while the owner is unclaimed (unless `tid` is itself `0`).
    pub fn current(owner: &ThreadOwner, tid: u32) -> (r: Result<MainThread, OffMainThread>)
        ensures
            r is Ok <==> owner.main_tid() == tid,
            r is Err ==> r == Err::<MainThread, OffMainThread>(
                OffMainThread { current: tid, main: owner.main_tid() },
            ),
    {
        if owner.main_tid == tid {
            Ok(MainThread { _witness: () })
        } else {
            Err(off_main_thread(owner, tid))
        }
    }
}

/// A witness that game code is not concurrently touching the memory that the holder will modify.
#[derive(Clone, Copy)]
pub struct MainToken {
    thread: MainThread,
}

impl MainToken {
    /// The main-thread witness this token carries.
    pub closed spec fn claimed(self) -> MainThread {
        self.thread
    }

    /// Wraps `thread`. The caller vouches that game code is quiescent for the holder's writes.
    pub fn new(thread: MainThread) -> (r: Self)
        ensures
            r.claimed() == thread,
    {
        MainToken { thread }
    }

    /// Returns the claimed thread associated with this token.
    pub fn thread(self) -> (r: MainThread)
        ensures
            r == self.claimed(),
    {
        self.thread
    }
}

/// Main-thread-only state. Every access takes a [`MainThread`] witness.
pub struct MainCell<T> {
    value: T,
}

impl<T> MainCell<T> {
    /// The current contents.
    pub closed spec fn value(&self) -> T {
        self.value
    }

    pub fn new(value: T) -> (r: Self)
        ensures
            r.value() == value,
    {
        MainCell { value }
    }

    /// Replaces the contents, dropping the previous ones.
    pub fn set(&mut self, thread: MainThread, value: T)
        ensures
            final(self).value() == value,
    {
        self.value = value;
    }

    /// Swaps in `value` and returns the previous contents.
    pub fn replace(&mut self, thread: MainThread, value: T) -> (r: T)
        ensures
            r == old(self).value(),
            final(self).value() == value,
    {
        let mut previous = value;
        core::mem::swap(&mut self.value, &mut previous);
        previous
    }
}

impl<T: Copy> MainCell<T> {
    pub fn get(&self, thread: MainThread) -> (r: T)
        ensures
            r == self.value(),
    {
        self.value
    }
}

} // verus!
