//! A lock with room for a single waiter.
//!
//! The value moves out with the guard and back in when the guard is given
//! back, so the guard can be kept across suspension points. Only the task
//! that was parked last is woken when the lock becomes free.

use vstd::prelude::*;

use crate::wake::{new_waker_cell, park_waker, wake_parked, PollState};
use atomic_waker::AtomicWaker;
use core::task::Waker;

verus! {

/// A lock around a `T`.
pub struct LocalLock<T> {
    value: Option<T>,
    waker: AtomicWaker,
}

/// The value of a lock that is held.
pub struct LocalLockGuard<T> {
    value: T,
}

impl<T> LocalLockGuard<T> {
    /// The guarded value.
    pub closed spec fn inner(&self) -> T {
        self.value
    }

    /// The guarded value.
    pub fn get(&self) -> (value: &T)
        ensures
            *value == self.inner(),
    {
        &self.value
    }

    /// The guarded value, for modification in place.
    pub fn get_mut(&mut self) -> (value: &mut T)
        ensures
            *value == old(self).inner(),
            final(self).inner() == *final(value),
    {
        &mut self.value
    }
}

impl<T> View for LocalLock<T> {
    type V = Option<T>;

    /// The value while the lock is free; `None` while it is held.
    closed spec fn view(&self) -> Option<T> {
        self.value
    }
}

impl<T> LocalLock<T> {
    /// Whether a task is parked until the lock is free.
    pub closed spec fn waiting(&self) -> bool {
        crate::wake::waker_parked(self.waker)
    }

    /// A free lock around `value`.
    pub fn new(value: T) -> (lock: Self)
        ensures
            lock@ == Some(value),
            !lock.waiting(),
    {
        LocalLock { value: Some(value), waker: new_waker_cell() }
    }

    /// The value of a free lock.
    pub fn into_inner(self) -> (value: T)
        requires
            self@ is Some,
        ensures
            Some(value) == self@,
    {
        self.value.unwrap()
    }

    /// Takes the lock if it is free.
    pub fn try_lock(&mut self) -> (guard: Option<LocalLockGuard<T>>)
        ensures
            final(self).waiting() == old(self).waiting(),
            final(self)@ is None,
            match old(self)@ {
                Some(value) => guard matches Some(g) && g.inner() == value,
                None => guard is None,
            },
    {
        match self.value.take() {
            Some(value) => Some(LocalLockGuard { value }),
            None => None,
        }
    }

    /// One poll of an acquisition that waits until the lock is free.
    pub fn poll_lock(&mut self, waker: &Waker) -> (guard: PollState<LocalLockGuard<T>>)
        ensures
            final(self)@ is None,
            match old(self)@ {
                Some(value) => {
                    &&& guard matches PollState::Ready(g) && g.inner() == value
                    &&& final(self).waiting() == old(self).waiting()
                },
                None => guard is Pending && final(self).waiting(),
            },
    {
        match self.try_lock() {
            Some(guard) => PollState::Ready(guard),
            None => {
                park_waker(&mut self.waker, waker);
                match self.try_lock() {
                    Some(guard) => PollState::Ready(guard),
                    None => PollState::Pending,
                }
            },
        }
    }

    /// Frees a lock that is held and wakes the task that waits for it.
    pub fn unlock(&mut self, guard: LocalLockGuard<T>)
        requires
            old(self)@ is None,
        ensures
            final(self)@ == Some(guard.inner()),
            !final(self).waiting(),
    {
        self.value = Some(guard.value);
        wake_parked(&mut self.waker);
    }
}

} // verus!
