//! The queue by which any thread asks the owning thread to run something.
//!
//! Whoever holds the queue may put a value on it at any time. The host takes
//! the values off in the order in which they came, one at a time, on the
//! owning thread, and hands each to the function that the queue was made for.
//! Each value is handed over once. The queue is not bounded.

use vstd::prelude::*;
use std::collections::VecDeque;
use crate::env::Env;

verus! {

/// A queue of calls that are owed to the owning thread.
pub struct ThreadsafeFunction<T> {
    pending: VecDeque<T>,
    referenced: bool,
}

/// A queue of calls, in specifications.
pub struct ThreadsafeFunctionView<T> {
    /// The values that were put on the queue and not yet taken off, oldest
    /// first.
    pub pending: Seq<T>,
    /// Whether the queue, by being there, keeps the instance alive.
    pub referenced: bool,
}

impl<T> ThreadsafeFunctionView<T> {
    /// Whether the host must keep the instance alive for this queue: it is
    /// referenced, or something is still on it.
    pub open spec fn keeps_alive(self) -> bool {
        self.referenced || self.pending.len() > 0
    }
}

impl<T> View for ThreadsafeFunction<T> {
    type V = ThreadsafeFunctionView<T>;

    closed spec fn view(&self) -> ThreadsafeFunctionView<T> {
        ThreadsafeFunctionView { pending: self.pending@, referenced: self.referenced }
    }
}

impl<T> ThreadsafeFunction<T> {
    /// Creates a queue in the environment of the owning thread. It is empty
    /// and referenced.
    pub fn new(env: &Env) -> (queue: Self)
        ensures
            queue@ == (ThreadsafeFunctionView::<T> { pending: Seq::empty(), referenced: true }),
    {
        let _ = env;
        ThreadsafeFunction { pending: VecDeque::new(), referenced: true }
    }

    /// References the queue, so that it keeps the instance alive.
    pub fn reference(&mut self, env: &Env)
        ensures
            final(self)@ == (ThreadsafeFunctionView { referenced: true, ..old(self)@ }),
    {
        let _ = env;
        self.referenced = true;
    }

    /// Unreferences the queue, so that it alone does not keep the instance
    /// alive.
    pub fn unref(&mut self, env: &Env)
        ensures
            final(self)@ == (ThreadsafeFunctionView { referenced: false, ..old(self)@ }),
    {
        let _ = env;
        self.referenced = false;
    }

    /// Puts a value on the queue. Any thread that holds the queue may do so.
    pub fn call(&mut self, data: T)
        ensures
            final(self)@ == (ThreadsafeFunctionView {
                pending: old(self)@.pending.push(data),
                ..old(self)@
            }),
    {
        self.pending.push_back(data);
    }

    /// Takes the oldest value off the queue, for the host to hand it to the
    /// queue's function.
    pub fn next_call(&mut self) -> (data: Option<T>)
        ensures
            data == (if old(self)@.pending.len() > 0 {
                Some(old(self)@.pending[0])
            } else {
                None
            }),
            final(self)@ == (ThreadsafeFunctionView {
                pending: if old(self)@.pending.len() > 0 {
                    old(self)@.pending.drop_first()
                } else {
                    old(self)@.pending
                },
                ..old(self)@
            }),
    {
        let data = self.pending.pop_front();
        proof {
            if old(self)@.pending.len() > 0 {
                assert(self.pending@ =~= old(self)@.pending.drop_first());
            }
        }
        data
    }

    /// The number of values on the queue.
    pub fn len(&self) -> (len: usize)
        ensures
            len == self@.pending.len(),
    {
        self.pending.len()
    }

    /// Whether the host must keep the instance alive for this queue: it is
    /// referenced, or something is still on it.
    pub fn keeps_alive(&self) -> (alive: bool)
        ensures
            alive == self@.keeps_alive(),
    {
        self.referenced || self.pending.len() > 0
    }

    /// Whether the queue is referenced.
    pub fn is_referenced(&self) -> (referenced: bool)
        ensures
            referenced == self@.referenced,
    {
        self.referenced
    }
}

} // verus!
