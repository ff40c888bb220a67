//! The handles that the host gives out, and the status it answers with.
//!
//! A handle is an index into one of the tables of an [`Env`](crate::env::Env);
//! it means nothing without that environment.

use vstd::prelude::*;

verus! {

/// What the host answers to a request.
#[derive(Clone, Copy, PartialEq, Eq, Debug, Structural)]
pub enum Status {
    /// The request was carried out.
    Success,
    InvalidArg,
    ObjectExpected,
    StringExpected,
    NameExpected,
    FunctionExpected,
    NumberExpected,
    BooleanExpected,
    ArrayExpected,
    GenericFailure,
    PendingException,
    /// The work was taken back before the pool began it.
    Cancelled,
    EscapeCalledTwice,
    HandleScopeMismatch,
    CallbackScopeMismatch,
    QueueFull,
    Closing,
    BigintExpected,
    DateExpected,
    ArraybufferExpected,
    DetachableArraybufferExpected,
    WouldDeadlock,
}

/// A handle to a value of the environment.
#[derive(Clone, Copy, PartialEq, Eq, Hash, Debug, Structural)]
pub struct Local {
    index: usize,
}

impl Local {
    /// The place of the value in the environment's table of values.
    pub closed spec fn index(self) -> int {
        self.index as int
    }

    /// The handle with a given index.
    pub closed spec fn at(index: int) -> Local {
        Local { index: index as usize }
    }

    /// An index is a `usize`.
    pub broadcast proof fn lemma_index_bounds(local: Local)
        ensures
            0 <= #[trigger] local.index() <= usize::MAX,
    {
    }

    /// The handle with a given index has that index.
    pub broadcast proof fn lemma_at_index(index: int)
        requires
            0 <= index <= usize::MAX,
        ensures
            #[trigger] Local::at(index).index() == index,
    {
    }

    /// The handle of `undefined`, which stands first in every environment.
    pub closed spec fn undefined() -> Local {
        Local { index: 0 }
    }

    /// The handle of `undefined` has index 0.
    pub broadcast proof fn lemma_undefined_index()
        ensures
            #[trigger] Local::undefined().index() == 0,
    {
    }

    /// Two handles with one index are one handle.
    pub broadcast proof fn lemma_index_injective(a: Local, b: Local)
        requires
            #[trigger] a.index() == #[trigger] b.index(),
        ensures
            a == b,
    {
    }

    pub(crate) fn new(index: usize) -> (local: Local)
        ensures
            local.index() == index,
    {
        Local { index }
    }

    pub(crate) fn slot(self) -> (index: usize)
        ensures
            index == self.index(),
    {
        self.index
    }

}

/// A handle to one unit of pool work that the host has registered.
#[derive(Clone, Copy, PartialEq, Eq, Hash, Debug, Structural)]
pub struct AsyncWork {
    id: usize,
}

impl AsyncWork {
    /// The place of the work in the environment's table of work.
    pub closed spec fn id(self) -> int {
        self.id as int
    }

    pub(crate) fn new(id: usize) -> (work: AsyncWork)
        ensures
            work.id() == id,
    {
        AsyncWork { id }
    }

    pub(crate) fn slot(self) -> (id: usize)
        ensures
            id == self.id(),
    {
        self.id
    }
}

/// A handle to a reference that keeps a value of the environment alive.
///
/// It is owned: whoever holds it releases it, once.
#[derive(Debug)]
pub struct NapiRef {
    id: usize,
}

impl NapiRef {
    /// The place of the reference in the environment's table of references.
    pub closed spec fn id(self) -> int {
        self.id as int
    }

    pub(crate) fn new(id: usize) -> (reference: NapiRef)
        ensures
            reference.id() == id,
    {
        NapiRef { id }
    }

    pub(crate) fn slot(&self) -> (id: usize)
        ensures
            id == self.id(),
    {
        self.id
    }
}

/// A handle to a promise that native code has yet to settle.
///
/// It is owned: whoever holds it settles the promise or gives it up, once.
#[derive(Debug)]
pub struct NodeApiDeferred {
    id: usize,
}

impl NodeApiDeferred {
    /// The place of the promise in the environment's table of promises.
    pub closed spec fn id(self) -> int {
        self.id as int
    }

    pub(crate) fn new(id: usize) -> (deferred: NodeApiDeferred)
        ensures
            deferred.id() == id,
    {
        NodeApiDeferred { id }
    }

    pub(crate) fn slot(&self) -> (id: usize)
        ensures
            id == self.id(),
    {
        self.id
    }
}

} // verus!
