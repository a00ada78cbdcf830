//! Messages tagged with the position of the widget they belong to.

use vstd::prelude::*;

verus! {

/// Message to be used for widgets stored in an ordered collection like `Vec`,
/// or in any form that needs to tell one widget from another when several of
/// the same widget are used.
#[derive(Debug, Clone)]
pub struct IndexedMessage<I, M> {
    index: I,
    message: M,
}

impl<I, M> IndexedMessage<I, M> {
    /// The index the message is tagged with.
    pub closed spec fn index_of(&self) -> I {
        self.index
    }

    /// The message carried.
    pub closed spec fn message_of(&self) -> M {
        self.message
    }

    pub fn new(index: I, message: M) -> (m: Self)
        ensures
            m.index_of() == index,
            m.message_of() == message,
    {
        Self { index, message }
    }

    pub fn index(&self) -> (i: I) where I: Copy
        ensures
            i == self.index_of(),
    {
        self.index
    }

    pub fn message(self) -> (m: M)
        ensures
            m == self.message_of(),
    {
        self.message
    }
}

} // verus!
