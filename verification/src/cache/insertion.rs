//! The steps of an insertion: the second level stores the entry first, and memory only once
//! that is done.

use vstd::prelude::*;

verus! {

/// The next step of an insertion.
pub enum InsertStep {
    /// The second level is to store the entry.
    WriteSecondary(SecondaryWrite),
    /// Memory is to store the entry: there is no second level.
    StoreInMemory(MemoryWrite),
}

/// The mathematical value of an [`InsertStep`]: the step, with the entry.
pub enum InsertStepView {
    WriteSecondary(Seq<char>, Seq<u8>),
    StoreInMemory(Seq<char>, Seq<u8>),
}

/// An entry that the second level is to store.
pub struct SecondaryWrite {
    key: String,
    value: Vec<u8>,
}

/// An entry that memory is to store.
pub struct MemoryWrite {
    key: String,
    value: Vec<u8>,
    written: Ghost<bool>,
}

impl View for InsertStep {
    type V = InsertStepView;

    open spec fn view(&self) -> InsertStepView {
        match self {
            InsertStep::WriteSecondary(write) => InsertStepView::WriteSecondary(
                write@.0,
                write@.1,
            ),
            InsertStep::StoreInMemory(write) => InsertStepView::StoreInMemory(write@.0, write@.1),
        }
    }
}

impl View for SecondaryWrite {
    type V = (Seq<char>, Seq<u8>);

    closed spec fn view(&self) -> (Seq<char>, Seq<u8>) {
        (self.key@, self.value@)
    }
}

impl View for MemoryWrite {
    type V = (Seq<char>, Seq<u8>);

    closed spec fn view(&self) -> (Seq<char>, Seq<u8>) {
        (self.key@, self.value@)
    }
}

impl InsertStep {
    /// The first step of an insertion, with a second level or without.
    pub(crate) fn first(has_secondary: bool, key: String, value: Vec<u8>) -> (step: InsertStep)
        ensures
            step@ == (if has_secondary {
                InsertStepView::WriteSecondary(key@, value@)
            } else {
                InsertStepView::StoreInMemory(key@, value@)
            }),
    {
        if has_secondary {
            InsertStep::WriteSecondary(SecondaryWrite { key, value })
        } else {
            InsertStep::StoreInMemory(MemoryWrite { key, value, written: Ghost(false) })
        }
    }
}

impl SecondaryWrite {
    /// A copy of the entry.
    pub fn entry(&self) -> (entry: (String, Vec<u8>))
        ensures
            (entry.0@, entry.1@) == self@,
    {
        let value = self.value.clone();
        assert(value@ =~= self.value@);
        (self.key.clone(), value)
    }

    /// Says that the second level has stored the entry, and gives the step that follows.
    pub fn done(self) -> (write: MemoryWrite)
        ensures
            write@ == self@,
            write.follows_secondary(),
    {
        MemoryWrite { key: self.key, value: self.value, written: Ghost(true) }
    }
}

impl MemoryWrite {
    /// The second level has stored the entry.
    pub closed spec fn follows_secondary(&self) -> bool {
        self.written@
    }

    pub(crate) fn into_entry(self) -> (entry: (String, Vec<u8>))
        ensures
            (entry.0@, entry.1@) == self@,
    {
        (self.key, self.value)
    }
}

} // verus!
