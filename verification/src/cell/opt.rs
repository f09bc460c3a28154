//! The occupancy slot: the storage of a cell, which either holds a shim or
//! is empty while the payload is out on loan.

use crate::unaligned::Unaligned;
use vstd::prelude::*;

verus! {

/// The storage of a cell: empty, or occupied by a shim.
pub enum OptUnaligned<T> {
    Empty,
    Occupied(Unaligned<T>),
}

impl<T> OptUnaligned<T> {
    /// An occupied slot holds a shim in its valid state.
    pub open spec fn wf(self) -> bool {
        match self {
            OptUnaligned::Empty => true,
            OptUnaligned::Occupied(shim) => shim.wf(),
        }
    }

    /// The payload of an occupied slot; nothing for an empty one.
    pub open spec fn view(self) -> Option<T> {
        match self {
            OptUnaligned::Empty => None,
            OptUnaligned::Occupied(shim) => Some(shim@),
        }
    }

    /// The slot occupied by the shim of `value`.
    pub fn some(value: T) -> (slot: Self)
        ensures
            slot == OptUnaligned::Occupied(Unaligned::new(value)),
            slot.wf(),
            slot@ == Some(value),
    {
        OptUnaligned::Occupied(Unaligned::new(value))
    }

    /// The shim of an occupied slot; nothing for an empty one.
    pub fn into_option(self) -> (shim: Option<Unaligned<T>>)
        ensures
            shim == match self {
                OptUnaligned::Occupied(held) => Some(held),
                OptUnaligned::Empty => None,
            },
    {
        match self {
            OptUnaligned::Occupied(held) => Some(held),
            OptUnaligned::Empty => None,
        }
    }

    /// The shim of an occupied slot, to be changed in place; nothing for an
    /// empty one, which stays empty.
    pub fn as_option_mut(&mut self) -> (shim: Option<&mut Unaligned<T>>)
        ensures
            match shim {
                Some(held) => *old(self) == OptUnaligned::Occupied(*held) && *final(self)
                    == OptUnaligned::Occupied(*final(held)),
                None => *old(self) == OptUnaligned::<T>::Empty && *final(self)
                    == OptUnaligned::<T>::Empty,
            },
    {
        match self {
            OptUnaligned::Occupied(held) => Some(held),
            OptUnaligned::Empty => None,
        }
    }
}

impl<T> Default for OptUnaligned<T> {
    fn default() -> (slot: Self)
        ensures
            slot == OptUnaligned::<T>::Empty,
    {
        OptUnaligned::Empty
    }
}

impl<T: Copy> Clone for OptUnaligned<T> {
    fn clone(&self) -> (copy: Self)
        ensures
            copy == *self,
    {
        *self
    }
}

impl<T: Copy> Copy for OptUnaligned<T> {

}

} // verus!
