//! The borrow-checked cell: one occupancy slot, whose payload is lent out to
//! one guard at a time.
//!
//! A cell is either occupied by its payload or empty. Borrowing moves the
//! payload out into a guard and leaves the cell empty; releasing the guard
//! moves the payload, as the guard's holder left it, back in. A cell that is
//! empty has nothing to lend: a second borrow is a conflict until the guard
//! has been released.

use crate::unaligned::may_run;
use crate::unaligned::Unaligned;
use core::cmp::Ordering;
use core::hash::Hash;
use core::hash::Hasher;
use core::ops::DerefMut;
use vstd::prelude::*;
use vstd::std_specs::cmp::OrdSpec;
use vstd::std_specs::cmp::PartialEqSpec;
use vstd::std_specs::cmp::PartialOrdIs;
use vstd::std_specs::cmp::PartialOrdSpec;

pub mod opt;

pub use opt::OptUnaligned;

verus! {

/// The payload of a cell cannot be borrowed: it is already out on loan.
#[derive(Debug)]
pub struct BorrowError;

impl BorrowError {
    /// The name of the error, as text.
    pub fn to_string(&self) -> (text: String)
        ensures
            text@ == "BorrowError"@,
    {
        "BorrowError".to_owned()
    }
}

/// A value borrowed from an [`UnalignedCell`]: the guard that holds the
/// payload, in ordinary storage, until it is released into the cell again.
pub struct RefMut<T> {
    data: T,
}

impl<T> RefMut<T> {
    /// The payload that the guard holds.
    pub closed spec fn view(self) -> T {
        self.data
    }

    /// Ends the loan: moves the payload, as it is now, back into `cell`,
    /// which is occupied from then on.
    pub fn release(self, cell: &mut UnalignedCell<T>)
        ensures
            final(cell).wf(),
            final(cell)@ == release_step(old(cell)@, self@),
    {
        cell.slot = OptUnaligned::some(self.data);
    }
}

impl<T> core::ops::Deref for RefMut<T> {
    type Target = T;

    fn deref(&self) -> (payload: &T)
        ensures
            *payload == self@,
    {
        &self.data
    }
}

impl<T> core::ops::DerefMut for RefMut<T> {
    fn deref_mut(&mut self) -> (payload: &mut T)
        ensures
            *payload == old(self)@,
            final(self)@ == *final(payload),
    {
        &mut self.data
    }
}

/// What an attempt to borrow makes of a cell in state `state`: the state it
/// leaves, and the payload it hands out, if the cell had one to lend.
pub open spec fn borrow_step<T>(state: Option<T>) -> (Option<T>, Option<T>) {
    (None, state)
}

/// What the release of a guard that holds `payload` makes of a cell.
pub open spec fn release_step<T>(state: Option<T>, payload: T) -> Option<T> {
    Some(payload)
}

/// The payload that an attempt to borrow handed out.
pub open spec fn lent<T>(attempt: Result<RefMut<T>, BorrowError>) -> Option<T> {
    match attempt {
        Ok(guard) => Some(guard@),
        Err(_) => None,
    }
}

/// A cell that provides unaligned storage for a value of type `T`, and lends
/// the value out to one borrower at a time.
pub struct UnalignedCell<T> {
    slot: OptUnaligned<T>,
}

impl<T> UnalignedCell<T> {
    /// The slot is in a valid state. Every function of this type takes and
    /// leaves a cell in this state.
    pub closed spec fn wf(self) -> bool {
        self.slot.wf()
    }

    /// The state of the cell: its payload, or nothing while the payload is
    /// out on loan.
    pub closed spec fn view(self) -> Option<T> {
        self.slot@
    }

    /// The cell occupied by `value`.
    pub closed spec fn spec_new(value: T) -> Self {
        UnalignedCell { slot: OptUnaligned::Occupied(Unaligned::new(value)) }
    }

    /// Both cells have their payload at home, where it can be compared.
    pub open spec fn comparable(self, other: Self) -> bool {
        self.wf() && other.wf() && self@ is Some && other@ is Some
    }

    /// Construct a new `UnalignedCell` that wraps the given value.
    #[verifier::when_used_as_spec(spec_new)]
    pub fn new(value: T) -> (cell: Self)
        ensures
            cell == Self::spec_new(value),
            cell.wf(),
            cell@ == Some(value),
    {
        UnalignedCell { slot: OptUnaligned::some(value) }
    }

    /// Whether the payload is out on loan.
    pub fn is_borrowed(&self) -> (borrowed: bool)
        ensures
            borrowed == (self@ is None),
    {
        match &self.slot {
            OptUnaligned::Empty => true,
            OptUnaligned::Occupied(_) => false,
        }
    }

    /// Consume this cell and return its contents. A cell whose payload is
    /// out on loan has no contents to return: a guard that was never
    /// released keeps its cell from being consumed.
    pub fn into_inner(self) -> (value: T)
        requires
            self.wf(),
            self@ is Some,
        ensures
            Some(value) == self@,
    {
        match self.slot.into_option() {
            Some(shim) => shim.into_inner(),
            None => vstd::pervasive::unreached(),
        }
    }

    /// Mutably borrow the contents of this cell. If the contents are already
    /// borrowed, this method returns an error. Either way the cell is empty
    /// afterwards, until a guard is released into it.
    pub fn try_borrow(&mut self) -> (attempt: Result<RefMut<T>, BorrowError>)
        requires
            old(self).wf(),
        ensures
            final(self).wf(),
            (final(self)@, lent(attempt)) == borrow_step(old(self)@),
    {
        let mut slot = OptUnaligned::Empty;
        core::mem::swap(&mut self.slot, &mut slot);
        match slot.into_option() {
            Some(shim) => Ok(RefMut { data: shim.into_inner() }),
            None => Err(BorrowError),
        }
    }

    /// Mutably borrow the contents of this cell. The contents cannot be
    /// borrowed again until the returned guard has been released.
    pub fn borrow(&mut self) -> (guard: RefMut<T>)
        requires
            old(self).wf(),
            old(self)@ is Some,
        ensures
            final(self).wf(),
            (final(self)@, Some(guard@)) == borrow_step(old(self)@),
    {
        match self.try_borrow() {
            Ok(guard) => guard,
            Err(_) => vstd::pervasive::unreached(),
        }
    }

    /// Get a mutable reference to the unaligned contents. Exclusive access to
    /// the cell rules out any other borrower, so nothing is checked or
    /// changed: the cell stays occupied, by the shim as the caller leaves it.
    pub fn get_mut(&mut self) -> (shim: &mut Unaligned<T>)
        requires
            old(self).wf(),
            old(self)@ is Some,
        ensures
            shim.wf(),
            Some(shim@) == old(self)@,
            final(self).wf() == final(shim).wf(),
            final(self)@ == Some(final(shim)@),
    {
        match self.slot.as_option_mut() {
            Some(shim) => shim,
            None => vstd::pervasive::unreached(),
        }
    }

    /// Swaps the contents of this cell with the contents of another. Both
    /// are borrowed for the exchange, so neither may be out on loan.
    pub fn swap(&mut self, other: &mut Self)
        requires
            old(self).wf(),
            old(other).wf(),
            old(self)@ is Some,
            old(other)@ is Some,
        ensures
            final(self).wf(),
            final(other).wf(),
            final(self)@ == old(other)@,
            final(other)@ == old(self)@,
    {
        let mut mine = self.borrow();
        let mut theirs = other.borrow();
        core::mem::swap(mine.deref_mut(), theirs.deref_mut());
        theirs.release(other);
        mine.release(self);
    }

    /// Replace the contents of this cell with the given value, and return
    /// the previous value.
    pub fn replace(&mut self, value: T) -> (former: T)
        requires
            old(self).wf(),
            old(self)@ is Some,
        ensures
            final(self).wf(),
            final(self)@ == Some(value),
            Some(former) == old(self)@,
    {
        let mut guard = self.borrow();
        let mut value = value;
        core::mem::swap(guard.deref_mut(), &mut value);
        guard.release(self);
        value
    }

    /// Replace the contents of this cell using the given function to produce
    /// a new value. The function works on the borrowed contents and may
    /// change them; the contents as it left them are returned, and what it
    /// returned becomes the contents.
    pub fn replace_with<F>(&mut self, f: F) -> (former: T) where F: FnOnce(&mut T) -> T
        requires
            old(self).wf(),
            old(self)@ is Some,
            may_run(f, old(self)@->0),
        ensures
            final(self).wf(),
            final(self)@ is Some,
            exists|m: &mut T|
                Some(*m) == old(self)@ && *final(m) == former && #[trigger] call_ensures(
                    f,
                    (m,),
                    final(self)@->0,
                ),
    {
        let mut guard = self.borrow();
        let mut value = f(&mut guard.data);
        let ghost produced = value;
        core::mem::swap(&mut guard.data, &mut value);
        guard.release(self);
        assert(self@->0 == produced);
        value
    }
}

impl<T> UnalignedCell<T> {
    /// The payload, read where it is. The cell lends nothing out for this
    /// and is the same afterwards.
    fn payload(&self) -> (payload: &T)
        requires
            self.wf(),
            self@ is Some,
        ensures
            Some(*payload) == self@,
    {
        match &self.slot {
            OptUnaligned::Occupied(shim) => shim.payload(),
            OptUnaligned::Empty => vstd::pervasive::unreached(),
        }
    }
}

/// `core::ptr::eq`, on references to two cells.
///
/// It tells whether the two references have the same address. Where they
/// have, they refer to one cell, and so to one value; where they have not,
/// nothing is claimed.
#[verifier::external_body]
fn same_cell<T>(a: &UnalignedCell<T>, b: &UnalignedCell<T>) -> (same: bool)
    ensures
        same ==> *a == *b,
{
    core::ptr::eq(a, b)
}

/// `equal` is what `T` answers when asked whether `left` equals `right`.
pub open spec fn compared_eq<T: PartialEq>(left: T, right: T, equal: bool) -> bool {
    &&& call_ensures(T::eq, (&left, &right), equal)
    &&& T::obeys_eq_spec() ==> equal == left.eq_spec(&right)
}

impl<T: PartialEq> UnalignedCell<T> {
    /// Whether the contents of the two cells are equal, as `T` has it.
    ///
    /// Where `other` is this very cell, the one payload is compared with
    /// itself, and the answer is the one that `T` gives for that: it need not
    /// be `true`.
    pub fn eq(&self, other: &Self) -> (equal: bool)
        requires
            self.comparable(*other),
        ensures
            compared_eq(self@->0, other@->0, equal),
    {
        if same_cell(self, other) {
            let value = self.payload();
            *value == *value
        } else {
            *self.payload() == *other.payload()
        }
    }
}

impl<T: PartialOrd> UnalignedCell<T> {
    /// How the contents of the two cells are ordered, as `T` has it. Where
    /// `other` is this very cell, the one payload is compared with itself.
    pub fn partial_cmp(&self, other: &Self) -> (order: Option<Ordering>)
        requires
            self.comparable(*other),
        ensures
            call_ensures(T::partial_cmp, (&self@->0, &other@->0), order),
            T::obeys_partial_cmp_spec() ==> order == self@->0.partial_cmp_spec(&other@->0),
    {
        if same_cell(self, other) {
            let value = self.payload();
            value.partial_cmp(value)
        } else {
            self.payload().partial_cmp(other.payload())
        }
    }

    /// Whether the contents of this cell are less than those of `other`, as
    /// `T` has it. Where `other` is this very cell, the one payload is
    /// compared with itself.
    pub fn lt(&self, other: &Self) -> (less: bool)
        requires
            self.comparable(*other),
        ensures
            call_ensures(T::lt, (&self@->0, &other@->0), less),
            T::obeys_partial_cmp_spec() ==> less == self@->0.is_lt(&other@->0),
    {
        if same_cell(self, other) {
            let value = self.payload();
            *value < *value
        } else {
            *self.payload() < *other.payload()
        }
    }

    /// Whether the contents of this cell are less than or equal to those of
    /// `other`, as `T` has it. Where `other` is this very cell, the one
    /// payload is compared with itself.
    pub fn le(&self, other: &Self) -> (at_most: bool)
        requires
            self.comparable(*other),
        ensures
            call_ensures(T::le, (&self@->0, &other@->0), at_most),
            T::obeys_partial_cmp_spec() ==> at_most == self@->0.is_le(&other@->0),
    {
        if same_cell(self, other) {
            let value = self.payload();
            *value <= *value
        } else {
            *self.payload() <= *other.payload()
        }
    }

    /// Whether the contents of this cell are greater than those of `other`,
    /// as `T` has it. Where `other` is this very cell, the one payload is
    /// compared with itself.
    pub fn gt(&self, other: &Self) -> (greater: bool)
        requires
            self.comparable(*other),
        ensures
            call_ensures(T::gt, (&self@->0, &other@->0), greater),
            T::obeys_partial_cmp_spec() ==> greater == self@->0.is_gt(&other@->0),
    {
        if same_cell(self, other) {
            let value = self.payload();
            *value > *value
        } else {
            *self.payload() > *other.payload()
        }
    }

    /// Whether the contents of this cell are greater than or equal to those
    /// of `other`, as `T` has it. Where `other` is this very cell, the one
    /// payload is compared with itself.
    pub fn ge(&self, other: &Self) -> (at_least: bool)
        requires
            self.comparable(*other),
        ensures
            call_ensures(T::ge, (&self@->0, &other@->0), at_least),
            T::obeys_partial_cmp_spec() ==> at_least == self@->0.is_ge(&other@->0),
    {
        if same_cell(self, other) {
            let value = self.payload();
            *value >= *value
        } else {
            *self.payload() >= *other.payload()
        }
    }
}

impl<T: Ord> UnalignedCell<T> {
    /// How the contents of the two cells are ordered, as `T` has it. Where
    /// `other` is this very cell, the one payload is compared with itself.
    pub fn cmp(&self, other: &Self) -> (order: Ordering)
        requires
            self.comparable(*other),
        ensures
            call_ensures(T::cmp, (&self@->0, &other@->0), order),
            T::obeys_cmp_spec() ==> order == self@->0.cmp_spec(&other@->0),
    {
        if same_cell(self, other) {
            let value = self.payload();
            value.cmp(value)
        } else {
            self.payload().cmp(other.payload())
        }
    }

    /// The cell of the greater contents, as `T::max` picks them.
    pub fn max(self, other: Self) -> (cell: Self)
        requires
            self.wf(),
            other.wf(),
            self@ is Some,
            other@ is Some,
        ensures
            cell.wf(),
            cell@ is Some,
            call_ensures(T::max, (self@->0, other@->0), cell@->0),
    {
        UnalignedCell::new(T::max(self.into_inner(), other.into_inner()))
    }

    /// The cell of the lesser contents, as `T::min` picks them.
    pub fn min(self, other: Self) -> (cell: Self)
        requires
            self.wf(),
            other.wf(),
            self@ is Some,
            other@ is Some,
        ensures
            cell.wf(),
            cell@ is Some,
            call_ensures(T::min, (self@->0, other@->0), cell@->0),
    {
        UnalignedCell::new(T::min(self.into_inner(), other.into_inner()))
    }

    /// The cell of the contents of this one, held between those of `min` and
    /// `max`, as `T::clamp` does it. `T::clamp` asks that the lower bound is
    /// not above the upper one.
    pub fn clamp(self, min: Self, max: Self) -> (cell: Self)
        requires
            self.wf(),
            min.wf(),
            max.wf(),
            self@ is Some,
            min@ is Some,
            max@ is Some,
            T::obeys_partial_cmp_spec(),
            min@->0.is_le(&max@->0),
        ensures
            cell.wf(),
            cell@ is Some,
            call_ensures(T::clamp, (self@->0, min@->0, max@->0), cell@->0),
    {
        UnalignedCell::new(T::clamp(self.into_inner(), min.into_inner(), max.into_inner()))
    }
}

impl<T: Hash> UnalignedCell<T> {
    /// Feeds the contents of this cell to `state`, as `T` does it. The cell
    /// is the same afterwards.
    pub fn hash<H: Hasher>(&self, state: &mut H)
        requires
            self.wf(),
            self@ is Some,
    {
        hash_payload(self.payload(), state);
    }
}

/// `Hash::hash` of `T`.
///
/// What it feeds to `state`, and what `state` makes of it, is for the impls of
/// `T` and of `H` to say: nothing is claimed here.
#[verifier::external_body]
fn hash_payload<T: Hash, H: Hasher>(payload: &T, state: &mut H) {
    payload.hash(state);
}

impl<T: Clone> UnalignedCell<T> {
    /// A new cell, occupied by a clone of the contents of this one.
    pub fn clone(&self) -> (cell: Self)
        requires
            self.wf(),
            self@ is Some,
        ensures
            cell.wf(),
            cell@ is Some,
            call_ensures(T::clone, (&self@->0,), cell@->0),
    {
        UnalignedCell::new(self.payload().clone())
    }
}

impl<T: Default> Default for UnalignedCell<T> {
    fn default() -> (cell: Self)
        ensures
            cell.wf(),
            cell@ is Some,
            call_ensures(T::default, (), cell@->0),
    {
        UnalignedCell::new(T::default())
    }
}

impl<T> From<T> for UnalignedCell<T> {
    fn from(value: T) -> (cell: Self) {
        UnalignedCell::new(value)
    }
}

impl<T> vstd::std_specs::convert::FromSpecImpl<T> for UnalignedCell<T> {
    open spec fn obeys_from_spec() -> bool {
        true
    }

    open spec fn from_spec(value: T) -> Self {
        UnalignedCell::new(value)
    }
}

impl<T: Default> UnalignedCell<T> {
    /// Get the contents of this cell. The default value of type `T` is left
    /// in the cell.
    pub fn take(&mut self) -> (former: T)
        requires
            old(self).wf(),
            old(self)@ is Some,
        ensures
            final(self).wf(),
            final(self)@ is Some,
            call_ensures(T::default, (), final(self)@->0),
            Some(former) == old(self)@,
    {
        self.replace(T::default())
    }
}

/// Borrow exclusivity. A cell that holds `payload` lends it to the first
/// borrower and is empty from then on. A second attempt, made before the
/// guard is released, hands out nothing and leaves the cell empty. Once a
/// guard that holds `returned` has been released into the cell, the next
/// attempt succeeds and hands out `returned`.
pub proof fn lemma_borrow_is_exclusive<T>(payload: T, returned: T)
    ensures
        borrow_step(Some(payload)) == (None::<T>, Some(payload)),
        borrow_step(borrow_step(Some(payload)).0) == (None::<T>, None::<T>),
        borrow_step(release_step(borrow_step(Some(payload)).0, returned)) == (
            None::<T>,
            Some(returned),
        ),
{
}

/// A guard that is never released leaves its cell empty for good: no further
/// attempt to borrow fills it again. An empty cell is not one that
/// `into_inner` accepts, so nothing stale and nothing made up can be had from
/// it.
pub proof fn lemma_leaked_guard_keeps_cell_empty<T>(state: Option<T>, attempts: nat)
    ensures
        after_borrows(borrow_step(state).0, attempts) is None,
    decreases attempts,
{
    if attempts > 0 {
        lemma_leaked_guard_keeps_cell_empty(state, (attempts - 1) as nat);
    }
}

/// The state of a cell after `attempts` attempts to borrow from it, with no
/// release in between.
pub open spec fn after_borrows<T>(state: Option<T>, attempts: nat) -> Option<T>
    decreases attempts,
{
    if attempts == 0 {
        state
    } else {
        borrow_step(after_borrows(state, (attempts - 1) as nat)).0
    }
}

/// A cell that has its payload at home can be compared with itself: the
/// comparison asks for no more than one loan would.
pub proof fn lemma_cell_is_comparable_with_itself<T>(cell: UnalignedCell<T>)
    requires
        cell.wf(),
        cell@ is Some,
    ensures
        cell.comparable(cell),
{
}

/// Comparing a cell with itself is comparing its payload with itself: where
/// `T` says that a value does not equal itself, the cell does not equal
/// itself either.
pub proof fn lemma_self_eq_is_payload_self_eq<T: PartialEq>(cell: UnalignedCell<T>, equal: bool)
    requires
        cell@ is Some,
        T::obeys_eq_spec(),
        compared_eq(cell@->0, cell@->0, equal),
    ensures
        equal == cell@->0.eq_spec(&cell@->0),
{
}

} // verus!
