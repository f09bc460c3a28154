//! The storage shim: a container for one value, in storage that makes no
//! promise about alignment.
//!
//! An access either moves the payload (`into_inner`, `replace`, `swap`, `set`,
//! `take`, `get`), or relocates it for the length of a scope (`with_mut`), or
//! refers to it in place where the address of the storage is known to allow
//! that (`get_aligned` and its variants, which are told the address). While
//! the payload is relocated the storage is vacant; the write-back that ends
//! the scope makes it present again, however the scope ends.

use vstd::layout::align_of;
use vstd::layout::layout_for_type_is_valid;
use vstd::prelude::*;

verus! {

/// A value of type `T` kept in storage that makes no promise about alignment.
pub struct Unaligned<T> {
    slot: Option<T>,
}

/// Whether `address` is a multiple of the alignment that `T` asks for.
pub open spec fn aligned_for<T>(address: usize) -> bool {
    address as int % align_of::<T>() as int == 0
}

/// `f` may be called on a mutable reference to `before`.
pub open spec fn may_run<T, R, F: FnOnce(&mut T) -> R>(f: F, before: T) -> bool {
    forall|m: &mut T| *m == before ==> call_requires(f, (m,))
}

impl<T> Unaligned<T> {
    /// The payload is in its storage. Every function of this type takes and
    /// leaves a shim in this state.
    pub closed spec fn wf(self) -> bool {
        self.slot is Some
    }

    /// The payload.
    pub closed spec fn view(self) -> T {
        self.slot->0
    }

    /// The shim that holds `value`.
    pub closed spec fn spec_new(value: T) -> Self {
        Unaligned { slot: Some(value) }
    }

    /// The payload of a shim that is taken apart.
    pub open spec fn spec_into_inner(self) -> T {
        self@
    }

    /// Construct a new `Unaligned` with the given value.
    #[verifier::when_used_as_spec(spec_new)]
    pub fn new(value: T) -> (shim: Self)
        ensures
            shim == Self::spec_new(value),
            shim.wf(),
            shim@ == value,
    {
        Unaligned { slot: Some(value) }
    }

    /// Consume this `Unaligned` and return the inner value.
    #[verifier::when_used_as_spec(spec_into_inner)]
    pub fn into_inner(self) -> (value: T)
        requires
            self.wf(),
        ensures
            value == self.spec_into_inner(),
    {
        self.slot.unwrap()
    }

    /// Set the inner value of this `Unaligned`. The former value is dropped.
    pub fn set(&mut self, value: T)
        ensures
            final(self).wf(),
            final(self)@ == value,
    {
        self.slot = Some(value);
    }

    /// Swap the inner value of this `Unaligned` with another value.
    pub fn swap(&mut self, other: &mut T)
        requires
            old(self).wf(),
        ensures
            final(self).wf(),
            final(self)@ == *old(other),
            *final(other) == old(self)@,
    {
        let mut payload = self.slot.take().unwrap();
        core::mem::swap(&mut payload, other);
        self.slot = Some(payload);
    }

    /// Put `value` into this `Unaligned` and return the former inner value.
    pub fn replace(&mut self, value: T) -> (former: T)
        requires
            old(self).wf(),
        ensures
            final(self).wf(),
            final(self)@ == value,
            former == old(self)@,
    {
        let mut value = value;
        self.swap(&mut value);
        value
    }

    /// Whether storage at `address` would let a `T` be referred to in place.
    pub fn is_aligned(address: usize) -> (aligned: bool)
        ensures
            aligned == aligned_for::<T>(address),
    {
        layout_for_type_is_valid::<T>();
        address % core::mem::align_of::<T>() == 0
    }

    /// Get a shared reference to the inner value, if storage at `address`
    /// happens to be aligned for `T`.
    pub fn get_aligned(&self, address: usize) -> (place: Option<&T>)
        requires
            self.wf(),
        ensures
            place == if aligned_for::<T>(address) {
                Some(&self@)
            } else {
                None
            },
    {
        if Self::is_aligned(address) {
            self.slot.as_ref()
        } else {
            None
        }
    }

    /// Get a mutable reference to the inner value, if storage at `address`
    /// happens to be aligned for `T`.
    pub fn get_aligned_mut(&mut self, address: usize) -> (place: Option<&mut T>)
        requires
            old(self).wf(),
        ensures
            final(self).wf(),
            aligned_for::<T>(address) <==> place is Some,
            match place {
                Some(payload) => *payload == old(self)@ && final(self)@ == *final(payload),
                None => *final(self) == *old(self),
            },
    {
        if Self::is_aligned(address) {
            self.slot.as_mut()
        } else {
            None
        }
    }

    /// Get a shared reference to the inner value without checking that
    /// storage at `address` is aligned for `T`: the caller has shown it.
    #[allow(unused_variables)]
    pub fn get_aligned_unchecked(&self, address: usize) -> (payload: &T)
        requires
            self.wf(),
            aligned_for::<T>(address),
        ensures
            *payload == self@,
    {
        self.payload()
    }

    /// Get a mutable reference to the inner value without checking that
    /// storage at `address` is aligned for `T`: the caller has shown it.
    #[allow(unused_variables)]
    pub fn get_aligned_unchecked_mut(&mut self, address: usize) -> (payload: &mut T)
        requires
            old(self).wf(),
            aligned_for::<T>(address),
        ensures
            final(self).wf(),
            *payload == old(self)@,
            final(self)@ == *final(payload),
    {
        self.slot.as_mut().unwrap()
    }

    /// The payload, read where it is.
    pub(crate) fn payload(&self) -> (payload: &T)
        requires
            self.wf(),
        ensures
            *payload == self@,
    {
        self.slot.as_ref().unwrap()
    }
}

impl<T: Default> Unaligned<T> {
    /// Replace the inner value of this `Unaligned` with the default value of
    /// type `T`, and return the former inner value.
    pub fn take(&mut self) -> (former: T)
        requires
            old(self).wf(),
        ensures
            final(self).wf(),
            former == old(self)@,
            call_ensures(T::default, (), final(self)@),
    {
        self.replace(T::default())
    }
}

impl<T: Copy> Unaligned<T> {
    /// Copy the inner value of this `Unaligned`.
    pub fn get(&self) -> (value: T)
        requires
            self.wf(),
        ensures
            value == self@,
    {
        *self.payload()
    }
}

impl<T, const N: usize> Unaligned<[T; N]> {
    /// Transform an unaligned array of `T` into an array of unaligned `T`.
    pub fn into_array_of_unaligned(self) -> (shims: [Unaligned<T>; N])
        requires
            self.wf(),
        ensures
            forall|i: int| 0 <= i < N ==> (#[trigger] shims@[i]).wf(),
            payload_each(shims@) == self@@,
    {
        wrap_each(self.into_inner())
    }
}

/// The payloads of `shims`, in their order.
pub open spec fn payload_each<T>(shims: Seq<Unaligned<T>>) -> Seq<T> {
    Seq::new(shims.len(), |i: int| shims[i]@)
}

/// `<[T; N]>::map`, handed `Unaligned::new`.
///
/// The array that comes back has in each position the result of the function
/// on what `items` had in that position: the shim that holds it.
#[verifier::external_body]
fn wrap_each<T, const N: usize>(items: [T; N]) -> (shims: [Unaligned<T>; N])
    ensures
        forall|i: int| 0 <= i < N ==> (#[trigger] shims@[i]).wf(),
        payload_each(shims@) == items@,
{
    items.map(Unaligned::new)
}

impl<T> Unaligned<T> {
    /// Mutably borrow the inner value and perform some computation with it.
    ///
    /// The payload is relocated out of the storage, `f` works on the
    /// relocated payload, and whatever `f` left there is written back when
    /// the scope of the call ends, whichever way `f` ends it. The result of
    /// `f` is handed on unchanged, so a failure that `f` reports in its
    /// result comes together with the changes `f` made before it.
    pub fn with_mut<R, F>(&mut self, f: F) -> (result: R) where F: FnOnce(&mut T) -> R
        requires
            old(self).wf(),
            may_run(f, old(self)@),
        ensures
            final(self).wf(),
            exists|m: &mut T|
                *m == old(self)@ && *final(m) == final(self)@ && #[trigger] call_ensures(
                    f,
                    (m,),
                    result,
                ),
    {
        let payload = self.slot.take().unwrap();
        run_relocated(&mut self.slot, payload, f)
    }
}

/// Puts `value` into the vacant storage `home`.
fn write_back<T>(home: &mut Option<T>, value: T)
    ensures
        *final(home) == Some(value),
{
    *home = Some(value);
}

/// `scopeguard::guard`, with the `DerefMut` and the `Drop` of the `ScopeGuard`
/// that it returns.
///
/// The guard owns `payload`. `f` is called once, on a mutable reference to the
/// payload inside the guard. The guard is dropped when this function is left,
/// by return or by unwinding, and its destructor hands the payload as `f`
/// left it to the closure given to `guard`, which writes it to `home`. So
/// after the call `home` holds the payload as `f` left it, and the result is
/// the result of `f`. In the contract `m` stands for the reference that `f`
/// was called on: it starts at `payload`, and `home` ends with what it ends
/// with.
#[verifier::external_body]
fn run_relocated<T, R, F: FnOnce(&mut T) -> R>(home: &mut Option<T>, payload: T, f: F) -> (result: R)
    requires
        may_run(f, payload),
    ensures
        exists|m: &mut T| (*m, *final(home)) == (payload, Some(*final(m))) && #[trigger] call_ensures(f, (m,), result),
{
    let mut guard = scopeguard::guard(payload, |value| write_back(home, value));
    f(&mut *guard)
}

impl<T> From<T> for Unaligned<T> {
    fn from(value: T) -> (shim: Self) {
        Unaligned::new(value)
    }
}

impl<T> vstd::std_specs::convert::FromSpecImpl<T> for Unaligned<T> {
    open spec fn obeys_from_spec() -> bool {
        true
    }

    open spec fn from_spec(value: T) -> Self {
        Unaligned::new(value)
    }
}

impl<T: Default> Default for Unaligned<T> {
    fn default() -> (shim: Self)
        ensures
            shim.wf(),
            call_ensures(T::default, (), shim@),
    {
        Unaligned::new(T::default())
    }
}

impl<T: Copy> Clone for Unaligned<T> {
    fn clone(&self) -> (copy: Self)
        ensures
            copy == *self,
    {
        *self
    }
}

impl<T: Copy> Copy for Unaligned<T> {

}

/// Scoped access with a function that leaves the payload as it found it
/// leaves the shim unchanged.
pub proof fn lemma_with_mut_identity<T, R, F: FnOnce(&mut T) -> R>(
    before: Unaligned<T>,
    after: Unaligned<T>,
    f: F,
    result: R,
)
    requires
        before.wf(),
        after.wf(),
        forall|m: &mut T, r: R| call_ensures(f, (m,), r) ==> *final(m) == *m,
        exists|m: &mut T|
            *m == before@ && *final(m) == after@ && #[trigger] call_ensures(f, (m,), result),
    ensures
        after@ == before@,
{
}

/// Scoped access commits what was done before a failure: where `f` reports
/// a failure in its result, having left `changed(v)` in place of the payload
/// `v` that it was given, the shim holds `changed(v)` afterwards, and the
/// failure is handed on.
pub proof fn lemma_with_mut_commits_before_failure<T, V, E, F: FnOnce(&mut T) -> Result<V, E>>(
    before: Unaligned<T>,
    after: Unaligned<T>,
    f: F,
    result: Result<V, E>,
    changed: spec_fn(T) -> T,
)
    requires
        before.wf(),
        after.wf(),
        forall|m: &mut T, r: Result<V, E>|
            call_ensures(f, (m,), r) && r is Err ==> *final(m) == changed(*m),
        exists|m: &mut T|
            *m == before@ && *final(m) == after@ && #[trigger] call_ensures(f, (m,), result),
        result is Err,
    ensures
        after@ == changed(before@),
{
}

/// Whether a shim's payload can be referred to in place depends on the
/// address of its storage and on `T` alone: asking again for the same
/// address gives the same answer, whatever the shim holds by then.
pub proof fn lemma_aligned_access_is_stable<T>(
    first: Unaligned<T>,
    second: Unaligned<T>,
    address: usize,
    first_place: Option<&T>,
    second_place: Option<&T>,
)
    requires
        first_place == if aligned_for::<T>(address) {
            Some(&first@)
        } else {
            None
        },
        second_place == if aligned_for::<T>(address) {
            Some(&second@)
        } else {
            None
        },
    ensures
        first_place is Some <==> second_place is Some,
{
}

/// Wrapping a value and unwrapping it again gives the value back.
pub proof fn lemma_round_trip<T>(value: T)
    ensures
        Unaligned::new(value).wf(),
        Unaligned::new(value).into_inner() == value,
{
}

} // verus!
