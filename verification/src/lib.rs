//! A storage wrapper for handing out several live accessors to one wrapped
//! value.
//!
//! [`UnsafeAliasCell<T>`] holds exactly one value of type `T` and is the
//! sanctioned place to keep a value that several parties need to reach at
//! once. The name records the cell's role: it marks storage that is meant to
//! be aliased, where the usual "one mutable access at a time" reasoning must
//! not be taken for granted by the surrounding code. Every accessor the cell
//! hands out here is a checked reference, so the discipline the cell
//! documents is enforced by the borrow checker rather than left as a caller
//! obligation: any number of read accessors may be live at the same time,
//! and a write accessor is exclusive. The cell's contracts pin down exactly
//! what each accessor observes.
use vstd::prelude::*;

verus! {

/// A cell that wraps one value of type `T` and hands out accessors to it.
///
/// The wrapper adds nothing to the value: it stores the bare `T` and every
/// operation is a direct view into that storage. Callers embed an
/// `UnsafeAliasCell<T>` in place of a plain `T` wherever they intend to hand
/// out more than one accessor to the same storage.
///
/// Caller obligations carried by this type as documentation:
/// - **Non-relocation**: once an accessor obtained from a given cell may
///   still be in use, the cell must not be moved; the borrow checker ties
///   each accessor's lifetime to the cell's place, so a violation cannot
///   compile.
/// - **Exclusivity**: a write accessor from [`UnsafeAliasCell::get_mut`]
///   must not be used together with any other accessor to the same cell;
///   again the borrow checker refuses a violation.
pub struct UnsafeAliasCell<T> {
    inner: T,
}

impl<T> View for UnsafeAliasCell<T> {
    type V = T;

    /// A cell is modelled by the one value it wraps.
    closed spec fn view(&self) -> T {
        self.inner
    }
}

impl<T> UnsafeAliasCell<T> {
    /// Construct a new instance of `UnsafeAliasCell` which will wrap the
    /// specified value: the cell's storage holds exactly `value`.
    pub fn new(value: T) -> (cell: Self)
        ensures
            cell@ == value,
    {
        UnsafeAliasCell { inner: value }
    }

    /// Gets a read accessor to the wrapped value.
    ///
    /// Any number of accessors obtained this way may be live at the same
    /// time; each observes the wrapped value as it stands.
    pub fn get(&self) -> (accessor: &T)
        ensures
            *accessor == self@,
    {
        &self.inner
    }

    /// Gets a read accessor to the wrapped value of the cell `this` points
    /// at, without a method call on the cell itself.
    ///
    /// The result is the same accessor that [`UnsafeAliasCell::get`] returns
    /// on `this`: the variant exists for callers who hold the cell only
    /// through a borrowed place and never name it as a receiver.
    pub fn raw_get(this: &UnsafeAliasCell<T>) -> (accessor: &T)
        ensures
            *accessor == this@,
    {
        &this.inner
    }

    /// Gets a write accessor to the wrapped value.
    ///
    /// The accessor is exclusive: while it lives, no other accessor to the
    /// same cell can be obtained or used. Whatever the caller leaves behind
    /// through the accessor is what the cell wraps afterwards.
    pub fn get_mut(&mut self) -> (accessor: &mut T)
        ensures
            *accessor == old(self)@,
            final(self)@ == *final(accessor),
    {
        &mut self.inner
    }

    /// Releases the cell's storage, returning the wrapped value.
    pub fn into_inner(self) -> (value: T)
        ensures
            value == self@,
    {
        self.inner
    }
}

/// Round-trip identity: wrapping a value and reading it back through an
/// accessor yields that value, for every value.
pub fn round_trip<T: Copy>(value: T) -> (read: T)
    ensures
        read == value,
{
    let cell = UnsafeAliasCell::new(value);
    *cell.get()
}

/// Write visibility: after writing a second value through a write accessor,
/// an independently obtained accessor to the same cell observes the second
/// value, whatever value the cell wrapped before.
pub fn write_visibility<T: Copy>(first: T, second: T) -> (read: T)
    ensures
        read == second,
{
    let mut cell = UnsafeAliasCell::new(first);
    let writer = cell.get_mut();
    *writer = second;
    let reader = cell.get();
    *reader
}

/// Accessor equivalence: [`UnsafeAliasCell::raw_get`] on a borrowed cell and
/// [`UnsafeAliasCell::get`] on the same cell yield accessors to the same
/// storage, so they read the same value.
pub fn accessors_agree<T: Copy>(value: T) -> (reads: (T, T))
    ensures
        reads.0 == reads.1,
        reads.0 == value,
{
    let cell = UnsafeAliasCell::new(value);
    let direct = cell.get();
    let through_place = UnsafeAliasCell::raw_get(&cell);
    (*direct, *through_place)
}

/// Multiple live accessors: two accessors obtained from the same cell may
/// both be live and used for reads at once, and each observes the wrapped
/// value.
pub fn two_live_accessors<T: Copy>(value: T) -> (reads: (T, T))
    ensures
        reads.0 == value,
        reads.1 == value,
{
    let cell = UnsafeAliasCell::new(value);
    let one = cell.get();
    let other = cell.get();
    let from_one = *one;
    let from_other = *other;
    (from_one, from_other)
}

} // verus!
