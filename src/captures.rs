use vstd::prelude::*;

verus! {

#[verifier::external_type_specification]
#[verifier::external_body]
pub struct ExBorrowError(gc::BorrowError);

#[verifier::external_type_specification]
#[verifier::external_body]
pub struct ExBorrowMutError(gc::BorrowMutError);

/// The garbage-collected cell that the handles of one closure share.
#[verifier::external_body]
struct CaptureCell {
    cell: gc::Gc<gc::GcCell<Vec<i64>>>,
}

/// The private state of a native closure: integer slots held in one
/// garbage-collected cell. A copy of the handle shares the cell; it never
/// copies the slots. The state is a list of integers rather than a value of
/// any type recovered at run time, since the library holds no `dyn Any`; a
/// closure keeps in its slots what it needs (counters, indices, handles).
pub struct Captures {
    handle: CaptureCell,
    id: Ghost<int>,
}

/// A shared borrow of the slots of a [`Captures`] cell, released when dropped.
#[verifier::external_body]
pub struct CapturesRef<'a> {
    guard: gc::GcCellRef<'a, Vec<i64>>,
}

/// An exclusive borrow of the slots of a [`Captures`] cell, released when
/// dropped.
#[verifier::external_body]
pub struct CapturesRefMut<'a> {
    guard: gc::GcCellRefMut<'a, Vec<i64>>,
}

/// What an exclusive borrow of a cell holds.
pub uninterp spec fn held_slots(g: CapturesRefMut) -> Seq<i64>;

impl Captures {
    /// The identity of the cell that this handle points to.
    pub closed spec fn cell(&self) -> int {
        self.id@
    }

    /// Relies on `gc::Gc::new` and `gc::GcCell::new`: a fresh cell that holds
    /// `slots`.
    #[verifier::external_body]
    pub(crate) fn new(slots: Vec<i64>) -> (r: Captures) {
        Captures { handle: CaptureCell { cell: gc::Gc::new(gc::GcCell::new(slots)) }, id: Ghost(arbitrary()) }
    }

    /// Relies on `Clone for gc::Gc`: a second handle to the same cell.
    #[verifier::external_body]
    pub fn share(&self) -> (r: Captures)
        ensures
            r.cell() == self.cell(),
    {
        Captures { handle: CaptureCell { cell: gc::Gc::clone(&self.handle.cell) }, id: self.id }
    }

    /// Relies on `gc::GcCell::try_borrow`: a shared view of the slots, or an
    /// error while the cell is borrowed mutably.
    #[verifier::external_body]
    pub fn as_any(&self) -> (r: Result<CapturesRef<'_>, gc::BorrowError>) {
        match self.handle.cell.try_borrow() {
            Ok(guard) => Ok(CapturesRef { guard }),
            Err(e) => Err(e),
        }
    }

    /// Relies on `gc::GcCell::try_borrow_mut`: an exclusive view of the slots,
    /// or an error while the cell is borrowed in any way.
    #[verifier::external_body]
    pub fn as_mut_any(&self) -> (r: Result<CapturesRefMut<'_>, gc::BorrowMutError>) {
        match self.handle.cell.try_borrow_mut() {
            Ok(guard) => Ok(CapturesRefMut { guard }),
            Err(e) => Err(e),
        }
    }
}

impl<'a> CapturesRef<'a> {
    /// Relies on `Deref for gc::GcCellRef`: a copy of the borrowed slots.
    #[verifier::external_body]
    pub fn slots(&self) -> (r: Vec<i64>) {
        (*self.guard).clone()
    }
}

impl<'a> CapturesRefMut<'a> {
    /// Relies on `Deref for gc::GcCellRefMut`: a copy of the borrowed slots.
    #[verifier::external_body]
    pub fn slots(&self) -> (r: Vec<i64>)
        ensures
            r@ == held_slots(*self),
    {
        (*self.guard).clone()
    }

    /// Relies on `DerefMut for gc::GcCellRefMut`: replaces the borrowed slots.
    #[verifier::external_body]
    pub fn set_slots(&mut self, slots: Vec<i64>)
        ensures
            held_slots(*final(self)) == slots@,
    {
        *self.guard = slots;
    }
}

} // verus!
