use std::cell::{Ref, RefCell};
use vstd::prelude::*;

verus! {

#[verifier::external_type_specification]
#[verifier::external_body]
#[verifier::reject_recursive_types(T)]
pub struct ExRefCell<T: ?Sized>(RefCell<T>);

#[verifier::external_type_specification]
#[verifier::external_body]
#[verifier::reject_recursive_types(T)]
pub struct ExRef<'b, T: ?Sized>(Ref<'b, T>);

/// Relies on `RefCell::new`, which moves the value into a new cell.
pub assume_specification<T>[ RefCell::<T>::new ](value: T) -> RefCell<T>;

/// Relies on `RefCell::try_borrow`: a shared borrow is granted unless the value
/// is borrowed mutably at the time; the error is turned into `None`.
#[verifier::external_body]
pub(crate) fn try_read<T>(cell: &RefCell<T>) -> (r: Option<Ref<'_, T>>) {
    cell.try_borrow().ok()
}

/// Relies on `RefCell::try_borrow_mut`: exclusive access is granted only while
/// no other borrow of the value is alive. With it, `f` is applied to the
/// value; the result says whether that happened.
#[verifier::external_body]
pub(crate) fn try_apply<T, F: FnOnce(&mut T)>(cell: &RefCell<T>, f: F) -> (applied: bool) {
    match cell.try_borrow_mut() {
        Ok(mut value) => {
            f(&mut value);
            true
        },
        Err(_) => false,
    }
}

/// Relies on `Deref` for `Ref`: the value that the borrow stands for.
#[verifier::external_body]
pub(crate) fn read_ref<'a, 'b, T>(r: &'a Ref<'b, T>) -> (v: &'a T) {
    &**r
}

} // verus!
