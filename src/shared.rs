use vstd::prelude::*;
use std::cell::RefCell;
use std::rc::Rc;

verus! {

#[verifier::external_type_specification]
#[verifier::external_body]
#[verifier::reject_recursive_types(T)]
pub struct ExRefCell<T: ?Sized>(RefCell<T>);

/// Relies on `RefCell::new`: wraps a value for checked interior mutability.
pub assume_specification<T>[ RefCell::<T>::new ](value: T) -> RefCell<T>;

/// A value shared by reference counting, mutable through run-time borrow checks.
pub type RcCell<T> = Rc<RefCell<T>>;

/// Move `value` into a new reference-counted cell.
pub fn make_rc_cell<T>(value: T) -> (cell: RcCell<T>) {
    Rc::new(RefCell::new(value))
}

} // verus!
