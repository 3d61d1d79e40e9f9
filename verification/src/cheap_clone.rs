//! The cheap-clone capability.
//!
//! A type with this capability can be duplicated in constant time, by a copy
//! or by bumping a reference count, and the duplicate is equal to the value it
//! was made from. Conversions that start from a reference rely on it: they may
//! clone without asking the caller, because the clone costs next to nothing
//! and changes nothing.

use std::rc::Rc;
use std::sync::Arc;
use vstd::prelude::*;

verus! {

/// Marks a type whose values are cheap to duplicate.
///
/// An implementation promises that the duplicate equals the value it was taken
/// from. The promise about cost cannot be written down as a contract; it is the
/// implementor's to keep.
pub trait ImplicitClone: Sized {
    /// Returns a duplicate of `self`.
    fn implicit_clone(&self) -> (value: Self)
        ensures
            value == *self,
    ;
}

impl ImplicitClone for u8 {
    fn implicit_clone(&self) -> (value: Self) {
        *self
    }
}

impl ImplicitClone for u16 {
    fn implicit_clone(&self) -> (value: Self) {
        *self
    }
}

impl ImplicitClone for u32 {
    fn implicit_clone(&self) -> (value: Self) {
        *self
    }
}

impl ImplicitClone for u64 {
    fn implicit_clone(&self) -> (value: Self) {
        *self
    }
}

impl ImplicitClone for u128 {
    fn implicit_clone(&self) -> (value: Self) {
        *self
    }
}

impl ImplicitClone for usize {
    fn implicit_clone(&self) -> (value: Self) {
        *self
    }
}

impl ImplicitClone for i8 {
    fn implicit_clone(&self) -> (value: Self) {
        *self
    }
}

impl ImplicitClone for i16 {
    fn implicit_clone(&self) -> (value: Self) {
        *self
    }
}

impl ImplicitClone for i32 {
    fn implicit_clone(&self) -> (value: Self) {
        *self
    }
}

impl ImplicitClone for i64 {
    fn implicit_clone(&self) -> (value: Self) {
        *self
    }
}

impl ImplicitClone for i128 {
    fn implicit_clone(&self) -> (value: Self) {
        *self
    }
}

impl ImplicitClone for isize {
    fn implicit_clone(&self) -> (value: Self) {
        *self
    }
}

impl ImplicitClone for bool {
    fn implicit_clone(&self) -> (value: Self) {
        *self
    }
}

impl ImplicitClone for char {
    fn implicit_clone(&self) -> (value: Self) {
        *self
    }
}

impl ImplicitClone for () {
    fn implicit_clone(&self) -> (value: Self) {
        ()
    }
}

impl<'a, T: ?Sized> ImplicitClone for &'a T {
    fn implicit_clone(&self) -> (value: Self) {
        *self
    }
}

impl<T: ImplicitClone> ImplicitClone for Option<T> {
    fn implicit_clone(&self) -> (value: Self) {
        match self {
            None => None,
            Some(item) => Some(item.implicit_clone()),
        }
    }
}

/// `Rc::clone`: the new handle points to the allocation of `shared`, so the
/// value behind it is the value behind `shared`.
#[verifier::external_body]
pub(crate) fn share_rc<T: ?Sized>(shared: &Rc<T>) -> (value: Rc<T>)
    ensures
        value == *shared,
{
    Rc::clone(shared)
}

/// `Arc::clone`: the new handle points to the allocation of `shared`, so the
/// value behind it is the value behind `shared`.
#[verifier::external_body]
pub(crate) fn share_arc<T: ?Sized>(shared: &Arc<T>) -> (value: Arc<T>)
    ensures
        value == *shared,
{
    Arc::clone(shared)
}

/// `Rc::ptr_eq`: true only for two handles to one allocation, which then hold
/// one value.
#[verifier::external_body]
pub(crate) fn same_rc<T: ?Sized>(left: &Rc<T>, right: &Rc<T>) -> (same: bool)
    ensures
        same ==> *left == *right,
{
    Rc::ptr_eq(left, right)
}

impl<T: ?Sized> ImplicitClone for Rc<T> {
    fn implicit_clone(&self) -> (value: Self) {
        share_rc(self)
    }
}

impl<T: ?Sized> ImplicitClone for Arc<T> {
    fn implicit_clone(&self) -> (value: Self) {
        share_arc(self)
    }
}

impl<T1: ImplicitClone> ImplicitClone for (T1,) {
    fn implicit_clone(&self) -> (value: Self) {
        (
            self.0.implicit_clone(),
        )
    }
}

impl<T1: ImplicitClone, T2: ImplicitClone> ImplicitClone for (T1, T2) {
    fn implicit_clone(&self) -> (value: Self) {
        (
            self.0.implicit_clone(),
            self.1.implicit_clone(),
        )
    }
}

impl<T1: ImplicitClone, T2: ImplicitClone, T3: ImplicitClone> ImplicitClone for (T1, T2, T3) {
    fn implicit_clone(&self) -> (value: Self) {
        (
            self.0.implicit_clone(),
            self.1.implicit_clone(),
            self.2.implicit_clone(),
        )
    }
}

impl<T1: ImplicitClone, T2: ImplicitClone, T3: ImplicitClone, T4: ImplicitClone> ImplicitClone for (T1, T2, T3, T4) {
    fn implicit_clone(&self) -> (value: Self) {
        (
            self.0.implicit_clone(),
            self.1.implicit_clone(),
            self.2.implicit_clone(),
            self.3.implicit_clone(),
        )
    }
}

impl<T1: ImplicitClone, T2: ImplicitClone, T3: ImplicitClone, T4: ImplicitClone, T5: ImplicitClone> ImplicitClone for (T1, T2, T3, T4, T5) {
    fn implicit_clone(&self) -> (value: Self) {
        (
            self.0.implicit_clone(),
            self.1.implicit_clone(),
            self.2.implicit_clone(),
            self.3.implicit_clone(),
            self.4.implicit_clone(),
        )
    }
}

impl<T1: ImplicitClone, T2: ImplicitClone, T3: ImplicitClone, T4: ImplicitClone, T5: ImplicitClone, T6: ImplicitClone> ImplicitClone for (T1, T2, T3, T4, T5, T6) {
    fn implicit_clone(&self) -> (value: Self) {
        (
            self.0.implicit_clone(),
            self.1.implicit_clone(),
            self.2.implicit_clone(),
            self.3.implicit_clone(),
            self.4.implicit_clone(),
            self.5.implicit_clone(),
        )
    }
}

impl<T1: ImplicitClone, T2: ImplicitClone, T3: ImplicitClone, T4: ImplicitClone, T5: ImplicitClone, T6: ImplicitClone, T7: ImplicitClone> ImplicitClone for (T1, T2, T3, T4, T5, T6, T7) {
    fn implicit_clone(&self) -> (value: Self) {
        (
            self.0.implicit_clone(),
            self.1.implicit_clone(),
            self.2.implicit_clone(),
            self.3.implicit_clone(),
            self.4.implicit_clone(),
            self.5.implicit_clone(),
            self.6.implicit_clone(),
        )
    }
}

impl<T1: ImplicitClone, T2: ImplicitClone, T3: ImplicitClone, T4: ImplicitClone, T5: ImplicitClone, T6: ImplicitClone, T7: ImplicitClone, T8: ImplicitClone> ImplicitClone for (T1, T2, T3, T4, T5, T6, T7, T8) {
    fn implicit_clone(&self) -> (value: Self) {
        (
            self.0.implicit_clone(),
            self.1.implicit_clone(),
            self.2.implicit_clone(),
            self.3.implicit_clone(),
            self.4.implicit_clone(),
            self.5.implicit_clone(),
            self.6.implicit_clone(),
            self.7.implicit_clone(),
        )
    }
}

impl<T1: ImplicitClone, T2: ImplicitClone, T3: ImplicitClone, T4: ImplicitClone, T5: ImplicitClone, T6: ImplicitClone, T7: ImplicitClone, T8: ImplicitClone, T9: ImplicitClone> ImplicitClone for (T1, T2, T3, T4, T5, T6, T7, T8, T9) {
    fn implicit_clone(&self) -> (value: Self) {
        (
            self.0.implicit_clone(),
            self.1.implicit_clone(),
            self.2.implicit_clone(),
            self.3.implicit_clone(),
            self.4.implicit_clone(),
            self.5.implicit_clone(),
            self.6.implicit_clone(),
            self.7.implicit_clone(),
            self.8.implicit_clone(),
        )
    }
}

impl<T1: ImplicitClone, T2: ImplicitClone, T3: ImplicitClone, T4: ImplicitClone, T5: ImplicitClone, T6: ImplicitClone, T7: ImplicitClone, T8: ImplicitClone, T9: ImplicitClone, T10: ImplicitClone> ImplicitClone for (T1, T2, T3, T4, T5, T6, T7, T8, T9, T10) {
    fn implicit_clone(&self) -> (value: Self) {
        (
            self.0.implicit_clone(),
            self.1.implicit_clone(),
            self.2.implicit_clone(),
            self.3.implicit_clone(),
            self.4.implicit_clone(),
            self.5.implicit_clone(),
            self.6.implicit_clone(),
            self.7.implicit_clone(),
            self.8.implicit_clone(),
            self.9.implicit_clone(),
        )
    }
}

impl<T1: ImplicitClone, T2: ImplicitClone, T3: ImplicitClone, T4: ImplicitClone, T5: ImplicitClone, T6: ImplicitClone, T7: ImplicitClone, T8: ImplicitClone, T9: ImplicitClone, T10: ImplicitClone, T11: ImplicitClone> ImplicitClone for (T1, T2, T3, T4, T5, T6, T7, T8, T9, T10, T11) {
    fn implicit_clone(&self) -> (value: Self) {
        (
            self.0.implicit_clone(),
            self.1.implicit_clone(),
            self.2.implicit_clone(),
            self.3.implicit_clone(),
            self.4.implicit_clone(),
            self.5.implicit_clone(),
            self.6.implicit_clone(),
            self.7.implicit_clone(),
            self.8.implicit_clone(),
            self.9.implicit_clone(),
            self.10.implicit_clone(),
        )
    }
}

impl<T1: ImplicitClone, T2: ImplicitClone, T3: ImplicitClone, T4: ImplicitClone, T5: ImplicitClone, T6: ImplicitClone, T7: ImplicitClone, T8: ImplicitClone, T9: ImplicitClone, T10: ImplicitClone, T11: ImplicitClone, T12: ImplicitClone> ImplicitClone for (T1, T2, T3, T4, T5, T6, T7, T8, T9, T10, T11, T12) {
    fn implicit_clone(&self) -> (value: Self) {
        (
            self.0.implicit_clone(),
            self.1.implicit_clone(),
            self.2.implicit_clone(),
            self.3.implicit_clone(),
            self.4.implicit_clone(),
            self.5.implicit_clone(),
            self.6.implicit_clone(),
            self.7.implicit_clone(),
            self.8.implicit_clone(),
            self.9.implicit_clone(),
            self.10.implicit_clone(),
            self.11.implicit_clone(),
        )
    }
}

} // verus!
