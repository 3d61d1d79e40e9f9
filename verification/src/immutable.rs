//! Immutable containers that are cheap to clone.
//!
//! An [`IArray`] or an [`IMap`] either borrows items that live as long as the
//! program or holds a share of reference-counted ones. It is never changed
//! after it was made: cloning hands out another share, and a different
//! content is a different container.

use crate::cheap_clone::{share_rc, ImplicitClone};
use indexmap::IndexMap;
use std::hash::Hash;
use std::rc::Rc;
use vstd::prelude::*;

verus! {

/// `indexmap::IndexMap`, taken as it is: a map is carried through, and
/// nothing is known of what it holds.
#[verifier::external_type_specification]
#[verifier::external_body]
#[verifier::reject_recursive_types(K)]
#[verifier::reject_recursive_types(V)]
#[verifier::reject_recursive_types(S)]
pub struct ExIndexMap<K, V, S>(IndexMap<K, V, S>);

/// An immutable array.
#[derive(Debug, PartialEq, Eq)]
pub enum IArray<T: ImplicitClone + 'static> {
    /// Items that live as long as the program.
    Static(&'static [T]),
    /// Items behind a reference count.
    Rc(Rc<[T]>),
}

/// `Rc::<[T]>::from` on a `Vec`: moves the items of `items` into one
/// reference-counted allocation, in their order.
#[verifier::external_body]
pub(crate) fn share_items<T>(items: Vec<T>) -> (shared: Rc<[T]>)
    ensures
        shared@ == items@,
{
    Rc::from(items)
}

impl<T: ImplicitClone + 'static> View for IArray<T> {
    type V = Seq<T>;

    /// The items, first to last.
    open spec fn view(&self) -> Seq<T> {
        match self {
            IArray::Static(items) => items@,
            IArray::Rc(items) => items@,
        }
    }
}

impl<T: ImplicitClone + 'static> IArray<T> {
    /// The number of items.
    pub fn len(&self) -> (len: usize)
        ensures
            len == self@.len(),
    {
        match self {
            IArray::Static(items) => items.len(),
            IArray::Rc(items) => items.len(),
        }
    }

    /// Whether there is no item.
    pub fn is_empty(&self) -> (empty: bool)
        ensures
            empty == (self@.len() == 0),
    {
        self.len() == 0
    }

    /// The items as a slice.
    pub fn as_slice(&self) -> (items: &[T])
        ensures
            items@ == self@,
    {
        match self {
            IArray::Static(items) => items,
            IArray::Rc(items) => items,
        }
    }

    /// A clone of the item at `index`, counted from zero, if there is one.
    pub fn get(&self, index: usize) -> (item: Option<T>)
        ensures
            index < self@.len() ==> item == Some(self@[index as int]),
            index >= self@.len() ==> item is None,
    {
        let items = self.as_slice();
        if index < items.len() {
            Some(items[index].implicit_clone())
        } else {
            None
        }
    }
}

impl<T: ImplicitClone + 'static> Clone for IArray<T> {
    /// Returns an array that shares the items of `self`.
    fn clone(&self) -> (copy: Self)
        ensures
            copy == *self,
    {
        match self {
            IArray::Static(items) => IArray::Static(items),
            IArray::Rc(items) => IArray::Rc(share_rc(items)),
        }
    }
}

impl<T: ImplicitClone + 'static> ImplicitClone for IArray<T> {
    fn implicit_clone(&self) -> (value: Self) {
        self.clone()
    }
}

/// An immutable map that keeps its entries in the order in which they were
/// given.
#[derive(Debug, PartialEq)]
#[verifier::reject_recursive_types(K)]
#[verifier::reject_recursive_types(V)]
pub enum IMap<K: Eq + Hash + ImplicitClone + 'static, V: PartialEq + ImplicitClone + 'static> {
    /// Entries that live as long as the program.
    Static(&'static [(K, V)]),
    /// A map behind a reference count.
    Rc(Rc<IndexMap<K, V>>),
}

impl<K: Eq + Hash + ImplicitClone + 'static, V: PartialEq + ImplicitClone + 'static> Clone for IMap<
    K,
    V,
> {
    /// Returns a map that shares the entries of `self`.
    fn clone(&self) -> (copy: Self)
        ensures
            copy == *self,
    {
        match self {
            IMap::Static(entries) => IMap::Static(entries),
            IMap::Rc(entries) => IMap::Rc(share_rc(entries)),
        }
    }
}

impl<K: Eq + Hash + ImplicitClone + 'static, V: PartialEq + ImplicitClone + 'static> ImplicitClone for IMap<
    K,
    V,
> {
    fn implicit_clone(&self) -> (value: Self) {
        self.clone()
    }
}

} // verus!
