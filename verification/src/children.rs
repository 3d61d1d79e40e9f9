//! The children of a component.
//!
//! A [`ChildrenRenderer`] is the ordered sequence of child nodes that a
//! component instance receives: none, one or many, always in the order in which
//! the caller wrote them.

use crate::virtual_dom::{Html, VChild};
use vstd::prelude::*;

verus! {

/// An ordered sequence of children of type `T`.
#[derive(Debug, PartialEq)]
pub struct ChildrenRenderer<T> {
    children: Vec<T>,
}

/// Children that are arbitrary nodes.
pub type Children = ChildrenRenderer<Html>;

/// Children that are all instances of the component `CHILD`.
pub type ChildrenWithProps<CHILD> = ChildrenRenderer<VChild<CHILD>>;

impl<T> View for ChildrenRenderer<T> {
    type V = Seq<T>;

    /// The children, first to last.
    closed spec fn view(&self) -> Seq<T> {
        self.children@
    }
}

impl<T> ChildrenRenderer<T> {
    /// The children `children`, in their order.
    pub fn new(children: Vec<T>) -> (renderer: Self)
        ensures
            renderer@ == children@,
    {
        ChildrenRenderer { children }
    }

    /// Whether there is no child.
    pub fn is_empty(&self) -> (empty: bool)
        ensures
            empty == (self@.len() == 0),
    {
        self.children.is_empty()
    }

    /// The number of children.
    pub fn len(&self) -> (len: usize)
        ensures
            len == self@.len(),
    {
        self.children.len()
    }

    /// The child at `index`, counted from zero, if there is one.
    pub fn get(&self, index: usize) -> (child: Option<&T>)
        ensures
            index < self@.len() ==> child == Some(&self@[index as int]),
            index >= self@.len() ==> child is None,
    {
        if index < self.children.len() {
            Some(&self.children[index])
        } else {
            None
        }
    }

    /// Gives the children up, in their order.
    pub fn into_vec(self) -> (children: Vec<T>)
        ensures
            children@ == self@,
    {
        self.children
    }
}

impl<T: Clone> Clone for ChildrenRenderer<T> {
    /// Clones every child, in their order.
    fn clone(&self) -> (copy: Self)
        ensures
            copy@.len() == self@.len(),
            forall|i: int| 0 <= i < self@.len() ==> cloned::<T>(self@[i], #[trigger] copy@[i]),
    {
        ChildrenRenderer { children: self.children.clone() }
    }
}

impl<T> Default for ChildrenRenderer<T> {
    /// No children.
    fn default() -> (renderer: Self)
        ensures
            renderer@.len() == 0,
    {
        ChildrenRenderer { children: Vec::new() }
    }
}

} // verus!
