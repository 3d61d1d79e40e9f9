//! Conversion of a value into the value of a property.
//!
//! A property has one declared type. The value that a caller writes for it may
//! have another: a text literal for a shared text, a function for a callback,
//! one node for a list of children, a bare value for an optional one.
//! [`IntoPropValue`] is implemented for every pair of types that may meet in
//! this way, and the declared type of the property alone selects the
//! implementation.

use crate::attr_value::{attr_is_static, attr_text, shared_text, share_string, static_text, AttrValue};
use crate::callback::Callback;
use crate::cheap_clone::ImplicitClone;
use crate::children::ChildrenRenderer;
use crate::immutable::{share_items, IArray, IMap};
use crate::to_html::ToHtml;
use crate::virtual_dom::{BaseComponent, VChild, VNode, VText};
use indexmap::IndexMap;
use std::hash::Hash;
use std::rc::Rc;
use vstd::prelude::*;

verus! {

/// Converts a value that a caller wrote into the value that a property of type
/// `T` holds.
pub trait IntoPropValue<T>: Sized {
    /// Whether `value` is what `self` converts to.
    spec fn converts_to(self, value: T) -> bool;

    /// Converts `self` to the value of a property.
    fn into_prop_value(self) -> (value: T)
        ensures
            self.converts_to(value),
    ;
}

/// `value` is present and holds what `from` converts to.
pub open spec fn present_of<F: IntoPropValue<T>, T>(from: F, value: Option<T>) -> bool {
    value matches Some(inner) && from.converts_to(inner)
}

/// `value` is absent where `from` is, and where `from` is present it holds
/// what the value in `from` converts to.
pub open spec fn optional_of<F: IntoPropValue<T>, T>(from: Option<F>, value: Option<T>) -> bool {
    match from {
        None => value is None,
        Some(inner) => present_of(inner, value),
    }
}

/// Converts `from` and wraps the result as a present optional value.
pub fn lift_present<F: IntoPropValue<T>, T>(from: F) -> (value: Option<T>)
    ensures
        present_of(from, value),
{
    Some(from.into_prop_value())
}

/// Converts the value in `from`, if there is one.
pub fn lift_optional<F: IntoPropValue<T>, T>(from: Option<F>) -> (value: Option<T>)
    ensures
        optional_of(from, value),
{
    match from {
        None => None,
        Some(inner) => lift_present(inner),
    }
}

impl<T> IntoPropValue<T> for T {
    open spec fn converts_to(self, value: T) -> bool {
        value == self
    }

    /// A value of the property's own type is the property's value.
    fn into_prop_value(self) -> (value: T) {
        self
    }
}

impl<T> IntoPropValue<T> for &T where T: ImplicitClone {
    open spec fn converts_to(self, value: T) -> bool {
        value == *self
    }

    /// A reference to a value that is cheap to clone gives one clone of it.
    fn into_prop_value(self) -> (value: T) {
        self.implicit_clone()
    }
}

impl<T> IntoPropValue<Option<T>> for T {
    open spec fn converts_to(self, value: Option<T>) -> bool {
        present_of::<T, T>(self, value)
    }

    fn into_prop_value(self) -> (value: Option<T>) {
        Some(self)
    }
}

impl<T> IntoPropValue<Option<T>> for &T where T: ImplicitClone {
    open spec fn converts_to(self, value: Option<T>) -> bool {
        present_of::<&T, T>(self, value)
    }

    fn into_prop_value(self) -> (value: Option<T>) {
        lift_present::<&T, T>(self)
    }
}

impl<I, O, F> IntoPropValue<Callback<I, O>> for F where F: 'static + Fn(I) -> O {
    open spec fn converts_to(self, value: Callback<I, O>) -> bool {
        value == Callback::<I, O>::handle_to(self)
    }

    /// A function becomes a callback that calls it.
    fn into_prop_value(self) -> (value: Callback<I, O>)
        ensures
            Callback::<I, O>::wraps(&value, self),
    {
        Callback::from(self)
    }
}

/// `value` is present and holds a callback that behaves as `func` does.
pub open spec fn present_callback<I, O, F: Fn(I) -> O>(
    func: F,
    value: Option<Callback<I, O>>,
) -> bool {
    value matches Some(callback) && callback.wraps(func)
}

impl<I, O, F> IntoPropValue<Option<Callback<I, O>>> for F where F: 'static + Fn(I) -> O {
    open spec fn converts_to(self, value: Option<Callback<I, O>>) -> bool {
        present_of::<F, Callback<I, O>>(self, value)
    }

    fn into_prop_value(self) -> (value: Option<Callback<I, O>>)
        ensures
            present_callback(self, value),
    {
        proof {
            Callback::<I, O>::lemma_handle_wraps(self);
        }
        lift_present::<F, Callback<I, O>>(self)
    }
}

impl<I, O, F> IntoPropValue<Option<Callback<I, O>>> for Option<F> where F: 'static + Fn(I) -> O {
    open spec fn converts_to(self, value: Option<Callback<I, O>>) -> bool {
        optional_of::<F, Callback<I, O>>(self, value)
    }

    fn into_prop_value(self) -> (value: Option<Callback<I, O>>)
        ensures
            self is None ==> value is None,
            self matches Some(func) ==> present_callback(func, value),
    {
        proof {
            if self is Some {
                Callback::<I, O>::lemma_handle_wraps(self->0);
            }
        }
        lift_optional::<F, Callback<I, O>>(self)
    }
}

/// `From<T> for T`, which std documents as returning its argument unchanged.
pub assume_specification<A>[ <A as std::convert::From<A>>::from ](given: A) -> (same: A)
    ensures
        same == given,
;

/// `children` holds exactly one child, which is what `child` turns into.
pub open spec fn single_child<T, C>(child: VChild<T>, children: ChildrenRenderer<C>) -> bool where
    T: BaseComponent,
    VChild<T>: Into<C>,
{
    children@.len() == 1 && call_ensures(<VChild<T> as Into<C>>::into, (child,), children@[0])
}

impl<T, C> IntoPropValue<ChildrenRenderer<C>> for VChild<T> where
    T: BaseComponent,
    C: Clone + Into<VNode>,
    VChild<T>: Into<C>,
{
    open spec fn converts_to(self, value: ChildrenRenderer<C>) -> bool {
        single_child(self, value)
    }

    /// One component instance becomes the only child.
    fn into_prop_value(self) -> (value: ChildrenRenderer<C>) {
        ChildrenRenderer::new(vec![self.into()])
    }
}

impl<T, C> IntoPropValue<Option<ChildrenRenderer<C>>> for VChild<T> where
    T: BaseComponent,
    C: Clone + Into<VNode>,
    VChild<T>: Into<C>,
{
    open spec fn converts_to(self, value: Option<ChildrenRenderer<C>>) -> bool {
        present_of::<VChild<T>, ChildrenRenderer<C>>(self, value)
    }

    fn into_prop_value(self) -> (value: Option<ChildrenRenderer<C>>) {
        lift_present::<VChild<T>, ChildrenRenderer<C>>(self)
    }
}

impl<T, C> IntoPropValue<Option<ChildrenRenderer<C>>> for Option<VChild<T>> where
    T: BaseComponent,
    C: Clone + Into<VNode>,
    VChild<T>: Into<C>,
{
    open spec fn converts_to(self, value: Option<ChildrenRenderer<C>>) -> bool {
        optional_of::<VChild<T>, ChildrenRenderer<C>>(self, value)
    }

    fn into_prop_value(self) -> (value: Option<ChildrenRenderer<C>>) {
        lift_optional::<VChild<T>, ChildrenRenderer<C>>(self)
    }
}

impl<T, R> IntoPropValue<ChildrenRenderer<R>> for Vec<T> where T: Into<R>, R: Clone + Into<VNode> {
    open spec fn converts_to(self, value: ChildrenRenderer<R>) -> bool {
        &&& value@.len() == self@.len()
        &&& forall|i: int|
            0 <= i < self@.len() ==> call_ensures(T::into, (self@[i],), #[trigger] value@[i])
    }

    /// Each item becomes one child, in the order of the items.
    fn into_prop_value(self) -> (value: ChildrenRenderer<R>) {
        let mut children: Vec<R> = Vec::new();
        for item in iter: self.into_iter()
            invariant
                children@.len() == iter.index(),
                forall|i: int|
                    0 <= i < children@.len() ==> call_ensures(
                        T::into,
                        (self@[i],),
                        #[trigger] children@[i],
                    ),
        {
            children.push(item.into());
        }
        ChildrenRenderer::new(children)
    }
}

impl<T> IntoPropValue<VNode> for T where T: ToHtml {
    open spec fn converts_to(self, value: VNode) -> bool {
        self.renders(value)
    }

    /// What can stand in a render tree becomes its node.
    fn into_prop_value(self) -> (value: VNode) {
        self.into_html()
    }
}

impl IntoPropValue<ChildrenRenderer<VNode>> for VNode {
    open spec fn converts_to(self, value: ChildrenRenderer<VNode>) -> bool {
        value@.len() == 1 && value@[0] == self
    }

    /// One node becomes the only child.
    fn into_prop_value(self) -> (value: ChildrenRenderer<VNode>) {
        ChildrenRenderer::new(vec![self])
    }
}

impl IntoPropValue<ChildrenRenderer<VNode>> for VText {
    open spec fn converts_to(self, value: ChildrenRenderer<VNode>) -> bool {
        value@.len() == 1 && value@[0] == VNode::VText(self)
    }

    /// One text becomes the only child, as a text node.
    fn into_prop_value(self) -> (value: ChildrenRenderer<VNode>) {
        ChildrenRenderer::new(vec![self.into()])
    }
}

impl IntoPropValue<String> for &'static str {
    open spec fn converts_to(self, value: String) -> bool {
        value@ == self@
    }

    /// A constant text is copied into an owned one.
    fn into_prop_value(self) -> (value: String) {
        self.to_owned()
    }
}

impl IntoPropValue<Option<String>> for &'static str {
    open spec fn converts_to(self, value: Option<String>) -> bool {
        present_of::<&'static str, String>(self, value)
    }

    fn into_prop_value(self) -> (value: Option<String>) {
        lift_present::<&'static str, String>(self)
    }
}

impl IntoPropValue<Option<String>> for Option<&'static str> {
    open spec fn converts_to(self, value: Option<String>) -> bool {
        optional_of::<&'static str, String>(self, value)
    }

    fn into_prop_value(self) -> (value: Option<String>) {
        lift_optional::<&'static str, String>(self)
    }
}

impl IntoPropValue<AttrValue> for &'static str {
    open spec fn converts_to(self, value: AttrValue) -> bool {
        attr_text(value) == self@ && attr_is_static(value)
    }

    /// A constant text is borrowed; nothing is copied.
    fn into_prop_value(self) -> (value: AttrValue) {
        static_text(self)
    }
}

impl IntoPropValue<Option<AttrValue>> for &'static str {
    open spec fn converts_to(self, value: Option<AttrValue>) -> bool {
        present_of::<&'static str, AttrValue>(self, value)
    }

    fn into_prop_value(self) -> (value: Option<AttrValue>) {
        lift_present::<&'static str, AttrValue>(self)
    }
}

impl IntoPropValue<Option<AttrValue>> for Option<&'static str> {
    open spec fn converts_to(self, value: Option<AttrValue>) -> bool {
        optional_of::<&'static str, AttrValue>(self, value)
    }

    fn into_prop_value(self) -> (value: Option<AttrValue>) {
        lift_optional::<&'static str, AttrValue>(self)
    }
}

impl IntoPropValue<AttrValue> for String {
    open spec fn converts_to(self, value: AttrValue) -> bool {
        attr_text(value) == self@ && !attr_is_static(value)
    }

    /// An owned text is moved into one shared allocation.
    fn into_prop_value(self) -> (value: AttrValue) {
        shared_text(share_string(self))
    }
}

impl IntoPropValue<Option<AttrValue>> for String {
    open spec fn converts_to(self, value: Option<AttrValue>) -> bool {
        present_of::<String, AttrValue>(self, value)
    }

    fn into_prop_value(self) -> (value: Option<AttrValue>) {
        lift_present::<String, AttrValue>(self)
    }
}

impl IntoPropValue<Option<AttrValue>> for Option<String> {
    open spec fn converts_to(self, value: Option<AttrValue>) -> bool {
        optional_of::<String, AttrValue>(self, value)
    }

    fn into_prop_value(self) -> (value: Option<AttrValue>) {
        lift_optional::<String, AttrValue>(self)
    }
}

impl IntoPropValue<AttrValue> for Rc<str> {
    open spec fn converts_to(self, value: AttrValue) -> bool {
        attr_text(value) == self@ && !attr_is_static(value)
    }

    /// A shared text is taken as it is; its allocation is used again.
    fn into_prop_value(self) -> (value: AttrValue) {
        shared_text(self)
    }
}

impl IntoPropValue<Option<AttrValue>> for Rc<str> {
    open spec fn converts_to(self, value: Option<AttrValue>) -> bool {
        present_of::<Rc<str>, AttrValue>(self, value)
    }

    fn into_prop_value(self) -> (value: Option<AttrValue>) {
        lift_present::<Rc<str>, AttrValue>(self)
    }
}

impl IntoPropValue<Option<AttrValue>> for Option<Rc<str>> {
    open spec fn converts_to(self, value: Option<AttrValue>) -> bool {
        optional_of::<Rc<str>, AttrValue>(self, value)
    }

    fn into_prop_value(self) -> (value: Option<AttrValue>) {
        lift_optional::<Rc<str>, AttrValue>(self)
    }
}

impl<T: ImplicitClone + 'static> IntoPropValue<IArray<T>> for &'static [T] {
    open spec fn converts_to(self, value: IArray<T>) -> bool {
        value == IArray::Static(self)
    }

    /// Constant items are borrowed; nothing is copied.
    fn into_prop_value(self) -> (value: IArray<T>) {
        IArray::Static(self)
    }
}

impl<T: ImplicitClone + 'static> IntoPropValue<IArray<T>> for Vec<T> {
    open spec fn converts_to(self, value: IArray<T>) -> bool {
        value is Rc && value@ == self@
    }

    /// Owned items are moved into one shared allocation, in their order.
    fn into_prop_value(self) -> (value: IArray<T>) {
        IArray::Rc(share_items(self))
    }
}

impl<
    K: Eq + Hash + ImplicitClone + 'static,
    V: PartialEq + ImplicitClone + 'static,
> IntoPropValue<IMap<K, V>> for &'static [(K, V)] {
    open spec fn converts_to(self, value: IMap<K, V>) -> bool {
        value == IMap::Static(self)
    }

    /// Constant entries are borrowed; nothing is copied.
    fn into_prop_value(self) -> (value: IMap<K, V>) {
        IMap::Static(self)
    }
}

impl<
    K: Eq + Hash + ImplicitClone + 'static,
    V: PartialEq + ImplicitClone + 'static,
> IntoPropValue<IMap<K, V>> for IndexMap<K, V> {
    open spec fn converts_to(self, value: IMap<K, V>) -> bool {
        value matches IMap::Rc(entries) && *entries == self
    }

    /// An owned map is moved behind a reference count as it is.
    fn into_prop_value(self) -> (value: IMap<K, V>) {
        IMap::Rc(Rc::new(self))
    }
}

/// Identity: a value converted to its own type is that value.
pub proof fn law_identity<T>(from: T, value: T)
    requires
        <T as IntoPropValue<T>>::converts_to(from, value),
    ensures
        value == from,
{
}

/// Lift of a bare value: whatever `from` converts to, lifting `from` gives
/// exactly the present values that hold such a result, and never the absent
/// one.
pub proof fn law_lift_present<F: IntoPropValue<T>, T>(from: F, value: Option<T>)
    ensures
        present_of(from, value) <==> value is Some && from.converts_to(value->0),
        !present_of::<F, T>(from, None),
{
}

/// Lift of an optional value: absent stays absent, and present becomes
/// present with what the value inside converts to.
pub proof fn law_lift_optional<F: IntoPropValue<T>, T>(from: Option<F>, value: Option<T>)
    ensures
        from is None ==> (optional_of(from, value) <==> value is None),
        from is Some ==> (optional_of(from, value) <==> value is Some && from->0.converts_to(
            value->0,
        )),
{
}

/// The identity on optional values is the lift of the identity: it keeps
/// what is absent absent and what is present present and unchanged.
pub proof fn law_lift_identity<T>(from: Option<T>, value: Option<T>)
    ensures
        <Option<T> as IntoPropValue<Option<T>>>::converts_to(from, value) <==> optional_of::<T, T>(
            from,
            value,
        ),
{
}

/// Reference conversion: a reference to a value that is cheap to clone
/// converts to a value equal to the one referred to.
pub proof fn law_reference<T: ImplicitClone>(from: &T, value: T)
    requires
        <&T as IntoPropValue<T>>::converts_to(from, value),
    ensures
        value == *from,
{
}

/// Order of children: a sequence of items converts to as many children, and
/// the child at each place is the conversion of the item at that place and of
/// no other.
pub proof fn law_children_order<T, R>(from: Vec<T>, value: ChildrenRenderer<R>, i: int) where
    T: Into<R>,
    R: Clone + Into<VNode>,

    requires
        <Vec<T> as IntoPropValue<ChildrenRenderer<R>>>::converts_to(from, value),
        0 <= i < from@.len(),
    ensures
        value@.len() == from@.len(),
        call_ensures(T::into, (from@[i],), value@[i]),
{
}

/// Effect of a callback: the callback that a function converts to may be
/// called with exactly the arguments that the function takes, and returns
/// exactly what the function returns for them.
pub proof fn law_callback_effect<I, O, F>(from: F, value: Callback<I, O>, input: I, output: O) where
    F: 'static + Fn(I) -> O,

    requires
        <F as IntoPropValue<Callback<I, O>>>::converts_to(from, value),
    ensures
        value.accepts(input) <==> call_requires(from, (input,)),
        value.yields(input, output) <==> call_ensures(from, (input,), output),
{
    Callback::<I, O>::lemma_handle_wraps(from);
}

} // verus!
