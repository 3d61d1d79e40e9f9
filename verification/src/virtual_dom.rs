//! The nodes of a render tree.
//!
//! A tree is made of text, elements, lists of siblings and component
//! instances. It is built once, from the values that a caller supplies, and
//! never changed afterwards; the order of the children of a node is the order
//! in which they were given. Children are held behind a reference count, so a
//! tree can be handed to several owners without being copied.

use crate::attr_value::{attr_text, AttrValue};
use crate::cheap_clone::{same_rc, share_rc, ImplicitClone};
use std::rc::Rc;
use vstd::prelude::*;
use vstd::std_specs::cmp::PartialEqSpecImpl;
use vstd::std_specs::convert::FromSpecImpl;

verus! {

/// A finished render tree.
pub type Html = VNode;

/// Names a child among its siblings, so that it can be told apart when the
/// list it stands in is rebuilt.
#[derive(Debug)]
pub struct Key {
    pub key: AttrValue,
}

impl Clone for Key {
    fn clone(&self) -> (copy: Self)
        ensures
            copy == *self,
    {
        Key { key: self.key.clone() }
    }
}

impl PartialEq for Key {
    fn eq(&self, other: &Self) -> (equal: bool) {
        self.key == other.key
    }
}

/// Keys compare by their text.
impl PartialEqSpecImpl for Key {
    open spec fn obeys_eq_spec() -> bool {
        true
    }

    open spec fn eq_spec(&self, other: &Self) -> bool {
        attr_text(self.key) == attr_text(other.key)
    }
}

/// Duplicates an optional key.
fn clone_key(key: &Option<Key>) -> (copy: Option<Key>)
    ensures
        copy == *key,
{
    match key {
        None => None,
        Some(key) => Some(key.clone()),
    }
}

/// A run of text.
#[derive(Debug, PartialEq)]
pub struct VText {
    pub text: AttrValue,
}

impl Clone for VText {
    fn clone(&self) -> (copy: Self)
        ensures
            copy == *self,
    {
        VText { text: self.text.clone() }
    }
}

/// An element with a tag name and children.
#[derive(PartialEq)]
pub struct VTag {
    pub tag: AttrValue,
    pub children: Rc<Vec<VNode>>,
    pub key: Option<Key>,
}

impl Clone for VTag {
    /// Returns an element that shares the children of `self`.
    fn clone(&self) -> (copy: Self)
        ensures
            copy == *self,
    {
        VTag {
            tag: self.tag.clone(),
            children: share_rc(&self.children),
            key: clone_key(&self.key),
        }
    }
}

/// A list of sibling nodes without an element around them.
#[derive(PartialEq)]
pub struct VList {
    pub children: Rc<Vec<VNode>>,
    pub key: Option<Key>,
}

impl Clone for VList {
    /// Returns a list that shares the children of `self`.
    fn clone(&self) -> (copy: Self)
        ensures
            copy == *self,
    {
        VList { children: share_rc(&self.children), key: clone_key(&self.key) }
    }
}

/// A type of component: something that is configured by one set of
/// properties.
pub trait BaseComponent: Sized + 'static {
    /// The properties that configure an instance.
    type Properties;
}

/// The properties of a component instance, behind a handle that no longer
/// names the component's type.
trait Mountable {}

struct PropsWrapper<COMP: BaseComponent> {
    props: Rc<COMP::Properties>,
}

impl<COMP: BaseComponent> Mountable for PropsWrapper<COMP> {}

/// An instance of some component in a render tree.
pub struct VComp {
    mountable: Rc<Box<dyn Mountable>>,
    key: Option<Key>,
}

impl VComp {
    /// The key that the instance was given.
    pub closed spec fn key_spec(&self) -> Option<Key> {
        self.key
    }

    /// The instance of `COMP` that `props` configure, under `key`.
    pub closed spec fn instance<COMP: BaseComponent>(
        props: Rc<COMP::Properties>,
        key: Option<Key>,
    ) -> VComp {
        VComp { mountable: Rc::new(Box::new(PropsWrapper::<COMP> { props })), key }
    }

    /// An instance of `COMP` configured by `props`.
    pub fn new<COMP: BaseComponent>(props: Rc<COMP::Properties>, key: Option<Key>) -> (comp: VComp)
        ensures
            comp == VComp::instance::<COMP>(props, key),
            comp.key_spec() == key,
    {
        VComp { mountable: Rc::new(Box::new(PropsWrapper::<COMP> { props })), key }
    }

    /// The key that the instance was given.
    pub fn key(&self) -> (key: &Option<Key>)
        ensures
            *key == self.key_spec(),
    {
        &self.key
    }
}

impl Clone for VComp {
    /// Returns another handle to the same instance.
    fn clone(&self) -> (copy: Self)
        ensures
            copy == *self,
    {
        VComp { mountable: share_rc(&self.mountable), key: clone_key(&self.key) }
    }
}

impl PartialEq for VComp {
    /// Two instances are equal when they are one instance under one key.
    fn eq(&self, other: &Self) -> (equal: bool) {
        let keys = match (&self.key, &other.key) {
            (None, None) => true,
            (Some(left), Some(right)) => left == right,
            _ => false,
        };
        keys && same_rc(&self.mountable, &other.mountable)
    }
}

/// Whether two handles are one allocation is nothing that a specification
/// can speak of, so `==` on instances has no specification.
impl PartialEqSpecImpl for VComp {
    open spec fn obeys_eq_spec() -> bool {
        false
    }

    open spec fn eq_spec(&self, other: &Self) -> bool {
        self == other
    }
}

/// One node of a render tree.
#[derive(PartialEq)]
pub enum VNode {
    /// An element.
    VTag(Box<VTag>),
    /// A run of text.
    VText(VText),
    /// A component instance.
    VComp(VComp),
    /// A list of siblings.
    VList(VList),
}

impl Clone for VNode {
    /// Returns a node that shares the children of `self`.
    fn clone(&self) -> (copy: Self)
        ensures
            copy == *self,
    {
        match self {
            VNode::VTag(tag) => {
                let inner: &VTag = tag;
                VNode::VTag(Box::new(inner.clone()))
            },
            VNode::VText(text) => VNode::VText(text.clone()),
            VNode::VComp(comp) => VNode::VComp(comp.clone()),
            VNode::VList(list) => VNode::VList(list.clone()),
        }
    }
}

impl ImplicitClone for VNode {
    fn implicit_clone(&self) -> (value: Self) {
        self.clone()
    }
}

impl implicit_clone::ImplicitClone for VNode {}

impl Default for VNode {
    /// The empty tree: a list without children.
    fn default() -> (node: Self)
        ensures
            node matches VNode::VList(list) && list.children@.len() == 0 && list.key is None,
    {
        VNode::VList(VList { children: Rc::new(Vec::new()), key: None })
    }
}

/// A component instance that still names its component: the properties of a
/// `COMP`, and the key of the instance.
pub struct VChild<COMP: BaseComponent> {
    pub props: Rc<COMP::Properties>,
    pub key: Option<Key>,
}

impl<COMP: BaseComponent> VChild<COMP> {
    /// An instance of `COMP` configured by `props`.
    pub fn new(props: COMP::Properties, key: Option<Key>) -> (child: Self)
        ensures
            *child.props == props,
            child.key == key,
    {
        VChild { props: Rc::new(props), key }
    }
}

impl<COMP: BaseComponent> Clone for VChild<COMP> {
    /// Returns an instance that shares the properties of `self`.
    fn clone(&self) -> (copy: Self)
        ensures
            copy == *self,
    {
        VChild { props: share_rc(&self.props), key: clone_key(&self.key) }
    }
}

impl<COMP: BaseComponent> PartialEq for VChild<COMP> where COMP::Properties: PartialEq {
    /// Two instances are equal when their properties and their keys are.
    fn eq(&self, other: &Self) -> (equal: bool) {
        let keys = match (&self.key, &other.key) {
            (None, None) => true,
            (Some(left), Some(right)) => left == right,
            _ => false,
        };
        keys && *self.props == *other.props
    }
}

/// What `==` means on the properties is theirs to say, so `==` on typed
/// instances has no specification of its own.
impl<COMP: BaseComponent> PartialEqSpecImpl for VChild<COMP> where COMP::Properties: PartialEq {
    open spec fn obeys_eq_spec() -> bool {
        false
    }

    open spec fn eq_spec(&self, other: &Self) -> bool {
        self == other
    }
}

impl From<VText> for VNode {
    fn from(text: VText) -> (node: Self)
        ensures
            node == VNode::VText(text),
    {
        VNode::VText(text)
    }
}

impl FromSpecImpl<VText> for VNode {
    open spec fn obeys_from_spec() -> bool {
        true
    }

    open spec fn from_spec(text: VText) -> Self {
        VNode::VText(text)
    }
}

impl From<VTag> for VNode {
    fn from(tag: VTag) -> (node: Self)
        ensures
            node == VNode::VTag(Box::new(tag)),
    {
        VNode::VTag(Box::new(tag))
    }
}

impl FromSpecImpl<VTag> for VNode {
    open spec fn obeys_from_spec() -> bool {
        true
    }

    open spec fn from_spec(tag: VTag) -> Self {
        VNode::VTag(Box::new(tag))
    }
}

impl From<VList> for VNode {
    fn from(list: VList) -> (node: Self)
        ensures
            node == VNode::VList(list),
    {
        VNode::VList(list)
    }
}

impl FromSpecImpl<VList> for VNode {
    open spec fn obeys_from_spec() -> bool {
        true
    }

    open spec fn from_spec(list: VList) -> Self {
        VNode::VList(list)
    }
}

impl From<VComp> for VNode {
    fn from(comp: VComp) -> (node: Self)
        ensures
            node == VNode::VComp(comp),
    {
        VNode::VComp(comp)
    }
}

impl FromSpecImpl<VComp> for VNode {
    open spec fn obeys_from_spec() -> bool {
        true
    }

    open spec fn from_spec(comp: VComp) -> Self {
        VNode::VComp(comp)
    }
}

impl<COMP: BaseComponent> From<VChild<COMP>> for VNode {
    /// Forgets which component the instance belongs to.
    fn from(child: VChild<COMP>) -> (node: Self)
        ensures
            node == VNode::VComp(VComp::instance::<COMP>(child.props, child.key)),
            node matches VNode::VComp(comp) && comp.key_spec() == child.key,
    {
        VNode::VComp(VComp::new::<COMP>(child.props, child.key))
    }
}

impl<COMP: BaseComponent> FromSpecImpl<VChild<COMP>> for VNode {
    open spec fn obeys_from_spec() -> bool {
        true
    }

    open spec fn from_spec(child: VChild<COMP>) -> Self {
        VNode::VComp(VComp::instance::<COMP>(child.props, child.key))
    }
}

} // verus!
