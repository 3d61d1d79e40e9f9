//! Values that can stand in a render tree.

use crate::attr_value::{attr_is_static, attr_text, shared_text, share_string, static_text, AttrValue};
use crate::children::ChildrenRenderer;
use crate::virtual_dom::{BaseComponent, Html, VChild, VComp, VList, VNode, VTag, VText};
use std::rc::Rc;
use vstd::prelude::*;

verus! {

/// A value that can be turned into a node of a render tree without losing
/// anything.
pub trait ToHtml: Sized {
    /// Whether `html` is the node that `self` turns into.
    spec fn renders(self, html: Html) -> bool;

    /// Turns `self` into a node.
    fn into_html(self) -> (html: Html)
        ensures
            self.renders(html),
    ;
}

/// The node is a list without a key whose children are `children`.
pub open spec fn is_list_of(html: Html, children: Seq<VNode>) -> bool {
    html matches VNode::VList(list) && list.key is None && list.children@ == children
}

impl ToHtml for VText {
    open spec fn renders(self, html: Html) -> bool {
        html == VNode::VText(self)
    }

    fn into_html(self) -> (html: Html) {
        VNode::VText(self)
    }
}

impl ToHtml for VTag {
    open spec fn renders(self, html: Html) -> bool {
        html == VNode::VTag(Box::new(self))
    }

    fn into_html(self) -> (html: Html) {
        VNode::VTag(Box::new(self))
    }
}

impl ToHtml for VList {
    open spec fn renders(self, html: Html) -> bool {
        html == VNode::VList(self)
    }

    fn into_html(self) -> (html: Html) {
        VNode::VList(self)
    }
}

impl ToHtml for VComp {
    open spec fn renders(self, html: Html) -> bool {
        html == VNode::VComp(self)
    }

    fn into_html(self) -> (html: Html) {
        VNode::VComp(self)
    }
}

impl<COMP: BaseComponent> ToHtml for VChild<COMP> {
    open spec fn renders(self, html: Html) -> bool {
        html == VNode::VComp(VComp::instance::<COMP>(self.props, self.key))
    }

    fn into_html(self) -> (html: Html) {
        VNode::from(self)
    }
}

impl ToHtml for AttrValue {
    open spec fn renders(self, html: Html) -> bool {
        html == VNode::VText(VText { text: self })
    }

    /// A text becomes a text node that holds it.
    fn into_html(self) -> (html: Html) {
        VNode::VText(VText { text: self })
    }
}

impl ToHtml for &'static str {
    open spec fn renders(self, html: Html) -> bool {
        html matches VNode::VText(node) && attr_text(node.text) == self@ && attr_is_static(
            node.text,
        )
    }

    /// A constant text becomes a text node that borrows it.
    fn into_html(self) -> (html: Html) {
        VNode::VText(VText { text: static_text(self) })
    }
}

impl ToHtml for String {
    open spec fn renders(self, html: Html) -> bool {
        html matches VNode::VText(node) && attr_text(node.text) == self@ && !attr_is_static(
            node.text,
        )
    }

    /// An owned text becomes a text node that shares it.
    fn into_html(self) -> (html: Html) {
        VNode::VText(VText { text: shared_text(share_string(self)) })
    }
}

impl<T: ToHtml> ToHtml for Option<T> {
    open spec fn renders(self, html: Html) -> bool {
        match self {
            None => is_list_of(html, Seq::empty()),
            Some(inner) => inner.renders(html),
        }
    }

    /// What is absent becomes the empty list; what is present becomes its own
    /// node.
    fn into_html(self) -> (html: Html) {
        match self {
            None => VNode::VList(VList { children: Rc::new(Vec::new()), key: None }),
            Some(inner) => inner.into_html(),
        }
    }
}

impl ToHtml for Option<VNode> {
    open spec fn renders(self, html: Html) -> bool {
        match self {
            None => is_list_of(html, Seq::empty()),
            Some(node) => html == node,
        }
    }

    fn into_html(self) -> (html: Html) {
        match self {
            None => VNode::VList(VList { children: Rc::new(Vec::new()), key: None }),
            Some(node) => node,
        }
    }
}

impl<T: ToHtml> ToHtml for Vec<T> {
    open spec fn renders(self, html: Html) -> bool {
        html matches VNode::VList(list) && list.key is None && list.children@.len() == self@.len()
            && forall|i: int|
            0 <= i < self@.len() ==> self@[i].renders(#[trigger] list.children@[i])
    }

    /// The items become the children of one list, in their order.
    fn into_html(self) -> (html: Html) {
        let mut children: Vec<VNode> = Vec::new();
        for item in iter: self.into_iter()
            invariant
                children@.len() == iter.index(),
                forall|i: int|
                    0 <= i < children@.len() ==> self@[i].renders(#[trigger] children@[i]),
        {
            children.push(item.into_html());
        }
        VNode::VList(VList { children: Rc::new(children), key: None })
    }
}

impl ToHtml for Vec<VNode> {
    open spec fn renders(self, html: Html) -> bool {
        is_list_of(html, self@)
    }

    /// The nodes become the children of one list, in their order.
    fn into_html(self) -> (html: Html) {
        VNode::VList(VList { children: Rc::new(self), key: None })
    }
}

impl ToHtml for ChildrenRenderer<VNode> {
    open spec fn renders(self, html: Html) -> bool {
        is_list_of(html, self@)
    }

    /// The children become the children of one list, in their order.
    fn into_html(self) -> (html: Html) {
        VNode::VList(VList { children: Rc::new(self.into_vec()), key: None })
    }
}

} // verus!
