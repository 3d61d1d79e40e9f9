//! Type-directed conversion of caller-supplied values into property values.
//!
//! A component declares each of its properties with one type: a shared text,
//! a callback, a list of children, an immutable array. Where an instance of
//! the component is written down, the value given for a property may have a
//! handier type: a string literal, a function, a single node, a vector.
//! [`IntoPropValue`] turns the one into the other. The declared type alone
//! selects the conversion, no conversion can fail, and none looks at the value
//! to decide what to do.
//!
//! - [`into_prop_value`] holds the conversions and the laws they obey.
//! - [`cheap_clone`] holds the marker for values that may be cloned without
//!   asking.
//! - [`attr_value`], [`callback`], [`virtual_dom`], [`children`] and
//!   [`immutable`] hold the types that properties have.
//! - [`to_html`] holds the values that can stand in a render tree.

pub mod attr_value;
pub mod callback;
pub mod cheap_clone;
pub mod children;
pub mod immutable;
pub mod into_prop_value;
pub mod to_html;
pub mod virtual_dom;

pub use attr_value::AttrValue;
pub use callback::Callback;
pub use cheap_clone::ImplicitClone;
pub use children::{Children, ChildrenRenderer, ChildrenWithProps};
pub use immutable::{IArray, IMap};
pub use into_prop_value::IntoPropValue;
pub use to_html::ToHtml;
