//! Shared immutable text.
//!
//! [`AttrValue`] is the string type of property values. It either borrows a
//! text that lives as long as the program or holds a reference-counted one, so
//! that handing it to several owners never copies the characters.

use crate::cheap_clone::ImplicitClone;
use implicit_clone::unsync::IString;
use std::rc::Rc;
use vstd::prelude::*;

verus! {

/// `implicit_clone::unsync::IString`, taken as it is: nothing is known of a
/// value but what the functions below say of it.
#[verifier::external_type_specification]
#[verifier::external_body]
pub struct ExIString(IString);

/// The text of a property value: constant, or shared by reference count.
pub type AttrValue = IString;

/// The characters that an [`AttrValue`] holds: what `IString::as_str` returns
/// for it, as a sequence.
pub uninterp spec fn attr_text(value: IString) -> Seq<char>;

/// Whether an [`AttrValue`] is the `IString::Static` variant, which borrows a
/// constant text, and not the `IString::Rc` variant, which owns a share of a
/// reference-counted one.
pub uninterp spec fn attr_is_static(value: IString) -> bool;

/// Builds `IString::Static` around `text`. The variant stores the reference
/// itself, so the value holds the characters of `text` and nothing is copied.
#[verifier::external_body]
pub(crate) fn static_text(text: &'static str) -> (value: AttrValue)
    ensures
        attr_text(value) == text@,
        attr_is_static(value),
{
    IString::Static(text)
}

/// Builds `IString::Rc` around `text`. The variant stores the handle itself,
/// so the value holds the characters of `text` and shares its allocation.
#[verifier::external_body]
pub(crate) fn shared_text(text: Rc<str>) -> (value: AttrValue)
    ensures
        attr_text(value) == text@,
        !attr_is_static(value),
{
    IString::Rc(text)
}

/// `Rc::<str>::from` on a `String`: moves the characters of `text` into one
/// reference-counted allocation.
#[verifier::external_body]
pub(crate) fn share_string(text: String) -> (shared: Rc<str>)
    ensures
        shared@ == text@,
{
    Rc::from(text)
}

/// The derived `Clone` of `IString` rebuilds the variant it was given: it
/// copies the reference of `Static` and clones the handle of `Rc`, which
/// points to the same allocation.
pub assume_specification[ <IString as Clone>::clone ](value: &IString) -> (copy: IString)
    ensures
        copy == *value,
;

/// `IString` compares as the texts that `as_str` gives: two values are equal
/// when they hold the same characters, whichever variant each of them is.
pub assume_specification[ <IString as PartialEq<IString>>::eq ](
    left: &IString,
    right: &IString,
) -> (equal: bool)
    ensures
        equal == (attr_text(*left) == attr_text(*right)),
;

impl ImplicitClone for IString {
    fn implicit_clone(&self) -> (value: Self) {
        self.clone()
    }
}

} // verus!
