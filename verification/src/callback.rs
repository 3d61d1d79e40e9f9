//! Shared handles to caller-supplied functions.
//!
//! A [`Callback`] wraps a function so that it can be stored in a property and
//! cloned freely: every clone calls the one function that the callback was made
//! from.

use crate::cheap_clone::{same_rc, share_rc, ImplicitClone};
use std::rc::Rc;
use vstd::prelude::*;
use vstd::std_specs::cmp::PartialEqSpecImpl;
use vstd::std_specs::convert::FromSpecImpl;

verus! {

/// What a callback needs of the function it holds, with the function's own
/// type erased.
trait Handler<IN, OUT> {
    spec fn accepts(&self, input: IN) -> bool;

    spec fn yields(&self, input: IN, output: OUT) -> bool;

    fn handle(&self, input: IN) -> (output: OUT)
        requires
            self.accepts(input),
        ensures
            self.yields(input, output),
    ;
}

/// A function, held by value.
struct FnHandler<F> {
    func: F,
}

impl<IN, OUT, F: Fn(IN) -> OUT> Handler<IN, OUT> for FnHandler<F> {
    spec fn accepts(&self, input: IN) -> bool {
        call_requires(self.func, (input,))
    }

    spec fn yields(&self, input: IN, output: OUT) -> bool {
        call_ensures(self.func, (input,), output)
    }

    fn handle(&self, input: IN) -> (output: OUT) {
        (self.func)(input)
    }
}

/// A shared, clonable handle to a function from `IN` to `OUT`.
#[verifier::reject_recursive_types(IN)]
#[verifier::reject_recursive_types(OUT)]
pub struct Callback<IN, OUT = ()> {
    cb: Rc<Box<dyn Handler<IN, OUT>>>,
}

impl<IN, OUT> Callback<IN, OUT> {
    /// Whether the wrapped function may be called with `input`.
    pub closed spec fn accepts(&self, input: IN) -> bool {
        self.cb.accepts(input)
    }

    /// Whether the wrapped function may return `output` when called with
    /// `input`.
    pub closed spec fn yields(&self, input: IN, output: OUT) -> bool {
        self.cb.yields(input, output)
    }

    /// The callback behaves as `func` does: it may be called exactly where
    /// `func` may be, and returns exactly what `func` may return.
    pub open spec fn wraps<F: Fn(IN) -> OUT>(&self, func: F) -> bool {
        &&& forall|input: IN| #[trigger] self.accepts(input) <==> call_requires(func, (input,))
        &&& forall|input: IN, output: OUT| #[trigger]
            self.yields(input, output) <==> call_ensures(func, (input,), output)
    }

    /// The callback that is a handle to `func`.
    pub closed spec fn handle_to<F: Fn(IN) -> OUT + 'static>(func: F) -> Self {
        Callback { cb: Rc::new(Box::new(FnHandler { func })) }
    }

    /// A handle to a function behaves as the function does.
    pub proof fn lemma_handle_wraps<F: Fn(IN) -> OUT + 'static>(func: F)
        ensures
            Self::handle_to(func).wraps(func),
    {
        let held = FnHandler { func };
        let callback = Self::handle_to(func);
        assert forall|input: IN| #[trigger]
            callback.accepts(input) <==> call_requires(func, (input,)) by {
            assert(held.accepts(input) <==> call_requires(func, (input,)));
            assert(callback.cb.accepts(input) <==> held.accepts(input));
        }
        assert forall|input: IN, output: OUT| #[trigger]
            callback.yields(input, output) <==> call_ensures(func, (input,), output) by {
            assert(held.yields(input, output) <==> call_ensures(func, (input,), output));
            assert(callback.cb.yields(input, output) <==> held.yields(input, output));
        }
    }

    /// Calls the wrapped function with `value` and returns what it returns.
    pub fn emit(&self, value: IN) -> (output: OUT)
        requires
            self.accepts(value),
        ensures
            self.yields(value, output),
    {
        self.cb.handle(value)
    }
}

impl<IN, OUT, F: Fn(IN) -> OUT + 'static> From<F> for Callback<IN, OUT> {
    /// Wraps `func` in a shared handle.
    fn from(func: F) -> (callback: Self)
        ensures
            callback == Callback::<IN, OUT>::handle_to(func),
            Callback::<IN, OUT>::wraps(&callback, func),
    {
        proof {
            Self::lemma_handle_wraps(func);
        }
        Callback { cb: Rc::new(Box::new(FnHandler { func })) }
    }
}

impl<IN, OUT, F: Fn(IN) -> OUT + 'static> FromSpecImpl<F> for Callback<IN, OUT> {
    open spec fn obeys_from_spec() -> bool {
        true
    }

    open spec fn from_spec(func: F) -> Self {
        Callback::handle_to(func)
    }
}

impl<IN, OUT> Clone for Callback<IN, OUT> {
    /// Returns another handle to the same function.
    fn clone(&self) -> (copy: Self)
        ensures
            copy == *self,
    {
        Callback { cb: share_rc(&self.cb) }
    }
}

impl<IN, OUT> ImplicitClone for Callback<IN, OUT> {
    fn implicit_clone(&self) -> (value: Self) {
        self.clone()
    }
}

impl<IN, OUT> implicit_clone::ImplicitClone for Callback<IN, OUT> {}

impl<IN, OUT> PartialEq for Callback<IN, OUT> {
    /// Two callbacks are equal when they are handles to one function.
    fn eq(&self, other: &Self) -> (equal: bool)
        ensures
            equal ==> *self == *other,
    {
        same_rc(&self.cb, &other.cb)
    }
}

/// Whether two handles are one allocation is nothing that a specification
/// can speak of, so `==` on callbacks has no specification beyond the clause
/// on `eq`.
impl<IN, OUT> PartialEqSpecImpl for Callback<IN, OUT> {
    open spec fn obeys_eq_spec() -> bool {
        false
    }

    open spec fn eq_spec(&self, other: &Self) -> bool {
        self == other
    }
}

} // verus!
