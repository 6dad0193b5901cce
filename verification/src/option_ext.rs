//! The conversions themselves, as methods on `Option`.

use crate::model::{
    break_or_value, breaks_or_continues_with, continue_or_value, continues_or_breaks_with,
};
use std::ops::ControlFlow;
use vstd::prelude::*;

verus! {

/// Conversions from an optional value into a [`ControlFlow`].
///
/// The `continue_*` methods put the payload into `Continue` and the
/// caller's value into `Break`; the `break_*` methods do the opposite.
/// The two `*_or_else` methods are the primitives. The others are
/// provided in terms of them.
pub trait OptionExt {
    /// The type wrapped by the option.
    type Item;

    /// The option that `self` stands for. Every contract below speaks of
    /// `self` through it.
    spec fn as_option(self) -> Option<Self::Item>;

    /// Maps `Some(v)` to `Continue(v)` and `None` to `Break(b())`.
    ///
    /// `b` has to be callable only where `self` is empty. On a populated
    /// option nothing is known of `b`, so it is not called, and the result
    /// is `Continue(v)` whatever `b` would give. On an empty option the
    /// result is `Break` of what the one call of `b` returned.
    fn continue_or_else<B, F>(self, b: F) -> (flow: ControlFlow<B, Self::Item>) where
        F: FnOnce() -> B,

        requires
            self.as_option() is None ==> call_requires(b, ()),
        ensures
            continues_or_breaks_with(self.as_option(), b, flow),
    ;

    /// Maps `Some(v)` to `Break(v)` and `None` to `Continue(c())`.
    ///
    /// `c` has to be callable only where `self` is empty. On a populated
    /// option nothing is known of `c`, so it is not called, and the result
    /// is `Break(v)` whatever `c` would give. On an empty option the result
    /// is `Continue` of what the one call of `c` returned.
    fn break_or_else<C, F>(self, c: F) -> (flow: ControlFlow<Self::Item, C>) where
        F: FnOnce() -> C,

        requires
            self.as_option() is None ==> call_requires(c, ()),
        ensures
            breaks_or_continues_with(self.as_option(), c, flow),
    ;

    /// Maps `Some(v)` to `Continue(v)` and `None` to `Break(b)`.
    ///
    /// The caller has `b` at hand already; this is
    /// [`continue_or_else`](OptionExt::continue_or_else) with a producer
    /// that yields `b`.
    fn continue_or<B>(self, b: B) -> (flow: ControlFlow<B, Self::Item>) where Self: Sized
        ensures
            flow == continue_or_value(self.as_option(), b),
    {
        self.continue_or_else(|| -> (out: B) ensures out == b { b })
    }

    /// Maps `Some(v)` to `Continue(v)` and `None` to `Break` of the default
    /// value of `B`.
    ///
    /// What `B::default` returns is known through its own contract: for
    /// `i32` the result on an empty option is `Break(0)`.
    fn continue_or_default<B>(self) -> (flow: ControlFlow<B, Self::Item>) where
        Self: Sized,
        B: Default,

        ensures
            continues_or_breaks_with(self.as_option(), B::default, flow),
    {
        self.continue_or_else(Default::default)
    }

    /// Maps `Some(v)` to `Break(v)` and `None` to `Continue(c)`.
    ///
    /// The caller has `c` at hand already; this is
    /// [`break_or_else`](OptionExt::break_or_else) with a producer that
    /// yields `c`.
    fn break_or<C>(self, c: C) -> (flow: ControlFlow<Self::Item, C>) where Self: Sized
        ensures
            flow == break_or_value(self.as_option(), c),
    {
        self.break_or_else(|| -> (out: C) ensures out == c { c })
    }

    /// Maps `Some(v)` to `Break(v)` and `None` to `Continue` of the default
    /// value of `C`.
    ///
    /// What `C::default` returns is known through its own contract: for
    /// `i32` the result on an empty option is `Continue(0)`.
    fn break_or_default<C>(self) -> (flow: ControlFlow<Self::Item, C>) where
        Self: Sized,
        C: Default,

        ensures
            breaks_or_continues_with(self.as_option(), C::default, flow),
    {
        self.break_or_else(Default::default)
    }
}

impl<T> OptionExt for Option<T> {
    type Item = T;

    open spec fn as_option(self) -> Option<T> {
        self
    }

    fn continue_or_else<B, F>(self, b: F) -> (flow: ControlFlow<B, T>) where F: FnOnce() -> B {
        match self {
            Some(v) => ControlFlow::Continue(v),
            None => ControlFlow::Break(b()),
        }
    }

    fn break_or_else<C, F>(self, c: F) -> (flow: ControlFlow<T, C>) where F: FnOnce() -> C {
        match self {
            Some(v) => ControlFlow::Break(v),
            None => ControlFlow::Continue(c()),
        }
    }
}

} // verus!
