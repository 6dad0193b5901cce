//! The mathematical statement of each conversion, over plain `Option` and
//! `ControlFlow` values.

use std::ops::ControlFlow;
use vstd::prelude::*;

verus! {

/// The flow that continues with the payload of `opt`, or breaks with `b`
/// where `opt` is empty.
pub open spec fn continue_or_value<T, B>(opt: Option<T>, b: B) -> ControlFlow<B, T> {
    match opt {
        Some(v) => ControlFlow::Continue(v),
        None => ControlFlow::Break(b),
    }
}

/// The flow that breaks with the payload of `opt`, or continues with `c`
/// where `opt` is empty.
pub open spec fn break_or_value<T, C>(opt: Option<T>, c: C) -> ControlFlow<T, C> {
    match opt {
        Some(v) => ControlFlow::Break(v),
        None => ControlFlow::Continue(c),
    }
}

/// Whether `flow` is a result of continuing with the payload of `opt`, or of
/// breaking with an output of `produce` where `opt` is empty.
pub open spec fn continues_or_breaks_with<T, B, F: FnOnce() -> B>(
    opt: Option<T>,
    produce: F,
    flow: ControlFlow<B, T>,
) -> bool {
    match (opt, flow) {
        (Some(v), ControlFlow::Continue(w)) => w == v,
        (None, ControlFlow::Break(out)) => call_ensures(produce, (), out),
        _ => false,
    }
}

/// Whether `flow` is a result of breaking with the payload of `opt`, or of
/// continuing with an output of `produce` where `opt` is empty.
pub open spec fn breaks_or_continues_with<T, C, F: FnOnce() -> C>(
    opt: Option<T>,
    produce: F,
    flow: ControlFlow<T, C>,
) -> bool {
    match (opt, flow) {
        (Some(v), ControlFlow::Break(w)) => w == v,
        (None, ControlFlow::Continue(out)) => call_ensures(produce, (), out),
        _ => false,
    }
}

/// The flow with the two arms exchanged and the payload kept.
pub open spec fn mirror<B, C>(flow: ControlFlow<B, C>) -> ControlFlow<C, B> {
    match flow {
        ControlFlow::Continue(c) => ControlFlow::Break(c),
        ControlFlow::Break(b) => ControlFlow::Continue(b),
    }
}

/// Whether `value` is the only output that `produce` can give.
pub open spec fn yields_only<B, F: FnOnce() -> B>(produce: F, value: B) -> bool {
    forall|out: B| call_ensures(produce, (), out) ==> out == value
}

} // verus!
