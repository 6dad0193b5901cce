//! What holds between the conversions, proved over their models.

use crate::model::{
    break_or_value, breaks_or_continues_with, continue_or_value, continues_or_breaks_with, mirror,
    yields_only,
};
use std::ops::ControlFlow;
use vstd::prelude::*;

verus! {

/// On a populated option the lazy conversions give the payload in their own
/// arm whatever the producer is: its outputs play no part in the result.
pub proof fn lemma_populated_ignores_producer<T, X, F: FnOnce() -> X>(
    v: T,
    produce: F,
    continued: ControlFlow<X, T>,
    broken: ControlFlow<T, X>,
)
    ensures
        continues_or_breaks_with(Some(v), produce, continued) <==> continued
            == ControlFlow::<X, T>::Continue(v),
        breaks_or_continues_with(Some(v), produce, broken) <==> broken == ControlFlow::<
            T,
            X,
        >::Break(v),
{
}

/// On an empty option the lazy conversions give, in the other arm, an output
/// of the producer and nothing else.
pub proof fn lemma_empty_takes_producer_output<T, X, F: FnOnce() -> X>(
    produce: F,
    continued: ControlFlow<X, T>,
    broken: ControlFlow<T, X>,
)
    ensures
        continues_or_breaks_with(None::<T>, produce, continued) <==> exists|out: X|
            call_ensures(produce, (), out) && continued == ControlFlow::<X, T>::Break(out),
        breaks_or_continues_with(None::<T>, produce, broken) <==> exists|out: X|
            call_ensures(produce, (), out) && broken == ControlFlow::<T, X>::Continue(out),
{
}

/// A lazy conversion whose producer can only give `value` has the result of
/// the conversion that is handed `value` itself.
pub proof fn lemma_lazy_with_value<T, X, F: FnOnce() -> X>(
    opt: Option<T>,
    value: X,
    produce: F,
    continued: ControlFlow<X, T>,
    broken: ControlFlow<T, X>,
)
    requires
        yields_only(produce, value),
    ensures
        continues_or_breaks_with(opt, produce, continued) ==> continued == continue_or_value(
            opt,
            value,
        ),
        breaks_or_continues_with(opt, produce, broken) ==> broken == break_or_value(opt, value),
{
}

/// Conversely, where `value` is an output of the producer, the result of the
/// conversion that is handed `value` is a result of the lazy one.
pub proof fn lemma_value_with_lazy<T, X, F: FnOnce() -> X>(opt: Option<T>, value: X, produce: F)
    requires
        call_ensures(produce, (), value),
    ensures
        continues_or_breaks_with(opt, produce, continue_or_value(opt, value)),
        breaks_or_continues_with(opt, produce, break_or_value(opt, value)),
{
}

/// Where `value` is the only default of `X`, the conversions that fall back
/// on the default have the result of the conversions that are handed `value`.
pub proof fn lemma_default_with_value<T, X: Default>(
    opt: Option<T>,
    value: X,
    continued: ControlFlow<X, T>,
    broken: ControlFlow<T, X>,
)
    requires
        yields_only(X::default, value),
    ensures
        continues_or_breaks_with(opt, X::default, continued) ==> continued == continue_or_value(
            opt,
            value,
        ),
        breaks_or_continues_with(opt, X::default, broken) ==> broken == break_or_value(
            opt,
            value,
        ),
{
    lemma_lazy_with_value(opt, value, X::default, continued, broken);
}

/// Breaking with the payload and continuing with it are mirror images: on
/// one option and one value the two results have their arms exchanged and
/// the same payload.
pub proof fn lemma_break_or_mirrors_continue_or<T, X>(opt: Option<T>, value: X)
    ensures
        break_or_value(opt, value) == mirror(continue_or_value(opt, value)),
        continue_or_value(opt, value) == mirror(break_or_value(opt, value)),
{
}

/// The lazy conversions are mirror images too: a flow is a result of one
/// exactly when its mirror is a result of the other.
pub proof fn lemma_break_or_else_mirrors_continue_or_else<T, X, F: FnOnce() -> X>(
    opt: Option<T>,
    produce: F,
    flow: ControlFlow<X, T>,
)
    ensures
        continues_or_breaks_with(opt, produce, flow) <==> breaks_or_continues_with(
            opt,
            produce,
            mirror(flow),
        ),
{
}

/// Exchanging the arms twice gives the flow back.
pub proof fn lemma_mirror_involutive<B, C>(flow: ControlFlow<B, C>)
    ensures
        mirror(mirror(flow)) == flow,
{
}

} // verus!
