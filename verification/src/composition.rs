//! The order of the layers around the handlers.
//!
//! The translation layer must see a response in its final form. So it
//! stands outside the layer that turns faults into error bodies, and that
//! layer stands outside everything that raises faults: load shedding, the
//! concurrency limit and the timeout.

use vstd::prelude::*;

verus! {

/// A layer of the stack.
#[derive(Clone, Copy, Debug, PartialEq, Eq, Structural)]
pub enum LayerKind {
    /// Compresses response bodies.
    Compression,
    /// Gives each request an identifier.
    RequestId,
    /// Traces requests and responses.
    Tracing,
    /// Copies the request's identifier to the response.
    RequestIdPropagation,
    /// Translates the bodies of failed responses.
    ErrorTranslation,
    /// Turns a fault of an inner layer into a response with an error body.
    FaultConversion,
    /// Turns requests away while the service is overloaded.
    LoadShedding,
    /// Bounds the number of requests in flight.
    ConcurrencyLimit,
    /// Bounds the time a request may take.
    Timeout,
    /// Logs request and response bodies.
    BodyLogging,
}

/// Whether every occurrence of `inner` in `stack`, which lists the layers
/// from the outermost in, stands inside an occurrence of `outer`.
pub open spec fn wraps(stack: Seq<LayerKind>, outer: LayerKind, inner: LayerKind) -> bool {
    forall|j: int|
        0 <= j < stack.len() && stack[j] == inner ==> exists|i: int|
            0 <= i < j && stack[i] == outer
}

/// Whether `stack` lets the translation layer see every failure in its
/// final form: fault conversion stands inside translation, and whatever
/// raises faults stands inside fault conversion.
pub open spec fn well_ordered(stack: Seq<LayerKind>) -> bool {
    &&& wraps(stack, LayerKind::ErrorTranslation, LayerKind::FaultConversion)
    &&& wraps(stack, LayerKind::FaultConversion, LayerKind::LoadShedding)
    &&& wraps(stack, LayerKind::FaultConversion, LayerKind::ConcurrencyLimit)
    &&& wraps(stack, LayerKind::FaultConversion, LayerKind::Timeout)
}

/// The layer at position `i` of the service's stack, counted from the
/// outermost in.
pub open spec fn standard_layer(i: int) -> LayerKind {
    if i == 0 {
        LayerKind::Compression
    } else if i == 1 {
        LayerKind::RequestId
    } else if i == 2 {
        LayerKind::Tracing
    } else if i == 3 {
        LayerKind::RequestIdPropagation
    } else if i == 4 {
        LayerKind::ErrorTranslation
    } else if i == 5 {
        LayerKind::FaultConversion
    } else if i == 6 {
        LayerKind::LoadShedding
    } else if i == 7 {
        LayerKind::ConcurrencyLimit
    } else if i == 8 {
        LayerKind::Timeout
    } else {
        LayerKind::BodyLogging
    }
}

/// The layers of the service, from the outermost in.
pub open spec fn standard_layers() -> Seq<LayerKind> {
    Seq::new(10, |i: int| standard_layer(i))
}

/// Checks that every `inner` layer of `stack` stands inside an `outer` one.
pub fn is_wrapped(stack: &Vec<LayerKind>, outer: LayerKind, inner: LayerKind) -> (ok: bool)
    ensures
        ok == wraps(stack@, outer, inner),
{
    let mut seen_outer: bool = false;
    let ghost mut at: int = 0;
    let mut j: usize = 0;
    while j < stack.len()
        invariant
            j <= stack.len(),
            seen_outer ==> 0 <= at < j && stack[at] == outer,
            !seen_outer ==> forall|i: int| 0 <= i < j ==> stack[i] != outer,
            forall|k: int|
                0 <= k < j && stack[k] == inner ==> exists|i: int| 0 <= i < k && stack[i] == outer,
        decreases stack.len() - j,
    {
        if stack[j] == inner && !seen_outer {
            return false;
        }
        proof {
            if stack[j as int] == inner {
                assert(0 <= at < j && stack[at] == outer);
            }
        }
        if stack[j] == outer && !seen_outer {
            seen_outer = true;
            proof {
                at = j as int;
            }
        }
        j = j + 1;
    }
    true
}

/// Checks a stack as [`well_ordered`] says.
pub fn is_well_ordered(stack: &Vec<LayerKind>) -> (ok: bool)
    ensures
        ok == well_ordered(stack@),
{
    is_wrapped(stack, LayerKind::ErrorTranslation, LayerKind::FaultConversion) && is_wrapped(
        stack,
        LayerKind::FaultConversion,
        LayerKind::LoadShedding,
    ) && is_wrapped(stack, LayerKind::FaultConversion, LayerKind::ConcurrencyLimit) && is_wrapped(
        stack,
        LayerKind::FaultConversion,
        LayerKind::Timeout,
    )
}

/// The layers of the service, from the outermost in.
pub fn layer_stack() -> (stack: Vec<LayerKind>)
    ensures
        stack@ == standard_layers(),
        well_ordered(stack@),
{
    let mut stack: Vec<LayerKind> = Vec::new();
    stack.push(LayerKind::Compression);
    stack.push(LayerKind::RequestId);
    stack.push(LayerKind::Tracing);
    stack.push(LayerKind::RequestIdPropagation);
    stack.push(LayerKind::ErrorTranslation);
    stack.push(LayerKind::FaultConversion);
    stack.push(LayerKind::LoadShedding);
    stack.push(LayerKind::ConcurrencyLimit);
    stack.push(LayerKind::Timeout);
    stack.push(LayerKind::BodyLogging);
    proof {
        assert(stack@ =~= standard_layers());
        lemma_standard_layers_are_well_ordered();
    }
    stack
}

/// In a stack that holds `outer` at position `at` and no `inner` up to
/// there, every `inner` stands inside an `outer`.
proof fn lemma_wraps(stack: Seq<LayerKind>, outer: LayerKind, inner: LayerKind, at: int)
    requires
        0 <= at < stack.len(),
        stack[at] == outer,
        forall|j: int| 0 <= j <= at ==> stack[j] != inner,
    ensures
        wraps(stack, outer, inner),
{
    assert forall|j: int| 0 <= j < stack.len() && stack[j] == inner implies exists|i: int|
        0 <= i < j && stack[i] == outer by {
        assert(0 <= at < j && stack[at] == outer);
    }
}

/// The service's own stack is well ordered.
pub proof fn lemma_standard_layers_are_well_ordered()
    ensures
        well_ordered(standard_layers()),
{
    let stack = standard_layers();
    lemma_wraps(stack, LayerKind::ErrorTranslation, LayerKind::FaultConversion, 4);
    lemma_wraps(stack, LayerKind::FaultConversion, LayerKind::LoadShedding, 5);
    lemma_wraps(stack, LayerKind::FaultConversion, LayerKind::ConcurrencyLimit, 5);
    lemma_wraps(stack, LayerKind::FaultConversion, LayerKind::Timeout, 5);
}

} // verus!
