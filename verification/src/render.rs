//! The state-driven view selector: renders exactly one of the pending,
//! content, or error sub-views from the current promise state, re-selecting
//! on every state change. It is generic over the payload and error types and
//! assumes no specific domain entity.

use vstd::prelude::*;
use crate::ctx::Ctx;
use crate::promise::Promise;

verus! {

/// The three sub-views a promise can be rendered as. The sub-views
/// themselves are opaque to the core: they only need to accept nothing, a
/// payload, or an error value.
#[derive(Debug, Clone, PartialEq, Eq)]
pub enum Render<R, E> {
    /// No result to show yet: nothing started, or a fetch is in flight.
    Pending,
    /// The last fetch succeeded with this payload.
    Content(R),
    /// The last fetch failed with this error.
    Error(E),
}

/// Which sub-view a promise state selects: `Empty` and `Deferred` map to the
/// pending view, a resolved success to the content view, a resolved failure
/// to the error view.
pub open spec fn selection<D, R, E>(p: Promise<D, R, E>) -> Render<R, E> {
    match p {
        Promise::Empty => Render::Pending,
        Promise::Deferred(_) => Render::Pending,
        Promise::Resolved(_, Result::Ok(payload)) => Render::Content(payload),
        Promise::Resolved(_, Result::Err(e)) => Render::Error(e),
    }
}

/// Select the sub-view for the current promise state, borrowing the payload
/// or error out of the promise.
pub fn select_view<'a, D, R, E>(p: &'a Promise<D, R, E>) -> (v: Render<&'a R, &'a E>)
    ensures
        match selection(*p) {
            Render::Pending => v is Pending,
            Render::Content(payload) => (v matches Render::Content(c) && *c == payload),
            Render::Error(e) => (v matches Render::Error(err) && *err == e),
        },
{
    match p {
        Promise::Resolved(_, Result::Ok(payload)) => Render::Content(payload),
        Promise::Resolved(_, Result::Err(e)) => Render::Error(e),
        _ => Render::Pending,
    }
}

/// Select the sub-view and wrap the payload with its shared context, so the
/// content view sees both. The context rides along unchanged; pending and
/// error views take none.
pub fn select_view_with_ctx<'a, C, D, R, E>(
    c: &'a C,
    p: &'a Promise<D, R, E>,
) -> (v: Render<Ctx<&'a C, &'a R>, &'a E>)
    ensures
        match selection(*p) {
            Render::Pending => v is Pending,
            Render::Content(payload) => (v matches Render::Content(w) && *w.ctx == *c
                && *w.data == payload),
            Render::Error(e) => (v matches Render::Error(err) && *err == e),
        },
{
    match p {
        Promise::Resolved(_, Result::Ok(payload)) => Render::Content(
            Ctx { ctx: c, data: payload },
        ),
        Promise::Resolved(_, Result::Err(e)) => Render::Error(e),
        _ => Render::Pending,
    }
}

/// A pending state is never rendered as content or error, and a resolved
/// state is always rendered as exactly the sub-view its outcome selects.
pub proof fn lemma_selection_faithful<D, R, E>(p: Promise<D, R, E>)
    ensures
        (p is Empty || p is Deferred) <==> selection(p) is Pending,
        (p matches Promise::Resolved(_, r) && r is Ok) <==> selection(p) is Content,
        (p matches Promise::Resolved(_, r) && r is Err) <==> selection(p) is Error,
{
}

} // verus!
