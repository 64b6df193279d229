//! The dispatch bridge: connects an external trigger to the promise it
//! drives. A trigger synchronously marks the promise deferred and asks for
//! one fetch; a completion is reconciled into the promise only if its key is
//! still the one most recently deferred. The bridge keeps no state across
//! invocations — every trigger independently runs its course.

use vstd::prelude::*;
use crate::promise::Promise;
use crate::promise::RequestKey;
use crate::promise::accepts;
use crate::promise::after_update;

verus! {

/// An event delivered to the bridge by the owner thread's queue: either an
/// external trigger carrying a request key, or a completion carrying the key
/// it was fetched for and the outcome.
#[derive(Debug, PartialEq, Eq)]
pub enum FetchEvent<D, R, E> {
    Trigger(D),
    Completion(D, Result<R, E>),
}

/// What the caller must do after the bridge has run: start exactly one fetch
/// for the key, or nothing. The core never performs the fetch itself.
#[derive(Debug, Clone, PartialEq, Eq)]
pub enum FetchAction<D> {
    Start(D),
    Stay,
}

/// Handle an external trigger: mark the promise deferred for `key` before
/// any fetch is scheduled — the renderer shows the pending view immediately
/// — and instruct the caller to start one fetch for the same key.
pub fn on_trigger<D: RequestKey, R, E>(promise: &mut Promise<D, R, E>, key: D) -> (a: FetchAction<
    D,
>)
    ensures
        *final(promise) == Promise::<D, R, E>::Deferred(key),
        a == FetchAction::Start(key),
{
    let fetch_key = key.dup();
    promise.defer(key);
    FetchAction::Start(fetch_key)
}

/// Handle a completion: reconcile it into the promise. When the update
/// reports the completion stale, nothing further happens — no error, no
/// retry. Returns whether the completion was applied.
pub fn on_complete<D: RequestKey, R, E>(
    promise: &mut Promise<D, R, E>,
    key: D,
    result: Result<R, E>,
) -> (applied: bool)
    ensures
        applied == accepts(*old(promise), key),
        *final(promise) == after_update(*old(promise), key, result),
{
    promise.update(key, result)
}

/// One step of the bridge: route an event from the owner thread's queue to
/// the promise and say what outside work, if any, must follow. Triggers
/// always defer and start a fetch; completions only reconcile.
pub fn step<D: RequestKey, R, E>(promise: &mut Promise<D, R, E>, event: FetchEvent<D, R, E>) -> (a:
    FetchAction<D>)
    ensures
        match event {
            FetchEvent::Trigger(d) => *final(promise) == Promise::<D, R, E>::Deferred(d) && a
                == FetchAction::Start(d),
            FetchEvent::Completion(d, r) => *final(promise) == after_update(*old(promise), d, r)
                && a is Stay,
        },
{
    match event {
        FetchEvent::Trigger(d) => on_trigger(promise, d),
        FetchEvent::Completion(d, r) => {
            on_complete(promise, d, r);
            FetchAction::Stay
        },
    }
}

} // verus!
